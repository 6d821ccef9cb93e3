//! Error kinds surfaced by the ping engine.

use vstd::prelude::*;
use crate::addr::{IpAddr, PingIdentifier, PingSequence};

verus! {

/// Structural fault found while decoding an inbound datagram.
#[derive(Debug, Clone, Copy, PartialEq, Eq, Structural)]
pub enum MalformedPacketError {
    /// The buffer was expected to be an IPv4 datagram and is not.
    NotIpv4Packet,
    /// The buffer was expected to carry IPv6 traffic and is not.
    NotIpv6Packet,
    /// The IPv4 datagram does not carry an ICMPv4 payload.
    NotIcmpv4Packet,
    /// The buffer does not hold an ICMPv6 message.
    NotIcmpv6Packet,
    /// The buffer ends before the fixed headers do; `got` is the length at
    /// hand, `want` the least length a well-formed message needs.
    PayloadTooShort { got: usize, want: usize },
}

/// An error resulting from a ping send/receive operation.
#[derive(Debug, PartialEq, Eq)]
pub enum SurgeError {
    /// The requested payload does not fit the encoding buffer.
    IncorrectBufferSize,
    /// An inbound datagram failed structural decoding.
    MalformedPacket(MalformedPacketError),
    /// Opaque propagation of an underlying socket failure.
    IOError(String),
    /// The received message is an Echo Request, not the expected reply shape.
    EchoRequestPacket,
    /// The awaited reply channel closed without a value.
    NetworkError,
    /// A request with this key is already outstanding.
    IdenticalRequests { host: IpAddr, ident: Option<PingIdentifier>, seq: PingSequence },
    /// The sequence number is outside the valid range (zero).
    UnsupportedSeqNum,
}

} // verus!
