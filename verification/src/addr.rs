//! Plain-value model of network addresses and the correlation key that
//! matches an Echo Reply to the request that caused it.

use vstd::prelude::*;

verus! {

/// Network-layer address of a ping destination or of a reply's source.
///
/// An IPv4 address is its four octets; an IPv6 address is its 128-bit
/// value with the first segment in the highest-order position.
#[derive(Debug, Clone, Copy, PartialEq, Eq, Structural)]
pub enum IpAddr {
    V4(u8, u8, u8, u8),
    V6(u128),
}

impl IpAddr {
    pub open spec fn is_v4(self) -> bool {
        self is V4
    }

    pub open spec fn is_v6(self) -> bool {
        self is V6
    }
}

/// 16-bit ICMP Echo identifier distinguishing one session's packets from
/// another's on a shared socket.
#[derive(Debug, Clone, Copy, PartialEq, Eq, Structural)]
pub struct PingIdentifier(pub u16);

/// 16-bit ICMP Echo sequence number; only 1..=65535 are usable, 0 is
/// rejected at send time.
#[derive(Debug, Clone, Copy, PartialEq, Eq, Structural)]
pub struct PingSequence(pub u16);

impl PingSequence {
    /// A sequence number is valid when it is not zero.
    pub open spec fn is_valid(self) -> bool {
        self.0 != 0
    }
}

/// Key under which one outstanding Echo Request is registered: destination
/// address, the session's identifier (absent when the socket kind rewrites
/// identifiers), and the request's sequence number.
#[derive(Debug, Clone, Copy, PartialEq, Eq)]
pub struct CorrelationKey {
    pub host: IpAddr,
    pub ident: Option<PingIdentifier>,
    pub seq: PingSequence,
}

/// Field-by-field equality of two addresses.
pub fn addr_eq(a: &IpAddr, b: &IpAddr) -> (r: bool)
    ensures
        r <==> (*a == *b),
{
    match (a, b) {
        (IpAddr::V4(a0, a1, a2, a3), IpAddr::V4(b0, b1, b2, b3)) => {
            a0 == b0 && a1 == b1 && a2 == b2 && a3 == b3
        },
        (IpAddr::V6(x), IpAddr::V6(y)) => x == y,
        _ => false,
    }
}

/// Field-by-field equality of two correlation keys.
pub fn key_eq(a: &CorrelationKey, b: &CorrelationKey) -> (r: bool)
    ensures
        r <==> (*a == *b),
{
    let host_ok = addr_eq(&a.host, &b.host);
    let ident_ok = match (a.ident, b.ident) {
        (None, None) => true,
        (Some(x), Some(y)) => x.0 == y.0,
        _ => false,
    };
    let seq_ok = a.seq.0 == b.seq.0;
    host_ok && ident_ok && seq_ok
}

} // verus!
