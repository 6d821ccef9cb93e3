//! Stateless codec for ICMPv4 and ICMPv6 Echo messages.
//!
//! Encoding emits the eight-byte Echo header (type, code, checksum,
//! identifier, sequence, all multi-byte fields big-endian) followed by the
//! payload. For ICMPv4 the checksum field is overwritten with the Internet
//! checksum of the whole message; for ICMPv6 it is left zero, since the
//! kernel computes the checksum over the IPv6 pseudo-header at send time.
//!
//! Decoding of an inbound IPv4 buffer sees the full IP datagram: the
//! version nibble is verified, the variable-length IP header is skipped,
//! and the protocol field must name ICMP. An inbound ICMPv6 buffer starts
//! directly at the ICMP header; its source address comes from the socket.
//! A buffer that ends before the fixed headers do fails with a length
//! error naming both the length at hand and the least length required.

use vstd::prelude::*;
use crate::addr::IpAddr;
use crate::checksum::{checksum_valid, internet_checksum, stored_checksum, with_zero_checksum};
use crate::error::{MalformedPacketError, SurgeError};
use vstd::arithmetic::div_mod::lemma_fundamental_div_mod;

verus! {

/// ICMPv4 Echo Request message type.
pub const ECHO_REQUEST_V4: u8 = 8;

/// ICMPv4 Echo Reply message type.
pub const ECHO_REPLY_V4: u8 = 0;

/// ICMPv6 Echo Request message type.
pub const ECHO_REQUEST_V6: u8 = 128;

/// ICMPv6 Echo Reply message type.
pub const ECHO_REPLY_V6: u8 = 129;

/// Size of the encoding buffer; header plus payload must fit in it.
pub const MAX_PACKET_BYTES: usize = 1024;

/// The 16-bit identifier field of an Echo message (bytes 4 and 5).
pub open spec fn echo_identifier(m: Seq<u8>) -> int {
    m[4] * 0x100 + m[5]
}

/// The 16-bit sequence field of an Echo message (bytes 6 and 7).
pub open spec fn echo_sequence(m: Seq<u8>) -> int {
    m[6] * 0x100 + m[7]
}

/// The payload of an Echo message: everything after the 8-byte header.
pub open spec fn echo_payload(m: Seq<u8>) -> Seq<u8> {
    m.skip(8)
}

/// `m` is an Echo message of type `t`, code 0, with the given identifier,
/// sequence and payload. Says nothing of the checksum field.
pub open spec fn is_echo_message(m: Seq<u8>, t: u8, ident: u16, seq: u16, payload: Seq<u8>) -> bool {
    &&& m.len() == 8 + payload.len()
    &&& m[0] == t
    &&& m[1] == 0u8
    &&& echo_identifier(m) == ident
    &&& echo_sequence(m) == seq
    &&& echo_payload(m) == payload
}

/// The IP version nibble of a datagram.
pub open spec fn v4_version(b: Seq<u8>) -> int {
    (b[0] as int) / 0x10
}

/// The IPv4 header length in bytes, taken from the low nibble of byte 0.
pub open spec fn v4_header_len(b: Seq<u8>) -> int {
    ((b[0] as int) % 0x10) * 4
}

/// The datagram is framed as IPv4: non-empty, version 4, plausible header.
pub open spec fn v4_framing_ok(b: Seq<u8>) -> bool {
    &&& b.len() > 0
    &&& v4_version(b) == 4
    &&& v4_header_len(b) >= 20
}

/// The datagram is long enough for its IP header plus an Echo header.
pub open spec fn v4_length_ok(b: Seq<u8>) -> bool {
    b.len() >= v4_header_len(b) + 8
}

/// The datagram's next layer is ICMP (protocol 1).
pub open spec fn v4_protocol_ok(b: Seq<u8>) -> bool {
    b[9] == 1u8
}

/// The datagram decodes as an ICMPv4 message.
pub open spec fn v4_structure_ok(b: Seq<u8>) -> bool {
    &&& v4_framing_ok(b)
    &&& v4_length_ok(b)
    &&& v4_protocol_ok(b)
}

/// The ICMP message carried by an IPv4 datagram: the bytes after the IP
/// header.
pub open spec fn v4_icmp_part(b: Seq<u8>) -> Seq<u8> {
    b.skip(v4_header_len(b))
}

/// The source address field of an IPv4 header (bytes 12 through 15).
pub open spec fn v4_source(b: Seq<u8>) -> IpAddr {
    IpAddr::V4(b[12], b[13], b[14], b[15])
}

/// A decoded ICMPv4 Echo message.
#[derive(Debug)]
pub struct Icmpv4Packet {
    pub source: IpAddr,
    pub icmp_type: u8,
    pub code: u8,
    pub checksum: u16,
    pub identifier: u16,
    pub sequence: u16,
    pub payload: Vec<u8>,
}

/// A decoded ICMPv6 Echo message.
#[derive(Debug)]
pub struct Icmpv6Packet {
    pub source: IpAddr,
    pub icmp_type: u8,
    pub code: u8,
    pub checksum: u16,
    pub identifier: u16,
    pub sequence: u16,
    pub payload: Vec<u8>,
}

/// A decoded inbound packet, tagged by address family.
#[derive(Debug)]
pub enum IcmpPacket {
    V4(Icmpv4Packet),
    V6(Icmpv6Packet),
}

impl Icmpv4Packet {
    /// An ICMPv4 message is an Echo Reply when its type is 0.
    pub open spec fn is_echo_reply(self) -> bool {
        self.icmp_type == ECHO_REPLY_V4
    }

    pub fn get_source(&self) -> (r: IpAddr)
        ensures
            r == self.source,
    {
        self.source
    }

    pub fn get_identifier(&self) -> (r: u16)
        ensures
            r == self.identifier,
    {
        self.identifier
    }

    pub fn get_sequence(&self) -> (r: u16)
        ensures
            r == self.sequence,
    {
        self.sequence
    }

    /// Size of the payload carried by the message.
    pub fn get_size(&self) -> (r: usize)
        ensures
            r == self.payload@.len(),
    {
        self.payload.len()
    }
}

impl Icmpv6Packet {
    /// An ICMPv6 message is an Echo Reply when its type is 129.
    pub open spec fn is_echo_reply(self) -> bool {
        self.icmp_type == ECHO_REPLY_V6
    }

    pub fn get_source(&self) -> (r: IpAddr)
        ensures
            r == self.source,
    {
        self.source
    }

    pub fn get_identifier(&self) -> (r: u16)
        ensures
            r == self.identifier,
    {
        self.identifier
    }

    pub fn get_sequence(&self) -> (r: u16)
        ensures
            r == self.sequence,
    {
        self.sequence
    }

    /// Size of the payload carried by the message.
    pub fn get_size(&self) -> (r: usize)
        ensures
            r == self.payload@.len(),
    {
        self.payload.len()
    }
}

impl IcmpPacket {
    /// The reply's source address.
    pub open spec fn source(self) -> IpAddr {
        match self {
            IcmpPacket::V4(p) => p.source,
            IcmpPacket::V6(p) => p.source,
        }
    }

    /// The message's identifier field.
    pub open spec fn identifier(self) -> u16 {
        match self {
            IcmpPacket::V4(p) => p.identifier,
            IcmpPacket::V6(p) => p.identifier,
        }
    }

    /// The message's sequence field.
    pub open spec fn sequence(self) -> u16 {
        match self {
            IcmpPacket::V4(p) => p.sequence,
            IcmpPacket::V6(p) => p.sequence,
        }
    }

    /// Whether the message is an Echo Reply of its family.
    pub open spec fn is_echo_reply(self) -> bool {
        match self {
            IcmpPacket::V4(p) => p.is_echo_reply(),
            IcmpPacket::V6(p) => p.is_echo_reply(),
        }
    }

    pub fn get_source(&self) -> (r: IpAddr)
        ensures
            r == self.source(),
    {
        match self {
            IcmpPacket::V4(p) => p.get_source(),
            IcmpPacket::V6(p) => p.get_source(),
        }
    }

    pub fn get_identifier(&self) -> (r: u16)
        ensures
            r == self.identifier(),
    {
        match self {
            IcmpPacket::V4(p) => p.get_identifier(),
            IcmpPacket::V6(p) => p.get_identifier(),
        }
    }

    pub fn get_sequence(&self) -> (r: u16)
        ensures
            r == self.sequence(),
    {
        match self {
            IcmpPacket::V4(p) => p.get_sequence(),
            IcmpPacket::V6(p) => p.get_sequence(),
        }
    }

    pub fn is_reply(&self) -> (r: bool)
        ensures
            r == self.is_echo_reply(),
    {
        match self {
            IcmpPacket::V4(p) => p.icmp_type == ECHO_REPLY_V4,
            IcmpPacket::V6(p) => p.icmp_type == ECHO_REPLY_V6,
        }
    }

    /// Checks that the message has the shape of an Echo Reply; any other
    /// message is reported as an unexpected packet.
    pub fn ensure_echo_reply(&self) -> (r: Result<(), SurgeError>)
        ensures
            r is Ok <==> self.is_echo_reply(),
            r is Err ==> r == Err::<(), SurgeError>(SurgeError::EchoRequestPacket),
    {
        if self.is_reply() {
            Ok(())
        } else {
            Err(SurgeError::EchoRequestPacket)
        }
    }
}

/// Appends `src[from..]` to `dst`.
fn append_tail(dst: &mut Vec<u8>, src: &Vec<u8>, from: usize)
    requires
        from <= src@.len(),
        old(dst)@.len() + src@.len() <= usize::MAX,
    ensures
        final(dst)@ == old(dst)@ + src@.skip(from as int),
{
    let n = src.len();
    let mut j = from;
    while j < n
        invariant
            n == src@.len(),
            from <= j <= n,
            old(dst)@.len() + src@.len() <= usize::MAX,
            dst@ == old(dst)@ + src@.subrange(from as int, j as int),
        decreases n - j,
    {
        dst.push(src[j]);
        proof {
            assert(src@.subrange(from as int, j as int + 1)
                =~= src@.subrange(from as int, j as int).push(src@[j as int]));
        }
        j = j + 1;
    }
    proof {
        assert(src@.subrange(from as int, n as int) =~= src@.skip(from as int));
    }
}

/// Builds an Echo message with the given type byte, a zero checksum field,
/// big-endian identifier and sequence, and the payload appended.
fn build_echo_message(t: u8, ident: u16, seq: u16, payload: &Vec<u8>) -> (r: Vec<u8>)
    requires
        payload@.len() + 8 <= MAX_PACKET_BYTES,
    ensures
        is_echo_message(r@, t, ident, seq, payload@),
        r@[2] == 0u8,
        r@[3] == 0u8,
        r@.len() == 8 + payload@.len(),
{
    let mut buf: Vec<u8> = Vec::new();
    buf.push(t);
    buf.push(0);
    buf.push(0);
    buf.push(0);
    buf.push((ident / 0x100) as u8);
    buf.push((ident % 0x100) as u8);
    buf.push((seq / 0x100) as u8);
    buf.push((seq % 0x100) as u8);
    append_tail(&mut buf, payload, 0);
    proof {
        lemma_fundamental_div_mod(ident as int, 0x100);
        lemma_fundamental_div_mod(seq as int, 0x100);
        assert(payload@.skip(0) =~= payload@);
        assert(echo_payload(buf@) =~= payload@);
    }
    buf
}

/// Encodes an ICMPv4 Echo Request: type 8, code 0, big-endian identifier
/// and sequence, payload, and the Internet checksum of the whole message
/// written into bytes 2 and 3.
pub fn make_icmpv4_echo_packet(ident: u16, seq: u16, payload: &Vec<u8>) -> (r: Result<
    Vec<u8>,
    SurgeError,
>)
    ensures
        r is Ok <==> payload@.len() + 8 <= MAX_PACKET_BYTES,
        r is Err ==> r == Err::<Vec<u8>, SurgeError>(SurgeError::IncorrectBufferSize),
        r matches Ok(v) ==> is_echo_message(v@, ECHO_REQUEST_V4, ident, seq, payload@),
        r matches Ok(v) ==> checksum_valid(v@),
{
    if payload.len() > MAX_PACKET_BYTES - 8 {
        return Err(SurgeError::IncorrectBufferSize);
    }
    let mut buf = build_echo_message(ECHO_REQUEST_V4, ident, seq, payload);
    let ghost zeroed = buf@;
    let ck = internet_checksum(&buf);
    buf[2] = (ck / 0x100) as u8;
    buf[3] = (ck % 0x100) as u8;
    proof {
        lemma_fundamental_div_mod(ck as int, 0x100);
        assert(with_zero_checksum(buf@) =~= zeroed);
        assert(stored_checksum(buf@) == ck as int);
        assert(echo_payload(buf@) =~= echo_payload(zeroed));
    }
    Ok(buf)
}

/// Encodes an ICMPv6 Echo Request: type 128, code 0, big-endian identifier
/// and sequence, payload. The checksum field is left zero: it is computed
/// over the IPv6 pseudo-header by the kernel at send time.
pub fn make_icmpv6_echo_packet(ident: u16, seq: u16, payload: &Vec<u8>) -> (r: Result<
    Vec<u8>,
    SurgeError,
>)
    ensures
        r is Ok <==> payload@.len() + 8 <= MAX_PACKET_BYTES,
        r is Err ==> r == Err::<Vec<u8>, SurgeError>(SurgeError::IncorrectBufferSize),
        r matches Ok(v) ==> is_echo_message(v@, ECHO_REQUEST_V6, ident, seq, payload@),
        r matches Ok(v) ==> stored_checksum(v@) == 0,
{
    if payload.len() > MAX_PACKET_BYTES - 8 {
        return Err(SurgeError::IncorrectBufferSize);
    }
    let buf = build_echo_message(ECHO_REQUEST_V6, ident, seq, payload);
    Ok(buf)
}

/// Decodes a full IPv4 datagram as an ICMPv4 message: checks the version
/// nibble, skips the variable-length IP header, checks the protocol field,
/// and parses the Echo header. Length faults are reported with the length
/// at hand and the least length the datagram would need.
pub fn decode_icmpv4(buf: &Vec<u8>) -> (r: Result<Icmpv4Packet, SurgeError>)
    ensures
        r is Ok <==> v4_structure_ok(buf@),
        r matches Ok(p) ==> p.source == v4_source(buf@),
        r matches Ok(p) ==> p.icmp_type == v4_icmp_part(buf@)[0],
        r matches Ok(p) ==> p.code == v4_icmp_part(buf@)[1],
        r matches Ok(p) ==> p.checksum == stored_checksum(v4_icmp_part(buf@)),
        r matches Ok(p) ==> p.identifier == echo_identifier(v4_icmp_part(buf@)),
        r matches Ok(p) ==> p.sequence == echo_sequence(v4_icmp_part(buf@)),
        r matches Ok(p) ==> p.payload@ == echo_payload(v4_icmp_part(buf@)),
        buf@.len() == 0 ==> r == Err::<Icmpv4Packet, SurgeError>(
            SurgeError::MalformedPacket(MalformedPacketError::PayloadTooShort { got: 0, want: 28 }),
        ),
        buf@.len() > 0 && (v4_version(buf@) != 4 || v4_header_len(buf@) < 20) ==> r == Err::<
            Icmpv4Packet,
            SurgeError,
        >(SurgeError::MalformedPacket(MalformedPacketError::NotIpv4Packet)),
        v4_framing_ok(buf@) && !v4_length_ok(buf@) ==> r == Err::<Icmpv4Packet, SurgeError>(
            SurgeError::MalformedPacket(
                MalformedPacketError::PayloadTooShort {
                    got: buf@.len() as usize,
                    want: (v4_header_len(buf@) + 8) as usize,
                },
            ),
        ),
        v4_framing_ok(buf@) && v4_length_ok(buf@) && !v4_protocol_ok(buf@) ==> r == Err::<
            Icmpv4Packet,
            SurgeError,
        >(SurgeError::MalformedPacket(MalformedPacketError::NotIcmpv4Packet)),
{
    let n = buf.len();
    if n == 0 {
        return Err(SurgeError::MalformedPacket(MalformedPacketError::PayloadTooShort {
            got: 0,
            want: 28,
        }));
    }
    let first = buf[0];
    if first / 0x10 != 4 {
        return Err(SurgeError::MalformedPacket(MalformedPacketError::NotIpv4Packet));
    }
    let ihl = ((first % 0x10) as usize) * 4;
    if ihl < 20 {
        return Err(SurgeError::MalformedPacket(MalformedPacketError::NotIpv4Packet));
    }
    if n < ihl + 8 {
        return Err(SurgeError::MalformedPacket(MalformedPacketError::PayloadTooShort {
            got: n,
            want: ihl + 8,
        }));
    }
    if buf[9] != 1 {
        return Err(SurgeError::MalformedPacket(MalformedPacketError::NotIcmpv4Packet));
    }
    let source = IpAddr::V4(buf[12], buf[13], buf[14], buf[15]);
    let icmp_type = buf[ihl];
    let code = buf[ihl + 1];
    let checksum: u16 = (buf[ihl + 2] as u16) * 0x100 + (buf[ihl + 3] as u16);
    let identifier: u16 = (buf[ihl + 4] as u16) * 0x100 + (buf[ihl + 5] as u16);
    let sequence: u16 = (buf[ihl + 6] as u16) * 0x100 + (buf[ihl + 7] as u16);
    let mut payload: Vec<u8> = Vec::new();
    append_tail(&mut payload, buf, ihl + 8);
    proof {
        let icmp = v4_icmp_part(buf@);
        assert(icmp[0] == buf@[ihl as int]);
        assert(icmp[1] == buf@[ihl as int + 1]);
        assert(icmp[2] == buf@[ihl as int + 2]);
        assert(icmp[3] == buf@[ihl as int + 3]);
        assert(icmp[4] == buf@[ihl as int + 4]);
        assert(icmp[5] == buf@[ihl as int + 5]);
        assert(icmp[6] == buf@[ihl as int + 6]);
        assert(icmp[7] == buf@[ihl as int + 7]);
        assert(payload@ =~= echo_payload(icmp));
    }
    Ok(Icmpv4Packet { source, icmp_type, code, checksum, identifier, sequence, payload })
}

/// Decodes a raw ICMPv6 buffer, which carries no IP header; the source
/// address comes from the socket and must be an IPv6 address.
pub fn decode_icmpv6(buf: &Vec<u8>, source: &IpAddr) -> (r: Result<Icmpv6Packet, SurgeError>)
    ensures
        r is Ok <==> (source.is_v6() && buf@.len() >= 8),
        !source.is_v6() ==> r == Err::<Icmpv6Packet, SurgeError>(
            SurgeError::MalformedPacket(MalformedPacketError::NotIpv6Packet),
        ),
        source.is_v6() && buf@.len() < 8 ==> r == Err::<Icmpv6Packet, SurgeError>(
            SurgeError::MalformedPacket(
                MalformedPacketError::PayloadTooShort { got: buf@.len() as usize, want: 8 },
            ),
        ),
        r matches Ok(p) ==> p.source == *source,
        r matches Ok(p) ==> p.icmp_type == buf@[0],
        r matches Ok(p) ==> p.code == buf@[1],
        r matches Ok(p) ==> p.checksum == stored_checksum(buf@),
        r matches Ok(p) ==> p.identifier == echo_identifier(buf@),
        r matches Ok(p) ==> p.sequence == echo_sequence(buf@),
        r matches Ok(p) ==> p.payload@ == echo_payload(buf@),
{
    let is_v6 = match source {
        IpAddr::V6(_) => true,
        _ => false,
    };
    if !is_v6 {
        return Err(SurgeError::MalformedPacket(MalformedPacketError::NotIpv6Packet));
    }
    let n = buf.len();
    if n < 8 {
        return Err(SurgeError::MalformedPacket(MalformedPacketError::PayloadTooShort {
            got: n,
            want: 8,
        }));
    }
    let icmp_type = buf[0];
    let code = buf[1];
    let checksum: u16 = (buf[2] as u16) * 0x100 + (buf[3] as u16);
    let identifier: u16 = (buf[4] as u16) * 0x100 + (buf[5] as u16);
    let sequence: u16 = (buf[6] as u16) * 0x100 + (buf[7] as u16);
    let mut payload: Vec<u8> = Vec::new();
    append_tail(&mut payload, buf, 8);
    proof {
        assert(payload@ =~= echo_payload(buf@));
    }
    Ok(Icmpv6Packet { source: *source, icmp_type, code, checksum, identifier, sequence, payload })
}

/// A canonical 20-byte IPv4 header carrying ICMP from the given source
/// octets, as a peer's datagram would frame an Echo Reply.
pub open spec fn canonical_v4_header(s0: u8, s1: u8, s2: u8, s3: u8) -> Seq<u8> {
    seq![0x45u8, 0u8, 0u8, 0u8, 0u8, 0u8, 0u8, 0u8, 0x40u8, 1u8, 0u8, 0u8, s0, s1, s2, s3, 0u8, 0u8, 0u8, 0u8]
}

/// Law: an encoded Echo message framed in an IPv4 datagram decodes back to
/// the identifier, sequence and payload it was built from, and a valid
/// checksum stays valid; together with the contracts of
/// `make_icmpv4_echo_packet` and `decode_icmpv4` this is the round trip.
pub proof fn lemma_round_trip_v4(
    msg: Seq<u8>,
    t: u8,
    ident: u16,
    seq: u16,
    payload: Seq<u8>,
    s0: u8,
    s1: u8,
    s2: u8,
    s3: u8,
)
    requires
        is_echo_message(msg, t, ident, seq, payload),
    ensures
        v4_structure_ok(canonical_v4_header(s0, s1, s2, s3) + msg),
        v4_icmp_part(canonical_v4_header(s0, s1, s2, s3) + msg) == msg,
        v4_source(canonical_v4_header(s0, s1, s2, s3) + msg) == IpAddr::V4(s0, s1, s2, s3),
        echo_identifier(v4_icmp_part(canonical_v4_header(s0, s1, s2, s3) + msg)) == ident,
        echo_sequence(v4_icmp_part(canonical_v4_header(s0, s1, s2, s3) + msg)) == seq,
        echo_payload(v4_icmp_part(canonical_v4_header(s0, s1, s2, s3) + msg)) == payload,
        checksum_valid(msg) ==> checksum_valid(v4_icmp_part(canonical_v4_header(s0, s1, s2, s3) + msg)),
{
    let hdr = canonical_v4_header(s0, s1, s2, s3);
    let dat = hdr + msg;
    assert(dat[0] == 0x45u8);
    assert(v4_header_len(dat) == 20);
    assert(dat[9] == 1u8);
    assert(v4_icmp_part(dat) =~= msg);
}

/// Law: an encoded ICMPv6 Echo message decodes back to the identifier,
/// sequence and payload it was built from; the byte fields the decoder
/// reads are exactly the ones the encoder wrote.
pub proof fn lemma_round_trip_v6(msg: Seq<u8>, t: u8, ident: u16, seq: u16, payload: Seq<u8>)
    requires
        is_echo_message(msg, t, ident, seq, payload),
    ensures
        msg.len() >= 8,
        echo_identifier(msg) == ident,
        echo_sequence(msg) == seq,
        echo_payload(msg) == payload,
{
}

} // verus!
