//! One ping session: a destination, a fixed identity, and the send/receive
//! steps around one shared reply router.
//!
//! The asynchronous runtime around the library splits a ping into the
//! steps below: `prepare_send` registers the waiter and encodes the
//! packet BEFORE anything is transmitted (so a reply can never arrive
//! before its entry exists), the runtime transmits the bytes, then either
//! `commit_send` records the sequence for teardown or `rollback_send`
//! removes the entry so no dangling entry survives a failed send. When the
//! awaited channel resolves, `finish_recv` turns the outcome into the
//! decoded reply and its round-trip time.

use vstd::prelude::*;
use crate::addr::{CorrelationKey, IpAddr, PingIdentifier, PingSequence};
use crate::error::SurgeError;
use crate::checksum::checksum_valid;
use crate::icmp::{is_echo_message, make_icmpv4_echo_packet, make_icmpv6_echo_packet, IcmpPacket,
    ECHO_REQUEST_V4, ECHO_REQUEST_V6, MAX_PACKET_BYTES};
use crate::router::{Reply, ReplyMap};

verus! {

/// The round-trip time: arrival minus send, floored at zero to tolerate
/// clock and scheduling noise.
pub open spec fn round_trip_nanos(arrival: u64, sent: u64) -> u64 {
    if arrival >= sent {
        (arrival - sent) as u64
    } else {
        0
    }
}

/// Law: the reported round-trip duration is never negative, whatever the
/// order of the two timestamps, and it is exact when the clock moved
/// forward.
pub proof fn lemma_round_trip_nonnegative(arrival: u64, sent: u64)
    ensures
        round_trip_nanos(arrival, sent) >= 0,
        arrival >= sent ==> round_trip_nanos(arrival, sent) == arrival - sent,
{
}

/// The state of one particular ping session.
pub struct Pinger {
    /// Destination of every request this session sends.
    pub host: IpAddr,
    /// Fixed identity: `None` when the socket kind rewrites identifiers.
    pub ident: Option<PingIdentifier>,
    /// Sequence of the last transmitted request, 0 before any send; its
    /// entry is what teardown must clean up.
    pub last_sequence: PingSequence,
}

impl Pinger {
    /// The identifier value written into the wire format: 0 stands in when
    /// the socket kind assigns its own.
    pub open spec fn wire_identifier(self) -> u16 {
        match self.ident {
            Some(i) => i.0,
            None => 0,
        }
    }

    /// The key this session registers sequence `seq` under.
    pub open spec fn key_for(self, seq: PingSequence) -> CorrelationKey {
        CorrelationKey { host: self.host, ident: self.ident, seq }
    }

    /// The Echo Request message type of this session's address family.
    pub open spec fn echo_request_type(self) -> u8 {
        if self.host is V4 {
            ECHO_REQUEST_V4
        } else {
            ECHO_REQUEST_V6
        }
    }

    /// Makes a session to `host`. If the socket kind does not pass
    /// caller-chosen identifiers through, the identity is left unset and
    /// the kernel's substitute is matched by the identifier-less key;
    /// otherwise the hint is the session's identifier for every request.
    pub fn new(host: IpAddr, ident_hint: PingIdentifier, identifier_passthrough: bool) -> (r:
        Pinger)
        ensures
            r.host == host,
            identifier_passthrough ==> r.ident == Some(ident_hint),
            !identifier_passthrough ==> r.ident is None,
            r.last_sequence.0 == 0,
    {
        let ident = if identifier_passthrough {
            Some(ident_hint)
        } else {
            None
        };
        Pinger { host, ident, last_sequence: PingSequence(0) }
    }

    /// Registers the waiter for `seq` and encodes the request packet, in
    /// that order. Sequence 0 is rejected; a key already outstanding is a
    /// duplicate request; an oversized payload rolls the fresh entry back.
    /// On success the caller transmits the bytes and then commits or rolls
    /// back.
    pub fn prepare_send(&self, map: &mut ReplyMap, seq: PingSequence, payload: &Vec<u8>) -> (r:
        Result<(Vec<u8>, tokio::sync::oneshot::Receiver<Reply>), SurgeError>)
        requires
            old(map).wf(),
        ensures
            final(map).wf(),
            !seq.is_valid() ==> (r matches Err(e) && e == SurgeError::UnsupportedSeqNum
                && final(map).keys() == old(map).keys()),
            seq.is_valid() && old(map).contains_key(self.key_for(seq)) ==> (r matches Err(e)
                && e == (SurgeError::IdenticalRequests {
                host: self.host,
                ident: self.ident,
                seq,
            }) && final(map).keys() == old(map).keys()),
            seq.is_valid() && !old(map).contains_key(self.key_for(seq)) && payload@.len() + 8
                > MAX_PACKET_BYTES ==> (r matches Err(e) && e == SurgeError::IncorrectBufferSize
                && final(map).keys() == old(map).keys()),
            seq.is_valid() && !old(map).contains_key(self.key_for(seq)) && payload@.len() + 8
                <= MAX_PACKET_BYTES ==> (r is Ok && final(map).keys() == old(map).keys().push(
                self.key_for(seq),
            )),
            r matches Ok(v) ==> is_echo_message(
                v.0@,
                self.echo_request_type(),
                self.wire_identifier(),
                seq.0,
                payload@,
            ),
            r matches Ok(v) ==> (self.host is V4 ==> checksum_valid(v.0@)),
    {
        if seq.0 == 0 {
            return Err(SurgeError::UnsupportedSeqNum);
        }
        let rx = match map.new_waiter(self.host, self.ident, seq) {
            Ok(rx) => rx,
            Err(e) => {
                return Err(e);
            },
        };
        let ident_val: u16 = match self.ident {
            Some(i) => i.0,
            None => 0,
        };
        let is_v4 = match self.host {
            IpAddr::V4(..) => true,
            IpAddr::V6(_) => false,
        };
        let encoded = if is_v4 {
            make_icmpv4_echo_packet(ident_val, seq.0, payload)
        } else {
            make_icmpv6_echo_packet(ident_val, seq.0, payload)
        };
        match encoded {
            Ok(bytes) => Ok((bytes, rx)),
            Err(e) => {
                let ghost pushed = map.keys();
                let ghost key = self.key_for(seq);
                proof {
                    assert(pushed == old(map).keys().push(key));
                    assert(pushed[pushed.len() - 1] == key);
                    assert(pushed.contains(key));
                }
                let found = map.remove(self.host, self.ident, seq);
                proof {
                    assert(found);
                    let i = choose|i: int|
                        0 <= i < pushed.len() && pushed[i] == key && map.keys() == pushed.remove(
                            i,
                        );
                    if i < pushed.len() - 1 {
                        assert(old(map).keys()[i] == key);
                        assert(old(map).keys().contains(key));
                        assert(false);
                    }
                    assert(pushed.remove(pushed.len() - 1) =~= old(map).keys());
                    assert(map.keys() =~= old(map).keys());
                }
                Err(e)
            },
        }
    }

    /// Rollback after a failed transmission: removes the entry registered
    /// for `seq`, so the failed send leaves nothing dangling.
    pub fn rollback_send(&self, map: &mut ReplyMap, seq: PingSequence)
        requires
            old(map).wf(),
        ensures
            final(map).wf(),
            !final(map).contains_key(self.key_for(seq)),
            forall|k2: CorrelationKey|
                k2 != self.key_for(seq) ==> final(map).contains_key(k2) == old(map).contains_key(
                    k2,
                ),
    {
        let _ = map.remove(self.host, self.ident, seq);
    }

    /// After a successful transmission: records `seq` as the last-sent
    /// sequence, the one teardown will clean up.
    pub fn commit_send(&mut self, seq: PingSequence)
        ensures
            final(self).host == old(self).host,
            final(self).ident == old(self).ident,
            final(self).last_sequence == seq,
    {
        self.last_sequence = seq;
    }

    /// Teardown on drop: removes the entry of the last-sent sequence, if
    /// any could be outstanding, so no receiver is left hanging; its
    /// channel closes and the awaiting call resolves to a network error.
    pub fn teardown(&self, map: &mut ReplyMap)
        requires
            old(map).wf(),
        ensures
            final(map).wf(),
            self.last_sequence.0 != 0 ==> !final(map).contains_key(
                self.key_for(self.last_sequence),
            ),
            self.last_sequence.0 != 0 ==> (forall|k2: CorrelationKey|
                k2 != self.key_for(self.last_sequence) ==> final(map).contains_key(k2) == old(
                    map,
                ).contains_key(k2)),
            self.last_sequence.0 == 0 ==> final(map).keys() == old(map).keys(),
    {
        if self.last_sequence.0 != 0 {
            let _ = map.remove(self.host, self.ident, self.last_sequence);
        }
    }
}

/// Resolves an awaited reply: a channel that closed without a value is a
/// network error; a fulfilled one yields the packet and the round-trip
/// time, the arrival timestamp minus the send timestamp floored at zero.
pub fn finish_recv(outcome: Option<Reply>, send_time_nanos: u64) -> (r: Result<
    (IcmpPacket, u64),
    SurgeError,
>)
    ensures
        outcome is None ==> (r matches Err(e) && e == SurgeError::NetworkError),
        outcome matches Some(rep) ==> (r matches Ok(v) && v.0 == rep.packet && v.1
            == round_trip_nanos(rep.timestamp_nanos, send_time_nanos)),
{
    match outcome {
        None => Err(SurgeError::NetworkError),
        Some(rep) => {
            let duration = if rep.timestamp_nanos >= send_time_nanos {
                rep.timestamp_nanos - send_time_nanos
            } else {
                0
            };
            Ok((rep.packet, duration))
        },
    }
}

} // verus!
