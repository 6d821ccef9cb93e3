//! The reply router: a registry mapping a correlation key to the one-shot
//! channel that will carry its reply, plus the dispatch step the intake
//! loop runs on every inbound datagram.
//!
//! The registry guarantees at most one outstanding entry per key (a second
//! registration is rejected as a duplicate), removal is idempotent, and a
//! dispatched reply consumes its entry, so each entry is fulfilled at most
//! once. The surrounding runtime shares one registry between all sessions
//! and a single intake task; it serializes access to the registry and is
//! the only place that awaits.

use vstd::prelude::*;
use crate::addr::{key_eq, CorrelationKey, IpAddr, PingIdentifier, PingSequence};
use crate::error::SurgeError;
use crate::icmp::{decode_icmpv4, decode_icmpv6, echo_identifier, echo_sequence, v4_icmp_part,
    v4_source, v4_structure_ok, IcmpPacket, ECHO_REPLY_V4, ECHO_REPLY_V6};

verus! {

/// A decoded packet together with its arrival timestamp, in nanoseconds on
/// the caller's monotonic clock.
#[derive(Debug)]
pub struct Reply {
    pub packet: IcmpPacket,
    pub timestamp_nanos: u64,
}

/// tokio's one-shot sender, declared opaque: the registry holds one per
/// outstanding entry and consumes it on dispatch.
#[verifier::external_type_specification]
#[verifier::external_body]
#[verifier::reject_recursive_types(T)]
pub struct ExSender<T>(tokio::sync::oneshot::Sender<T>);

/// tokio's one-shot receiver, declared opaque: handed to the registering
/// session, awaited outside the library.
#[verifier::external_type_specification]
#[verifier::external_body]
#[verifier::reject_recursive_types(T)]
pub struct ExReceiver<T>(tokio::sync::oneshot::Receiver<T>);

/// tokio's closed-channel error, declared opaque because the receiver's
/// trait impls mention it.
#[verifier::external_type_specification]
#[verifier::external_body]
pub struct ExRecvError(tokio::sync::oneshot::error::RecvError);

/// Relies on tokio::sync::oneshot::channel: returns a linked
/// sender/receiver pair carrying one value.
#[verifier::external_body]
fn reply_channel() -> (tokio::sync::oneshot::Sender<Reply>, tokio::sync::oneshot::Receiver<
    Reply,
>) {
    tokio::sync::oneshot::channel()
}

/// Relies on tokio::sync::oneshot::Sender::send: delivers the value to the
/// linked receiver, or hands the very value back when the receiver is
/// already gone.
#[verifier::external_body]
fn deliver_reply(tx: tokio::sync::oneshot::Sender<Reply>, reply: Reply) -> (r: Result<(), Reply>)
    ensures
        r matches Err(v) ==> v == reply,
{
    tx.send(reply)
}

/// One outstanding request: its key and the sender half of its channel.
struct PendingEntry {
    key: CorrelationKey,
    tx: tokio::sync::oneshot::Sender<Reply>,
}

/// No two entries of the registry share a key.
pub open spec fn distinct_keys(s: Seq<CorrelationKey>) -> bool {
    forall|i: int, j: int| 0 <= i < j < s.len() ==> s[i] != s[j]
}

/// The key a reply correlates under, derived from its source address,
/// identifier and sequence: the identifier-bearing key when such an entry
/// is outstanding, else the identifier-less key a session on an
/// identifier-rewriting socket registered, else nothing.
pub open spec fn dispatch_key_from(
    keys: Seq<CorrelationKey>,
    host: IpAddr,
    ident: u16,
    seq: u16,
) -> Option<CorrelationKey> {
    let with_ident = CorrelationKey {
        host,
        ident: Some(PingIdentifier(ident)),
        seq: PingSequence(seq),
    };
    let no_ident = CorrelationKey { host, ident: None, seq: PingSequence(seq) };
    if keys.contains(with_ident) {
        Some(with_ident)
    } else if keys.contains(no_ident) {
        Some(no_ident)
    } else {
        None
    }
}

/// Removing the entry at the position of `k` from a registry of distinct
/// keys removes exactly `k`: every other key stays, and `k` is gone.
pub proof fn lemma_remove_at(pre: Seq<CorrelationKey>, i: int, k: CorrelationKey)
    requires
        distinct_keys(pre),
        0 <= i < pre.len(),
        pre[i] == k,
    ensures
        distinct_keys(pre.remove(i)),
        !pre.remove(i).contains(k),
        forall|k2: CorrelationKey| k2 != k ==> pre.remove(i).contains(k2) == pre.contains(k2),
        pre.remove(i).len() + 1 == pre.len(),
{
    let post = pre.remove(i);
    pre.remove_ensures(i);
    assert forall|j: int| 0 <= j < post.len() implies post[j] != k by {
        if j < i {
            assert(post[j] == pre[j]);
        } else {
            assert(post[j] == pre[j + 1]);
        }
    }
    assert forall|k2: CorrelationKey| k2 != k implies post.contains(k2) == pre.contains(k2) by {
        if post.contains(k2) {
            let j = choose|j: int| 0 <= j < post.len() && post[j] == k2;
            if j < i {
                assert(pre[j] == k2);
            } else {
                assert(pre[j + 1] == k2);
            }
            assert(pre.contains(k2));
        }
        if pre.contains(k2) {
            let m = choose|m: int| 0 <= m < pre.len() && pre[m] == k2;
            if m < i {
                assert(post[m] == k2);
            } else {
                assert(m != i);
                assert(post[m - 1] == k2);
            }
            assert(post.contains(k2));
        }
    }
}

/// Law: once a key is registered, registering it again finds it
/// outstanding, which the registry rejects as a duplicate request.
pub proof fn lemma_duplicate_registration(pre: Seq<CorrelationKey>, k: CorrelationKey)
    ensures
        pre.push(k).contains(k),
{
    assert(pre.push(k)[pre.len() as int] == k);
}

/// Law: a dispatched reply removes exactly the key it matched; a duplicate
/// of the same reply never matches that key again, and when no
/// identifier-less entry is outstanding either, the duplicate matches
/// nothing at all and is dropped.
pub proof fn lemma_dispatch_exactly_once(
    pre: Seq<CorrelationKey>,
    post: Seq<CorrelationKey>,
    host: IpAddr,
    ident: u16,
    seq: u16,
)
    requires
        distinct_keys(pre),
        dispatch_key_from(pre, host, ident, seq) is Some,
        !post.contains(dispatch_key_from(pre, host, ident, seq)->Some_0),
        forall|k2: CorrelationKey|
            k2 != dispatch_key_from(pre, host, ident, seq)->Some_0 ==> post.contains(k2)
                == pre.contains(k2),
    ensures
        dispatch_key_from(post, host, ident, seq) != dispatch_key_from(pre, host, ident, seq),
        (dispatch_key_from(pre, host, ident, seq) == Some(
            CorrelationKey { host, ident: Some(PingIdentifier(ident)), seq: PingSequence(seq) },
        ) && !pre.contains(CorrelationKey { host, ident: None, seq: PingSequence(seq) }))
            ==> dispatch_key_from(post, host, ident, seq) is None,
        dispatch_key_from(pre, host, ident, seq) == Some(
            CorrelationKey { host, ident: None, seq: PingSequence(seq) },
        ) ==> dispatch_key_from(post, host, ident, seq) is None,
{
}

/// Shared registry of outstanding Echo Requests: maps a correlation key to
/// the pending delivery channel registered for it.
pub struct ReplyMap {
    entries: Vec<PendingEntry>,
}

impl ReplyMap {
    /// The keys of the outstanding entries, in registration order.
    pub closed spec fn keys(self) -> Seq<CorrelationKey> {
        self.entries@.map_values(|e: PendingEntry| e.key)
    }

    /// Whether a request with key `k` is outstanding.
    pub open spec fn contains_key(self, k: CorrelationKey) -> bool {
        self.keys().contains(k)
    }

    /// At most one outstanding entry per key, at any instant.
    pub open spec fn wf(self) -> bool {
        distinct_keys(self.keys())
    }

    /// An empty registry.
    pub fn new() -> (r: ReplyMap)
        ensures
            r.wf(),
            r.keys().len() == 0,
    {
        ReplyMap { entries: Vec::new() }
    }

    /// Index of the entry holding `key`, if one is outstanding.
    fn find_index(&self, key: &CorrelationKey) -> (r: Option<usize>)
        ensures
            r matches Some(i) ==> i < self.keys().len() && self.keys()[i as int] == *key,
            r is None ==> !self.contains_key(*key),
    {
        let n = self.entries.len();
        let mut i: usize = 0;
        while i < n
            invariant
                n == self.entries@.len(),
                i <= n,
                forall|j: int| 0 <= j < i ==> self.keys()[j] != *key,
            decreases n - i,
        {
            if key_eq(&self.entries[i].key, key) {
                proof {
                    assert(self.keys()[i as int] == self.entries@[i as int].key);
                }
                return Some(i);
            }
            proof {
                assert(self.keys()[i as int] == self.entries@[i as int].key);
            }
            i = i + 1;
        }
        None
    }

    /// Registers `key` and returns the receiver half of a fresh one-shot
    /// channel; fails as a duplicate request, naming the key's fields,
    /// when an entry with this key is already outstanding.
    pub fn new_waiter(
        &mut self,
        host: IpAddr,
        ident: Option<PingIdentifier>,
        seq: PingSequence,
    ) -> (r: Result<tokio::sync::oneshot::Receiver<Reply>, SurgeError>)
        requires
            old(self).wf(),
        ensures
            final(self).wf(),
            old(self).contains_key(CorrelationKey { host, ident, seq }) ==> (r matches Err(e)
                && e == (SurgeError::IdenticalRequests { host, ident, seq })
                && final(self).keys() == old(self).keys()),
            !old(self).contains_key(CorrelationKey { host, ident, seq }) ==> (r is Ok
                && final(self).keys() == old(self).keys().push(
                CorrelationKey { host, ident, seq },
            )),
    {
        let key = CorrelationKey { host, ident, seq };
        match self.find_index(&key) {
            Some(_) => Err(SurgeError::IdenticalRequests { host, ident, seq }),
            None => {
                let (tx, rx) = reply_channel();
                let ghost pre = self.keys();
                self.entries.push(PendingEntry { key, tx });
                proof {
                    assert(self.keys() =~= pre.push(key));
                    assert forall|a: int, b: int|
                        0 <= a < b < self.keys().len() implies self.keys()[a]
                        != self.keys()[b] by {
                        if b + 1 == self.keys().len() {
                            assert(self.keys()[a] == pre[a]);
                            assert(!pre.contains(key));
                        }
                    }
                }
                Ok(rx)
            },
        }
    }

    /// Removes the entry for the key, if one is outstanding; a no-op
    /// otherwise. Dropping the removed entry closes its channel, so an
    /// awaiting receiver resolves to a closed channel rather than hanging.
    pub fn remove(
        &mut self,
        host: IpAddr,
        ident: Option<PingIdentifier>,
        seq: PingSequence,
    ) -> (found: bool)
        requires
            old(self).wf(),
        ensures
            final(self).wf(),
            found == old(self).contains_key(CorrelationKey { host, ident, seq }),
            !final(self).contains_key(CorrelationKey { host, ident, seq }),
            forall|k2: CorrelationKey|
                k2 != (CorrelationKey { host, ident, seq }) ==> final(self).contains_key(k2)
                    == old(self).contains_key(k2),
            found ==> final(self).keys().len() + 1 == old(self).keys().len(),
            found ==> (exists|i: int|
                0 <= i < old(self).keys().len() && old(self).keys()[i] == (CorrelationKey {
                    host,
                    ident,
                    seq,
                }) && final(self).keys() == old(self).keys().remove(i)),
            !found ==> final(self).keys() == old(self).keys(),
    {
        let key = CorrelationKey { host, ident, seq };
        match self.find_index(&key) {
            Some(i) => {
                let ghost pre = self.keys();
                let _ = self.entries.remove(i);
                proof {
                    assert(self.keys() =~= pre.remove(i as int)) by {
                        pre.remove_ensures(i as int);
                        assert(self.entries@ == old(self).entries@.remove(i as int));
                        old(self).entries@.remove_ensures(i as int);
                        assert forall|j: int| 0 <= j < self.keys().len() implies self.keys()[j]
                            == pre.remove(i as int)[j] by {
                            assert(self.keys()[j] == self.entries@[j].key);
                        }
                    }
                    lemma_remove_at(pre, i as int, key);
                }
                true
            },
            None => false,
        }
    }

    /// The intake step for one decoded packet: if it is an Echo Reply and
    /// a key derived from its source, identifier and sequence is
    /// outstanding, the entry is removed and the reply is delivered
    /// through its channel, consuming both in one step; otherwise the
    /// packet is silently dropped.
    pub fn dispatch(&mut self, packet: IcmpPacket, timestamp_nanos: u64) -> (delivered: bool)
        requires
            old(self).wf(),
        ensures
            final(self).wf(),
            !packet.is_echo_reply() ==> !delivered && final(self).keys() == old(self).keys(),
            packet.is_echo_reply() ==> delivered == (dispatch_key_from(
                old(self).keys(),
                packet.source(),
                packet.identifier(),
                packet.sequence(),
            ) is Some),
            packet.is_echo_reply() && dispatch_key_from(
                old(self).keys(),
                packet.source(),
                packet.identifier(),
                packet.sequence(),
            ) is None ==> final(self).keys() == old(self).keys(),
            packet.is_echo_reply() ==> (dispatch_key_from(
                old(self).keys(),
                packet.source(),
                packet.identifier(),
                packet.sequence(),
            ) matches Some(k) ==> (!final(self).contains_key(k) && final(self).keys().len() + 1
                == old(self).keys().len() && (forall|k2: CorrelationKey|
                k2 != k ==> final(self).contains_key(k2) == old(self).contains_key(k2)))),
    {
        if !packet.is_reply() {
            return false;
        }
        let host = packet.get_source();
        let ident = packet.get_identifier();
        let seq = packet.get_sequence();
        let with_ident = CorrelationKey {
            host,
            ident: Some(PingIdentifier(ident)),
            seq: PingSequence(seq),
        };
        let found = match self.find_index(&with_ident) {
            Some(i) => Some(i),
            None => {
                let no_ident = CorrelationKey { host, ident: None, seq: PingSequence(seq) };
                self.find_index(&no_ident)
            },
        };
        match found {
            Some(i) => {
                let ghost pre = self.keys();
                let ghost k = pre[i as int];
                let entry = self.entries.remove(i);
                proof {
                    assert(self.keys() =~= pre.remove(i as int)) by {
                        pre.remove_ensures(i as int);
                        old(self).entries@.remove_ensures(i as int);
                        assert forall|j: int| 0 <= j < self.keys().len() implies self.keys()[j]
                            == pre.remove(i as int)[j] by {
                            assert(self.keys()[j] == self.entries@[j].key);
                        }
                    }
                    lemma_remove_at(pre, i as int, k);
                }
                let _ = deliver_reply(entry.tx, Reply { packet, timestamp_nanos });
                true
            },
            None => false,
        }
    }
}

/// Outcome of feeding one inbound datagram to the router.
#[derive(Debug, Clone, Copy, PartialEq, Eq, Structural)]
pub enum IntakeOutcome {
    /// The buffer failed structural decoding and was discarded.
    Malformed,
    /// The message decoded but is no Echo Reply, or no waiter matched it;
    /// it is silently dropped.
    Dropped,
    /// Exactly one waiter was fulfilled.
    Delivered,
}

/// The datagram decodes under the family of `source`: an IPv4 source
/// means the buffer is a full IP datagram, an IPv6 source a bare ICMPv6
/// message.
pub open spec fn datagram_decodes(buf: Seq<u8>, source: IpAddr) -> bool {
    if source is V4 {
        v4_structure_ok(buf)
    } else {
        buf.len() >= 8
    }
}

/// The ICMP message carried by the datagram.
pub open spec fn datagram_icmp(buf: Seq<u8>, source: IpAddr) -> Seq<u8> {
    if source is V4 {
        v4_icmp_part(buf)
    } else {
        buf
    }
}

/// The reply's source: the IP header's source field for IPv4, the socket
/// address for IPv6.
pub open spec fn datagram_source(buf: Seq<u8>, source: IpAddr) -> IpAddr {
    if source is V4 {
        v4_source(buf)
    } else {
        source
    }
}

/// Whether the carried message is an Echo Reply of its family.
pub open spec fn datagram_is_reply(buf: Seq<u8>, source: IpAddr) -> bool {
    if source is V4 {
        datagram_icmp(buf, source)[0] == ECHO_REPLY_V4
    } else {
        datagram_icmp(buf, source)[0] == ECHO_REPLY_V6
    }
}

/// The key the datagram's reply correlates under, if any entry matches.
pub open spec fn datagram_key(
    keys: Seq<CorrelationKey>,
    buf: Seq<u8>,
    source: IpAddr,
) -> Option<CorrelationKey> {
    dispatch_key_from(
        keys,
        datagram_source(buf, source),
        echo_identifier(datagram_icmp(buf, source)) as u16,
        echo_sequence(datagram_icmp(buf, source)) as u16,
    )
}

/// One step of the intake loop: decode the inbound bytes by the family of
/// their source and hand any Echo Reply to the router. A datagram that
/// fails to decode has no owning caller; it is discarded and the loop
/// stays live for every other session.
pub fn handle_datagram(
    map: &mut ReplyMap,
    buf: &Vec<u8>,
    source: IpAddr,
    timestamp_nanos: u64,
) -> (r: IntakeOutcome)
    requires
        old(map).wf(),
    ensures
        final(map).wf(),
        !datagram_decodes(buf@, source) ==> r == IntakeOutcome::Malformed && final(map).keys()
            == old(map).keys(),
        datagram_decodes(buf@, source) && !datagram_is_reply(buf@, source) ==> r
            == IntakeOutcome::Dropped && final(map).keys() == old(map).keys(),
        datagram_decodes(buf@, source) && datagram_is_reply(buf@, source) && datagram_key(
            old(map).keys(),
            buf@,
            source,
        ) is None ==> r == IntakeOutcome::Dropped && final(map).keys() == old(map).keys(),
        datagram_decodes(buf@, source) && datagram_is_reply(buf@, source) ==> (datagram_key(
            old(map).keys(),
            buf@,
            source,
        ) matches Some(k) ==> (r == IntakeOutcome::Delivered && !final(map).contains_key(k)
            && final(map).keys().len() + 1 == old(map).keys().len() && (forall|
            k2: CorrelationKey,
        |
            k2 != k ==> final(map).contains_key(k2) == old(map).contains_key(k2)))),
{
    let is_v4 = match source {
        IpAddr::V4(..) => true,
        IpAddr::V6(_) => false,
    };
    let packet: IcmpPacket = if is_v4 {
        match decode_icmpv4(buf) {
            Ok(p) => IcmpPacket::V4(p),
            Err(_) => {
                return IntakeOutcome::Malformed;
            },
        }
    } else {
        match decode_icmpv6(buf, &source) {
            Ok(p) => IcmpPacket::V6(p),
            Err(_) => {
                return IntakeOutcome::Malformed;
            },
        }
    };
    if !packet.is_reply() {
        return IntakeOutcome::Dropped;
    }
    let delivered = map.dispatch(packet, timestamp_nanos);
    if delivered {
        IntakeOutcome::Delivered
    } else {
        IntakeOutcome::Dropped
    }
}

} // verus!
