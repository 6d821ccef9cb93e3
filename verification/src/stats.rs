//! Accumulator for one ping run: how many requests went out, how many
//! replies came back, and every observed round-trip time in nanoseconds.
//!
//! The display layer turns the exact integer aggregates below into
//! floating-point milliseconds; that conversion and the standard
//! deviation stay outside the library.

use vstd::prelude::*;

verus! {

/// Sum of a sequence of durations.
pub open spec fn sum_nanos(s: Seq<u64>) -> int
    decreases s.len(),
{
    if s.len() == 0 {
        0
    } else {
        sum_nanos(s.drop_last()) + s.last()
    }
}

/// Statistics of one ping run against one host.
pub struct Answer {
    /// The host as the caller named it.
    pub host: String,
    /// Number of requests transmitted.
    pub transmitted: usize,
    /// Number of replies received.
    pub received: usize,
    /// Every received round-trip time, in nanoseconds, in arrival order.
    pub durations: Vec<u64>,
}

impl Answer {
    /// A fresh record for a run of `transmitted` requests, no replies yet.
    pub fn new(host: String, transmitted: usize) -> (r: Answer)
        ensures
            r.host@ == host@,
            r.transmitted == transmitted,
            r.received == 0,
            r.durations@.len() == 0,
    {
        Answer { host, transmitted, received: 0, durations: Vec::new() }
    }

    /// Counts one awaited result: a duration records a received reply, a
    /// loss leaves the record unchanged.
    pub fn update(&mut self, dur: Option<u64>)
        requires
            old(self).received < usize::MAX,
        ensures
            final(self).host@ == old(self).host@,
            final(self).transmitted == old(self).transmitted,
            dur matches Some(d) ==> final(self).received == old(self).received + 1
                && final(self).durations@ == old(self).durations@.push(d),
            dur is None ==> final(self).received == old(self).received && final(self).durations@
                == old(self).durations@,
    {
        if let Some(d) = dur {
            self.received = self.received + 1;
            self.durations.push(d);
        }
    }

    /// The smallest recorded round-trip time, if any reply was received.
    pub fn min_duration(&self) -> (r: Option<u64>)
        ensures
            r is None <==> self.durations@.len() == 0,
            r matches Some(m) ==> self.durations@.contains(m),
            r matches Some(m) ==> (forall|i: int|
                0 <= i < self.durations@.len() ==> m <= self.durations@[i]),
    {
        let n = self.durations.len();
        if n == 0 {
            return None;
        }
        let mut best = self.durations[0];
        let mut i: usize = 1;
        while i < n
            invariant
                n == self.durations@.len(),
                1 <= i <= n,
                self.durations@.contains(best),
                forall|j: int| 0 <= j < i ==> best <= self.durations@[j],
            decreases n - i,
        {
            if self.durations[i] < best {
                best = self.durations[i];
            }
            i = i + 1;
        }
        Some(best)
    }

    /// The largest recorded round-trip time, if any reply was received.
    pub fn max_duration(&self) -> (r: Option<u64>)
        ensures
            r is None <==> self.durations@.len() == 0,
            r matches Some(m) ==> self.durations@.contains(m),
            r matches Some(m) ==> (forall|i: int|
                0 <= i < self.durations@.len() ==> m >= self.durations@[i]),
    {
        let n = self.durations.len();
        if n == 0 {
            return None;
        }
        let mut best = self.durations[0];
        let mut i: usize = 1;
        while i < n
            invariant
                n == self.durations@.len(),
                1 <= i <= n,
                self.durations@.contains(best),
                forall|j: int| 0 <= j < i ==> best >= self.durations@[j],
            decreases n - i,
        {
            if self.durations[i] > best {
                best = self.durations[i];
            }
            i = i + 1;
        }
        Some(best)
    }

    /// The exact sum of all recorded round-trip times; the average is this
    /// over `received`, a division the display layer performs.
    pub fn sum_durations(&self) -> (r: u128)
        requires
            self.durations@.len() < 0xffff_ffff_ffff_ffff,
        ensures
            r == sum_nanos(self.durations@),
    {
        let n = self.durations.len();
        let mut total: u128 = 0;
        let mut i: usize = 0;
        while i < n
            invariant
                n == self.durations@.len(),
                n < 0xffff_ffff_ffff_ffff,
                i <= n,
                total == sum_nanos(self.durations@.subrange(0, i as int)),
                total <= (i as int) * 0xffff_ffff_ffff_ffff,
            decreases n - i,
        {
            proof {
                let pre = self.durations@.subrange(0, i as int);
                let post = self.durations@.subrange(0, i as int + 1);
                assert(post.drop_last() =~= pre);
                assert(post.last() == self.durations@[i as int]);
                assert((i as int) * 0xffff_ffff_ffff_ffff + 0xffff_ffff_ffff_ffff == (i as int + 1)
                    * 0xffff_ffff_ffff_ffff) by (nonlinear_arith);
                assert((i as int + 1) * 0xffff_ffff_ffff_ffff < 0xffff_ffff_ffff_ffff_ffff_ffff_ffff_ffff)
                    by (nonlinear_arith)
                    requires
                        i as int + 1 <= 0xffff_ffff_ffff_ffff,
                ;
            }
            total = total + (self.durations[i] as u128);
            i = i + 1;
        }
        proof {
            assert(self.durations@.subrange(0, n as int) =~= self.durations@);
        }
        total
    }
}

} // verus!
