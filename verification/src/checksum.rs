//! The standard one's-complement 16-bit Internet checksum used by ICMPv4.
//!
//! The message is read as big-endian 16-bit words (a trailing odd byte is
//! padded with a zero low byte), the words are summed, the sum is folded
//! back into 16 bits by end-around carry, and the result is complemented.

use vstd::prelude::*;
use vstd::arithmetic::div_mod::{lemma_fundamental_div_mod, lemma_mod_bound};

verus! {

/// Big-endian 16-bit word starting at byte `2 * i`; a trailing odd byte is
/// padded with a zero low byte.
pub open spec fn word_at(data: Seq<u8>, i: int) -> int {
    if 2 * i + 1 < data.len() {
        data[2 * i] * 0x100 + data[2 * i + 1]
    } else {
        data[2 * i] * 0x100
    }
}

/// Sum of the first `n` big-endian words of `data`.
pub open spec fn sum_words(data: Seq<u8>, n: int) -> int
    decreases n,
{
    if n <= 0 {
        0
    } else {
        sum_words(data, n - 1) + word_at(data, n - 1)
    }
}

/// Number of 16-bit words covering `len` bytes.
pub open spec fn num_words(len: int) -> int {
    (len + 1) / 2
}

/// End-around-carry fold of a non-negative word sum into 16 bits.
pub open spec fn ones_complement_fold(s: int) -> int
    decreases s via ones_complement_fold_decreases
{
    if s > 0xffff {
        ones_complement_fold(s % 0x10000 + s / 0x10000)
    } else {
        s
    }
}

#[via_fn]
proof fn ones_complement_fold_decreases(s: int) {
    if s > 0xffff {
        let q = s / 0x10000;
        let r = s % 0x10000;
        lemma_fundamental_div_mod(s, 0x10000);
        lemma_mod_bound(s, 0x10000);
        assert(q >= 1 && r + q < s) by (nonlinear_arith)
            requires
                s > 0xffff,
                s == 0x10000 * q + r,
                0 <= r < 0x10000,
        ;
    }
}

/// The Internet checksum of `data`: the one's complement of the folded
/// word sum.
pub open spec fn checksum_spec(data: Seq<u8>) -> int {
    0xffff - ones_complement_fold(sum_words(data, num_words(data.len() as int)))
}

/// Computes the Internet checksum of `data`.
pub fn internet_checksum(data: &Vec<u8>) -> (r: u16)
    requires
        data@.len() <= 0x10000,
    ensures
        r as int == checksum_spec(data@),
{
    let n = data.len();
    let mut sum: u64 = 0;
    let mut i: usize = 0;
    while i + 2 <= n
        invariant
            n == data@.len(),
            n <= 0x10000,
            i <= n,
            i % 2 == 0,
            sum as int == sum_words(data@, i as int / 2),
            sum as int <= 0xffff * (i as int),
        decreases n - i,
    {
        let hi = data[i] as u64;
        let lo = data[i + 1] as u64;
        proof {
            assert(word_at(data@, i as int / 2) == data@[i as int] * 0x100 + data@[i as int + 1]);
            assert(sum_words(data@, i as int / 2 + 1)
                == sum_words(data@, i as int / 2) + word_at(data@, i as int / 2));
        }
        sum = sum + hi * 0x100 + lo;
        i = i + 2;
    }
    if i < n {
        let hi = data[i] as u64;
        proof {
            assert(i as int == n - 1);
            assert(word_at(data@, i as int / 2) == data@[i as int] * 0x100);
            assert(sum_words(data@, i as int / 2 + 1)
                == sum_words(data@, i as int / 2) + word_at(data@, i as int / 2));
            assert(i as int / 2 + 1 == num_words(n as int));
        }
        sum = sum + hi * 0x100;
    } else {
        proof {
            assert(i as int / 2 == num_words(n as int));
        }
    }
    let ghost total: int = sum as int;
    proof {
        assert(total == sum_words(data@, num_words(data@.len() as int)));
    }
    while sum > 0xffff
        invariant
            ones_complement_fold(sum as int) == ones_complement_fold(total),
        decreases sum,
    {
        proof {
            let s = sum as int;
            let q = s / 0x10000;
            let r = s % 0x10000;
            lemma_fundamental_div_mod(s, 0x10000);
            lemma_mod_bound(s, 0x10000);
            assert(q >= 1 && r + q < s) by (nonlinear_arith)
                requires
                    s > 0xffff,
                    s == 0x10000 * q + r,
                    0 <= r < 0x10000,
            ;
        }
        sum = sum % 0x10000 + sum / 0x10000;
    }
    proof {
        assert(ones_complement_fold(sum as int) == sum as int);
    }
    0xffff - (sum as u16)
}

/// The 16-bit checksum field as stored in bytes 2 and 3 of an ICMP header.
pub open spec fn stored_checksum(msg: Seq<u8>) -> int {
    msg[2] * 0x100 + msg[3]
}

/// The message with its checksum field (bytes 2 and 3) zeroed, the form
/// over which the checksum is computed.
pub open spec fn with_zero_checksum(msg: Seq<u8>) -> Seq<u8> {
    msg.update(2, 0u8).update(3, 0u8)
}

/// An ICMP message's checksum field validates when recomputing the
/// checksum over the message with a zeroed field reproduces the field.
pub open spec fn checksum_valid(msg: Seq<u8>) -> bool {
    checksum_spec(with_zero_checksum(msg)) == stored_checksum(msg)
}

/// Recomputes the checksum of `msg` with its checksum field zeroed and
/// compares it against the stored field.
pub fn verify_checksum(msg: &Vec<u8>) -> (r: bool)
    requires
        4 <= msg@.len() <= 0x10000,
    ensures
        r == checksum_valid(msg@),
{
    let n = msg.len();
    let mut zeroed: Vec<u8> = Vec::new();
    let mut j: usize = 0;
    while j < n
        invariant
            n == msg@.len(),
            j <= n,
            zeroed@.len() == j,
            forall|k: int|
                0 <= k < j ==> zeroed@[k] == (if k == 2 || k == 3 {
                    0u8
                } else {
                    msg@[k]
                }),
        decreases n - j,
    {
        if j == 2 || j == 3 {
            zeroed.push(0);
        } else {
            zeroed.push(msg[j]);
        }
        j = j + 1;
    }
    proof {
        assert(zeroed@ =~= with_zero_checksum(msg@));
    }
    let computed = internet_checksum(&zeroed);
    let stored: u16 = (msg[2] as u16) * 0x100 + (msg[3] as u16);
    computed == stored
}

} // verus!
