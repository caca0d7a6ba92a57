//! Internet checksum engine (RFC 1071): the one's-complement checksum used
//! for both the IPv4 header checksum and the ICMP message checksum.

use vstd::arithmetic::div_mod::{
    lemma_fundamental_div_mod, lemma_mod_add_multiples_vanish, lemma_mod_multiples_basic,
    lemma_small_mod,
};
use vstd::prelude::*;

verus! {

/// Sum of the 16-bit big-endian words of `s`, starting at index `i`.
/// An odd trailing byte counts as the high byte of a final word.
pub open spec fn word_sum_from(s: Seq<u8>, i: int) -> int
    decreases s.len() - i,
{
    if i < 0 || i >= s.len() {
        0
    } else if i + 1 == s.len() {
        256 * (s[i] as int)
    } else {
        256 * (s[i] as int) + (s[i + 1] as int) + word_sum_from(s, i + 2)
    }
}

/// Sum of all 16-bit big-endian words of `s`.
pub open spec fn word_sum(s: Seq<u8>) -> int {
    word_sum_from(s, 0)
}

/// One's-complement folding of a non-negative word sum into 16 bits: the
/// unique value in `[0, 0xffff]` that is congruent to `s` modulo `0xffff`
/// and is zero only when `s` is zero.
pub open spec fn fold_carries(s: int) -> int {
    if s == 0 {
        0
    } else if s % 0xffff == 0 {
        0xffff
    } else {
        s % 0xffff
    }
}

/// The Internet checksum of a byte sequence: the one's complement of the
/// folded word sum. The empty sequence has checksum `0xffff`.
pub open spec fn checksum_spec(s: Seq<u8>) -> u16 {
    (0xffff - fold_carries(word_sum(s))) as u16
}

proof fn lemma_word_sum_from_nonneg(s: Seq<u8>, i: int)
    ensures
        word_sum_from(s, i) >= 0,
    decreases s.len() - i,
{
    if 0 <= i && i + 1 < s.len() {
        lemma_word_sum_from_nonneg(s, i + 2);
    }
}

proof fn lemma_fold_carries_bounds(s: int)
    requires
        s >= 0,
    ensures
        0 <= fold_carries(s) <= 0xffff,
        fold_carries(s) == 0 <==> s == 0,
        fold_carries(s) % 0xffff == s % 0xffff,
{
    if s != 0 && s % 0xffff != 0 {
        lemma_small_mod((s % 0xffff) as nat, 0xffff);
    }
}

/// Congruent non-negative sums, zero together, fold to the same value.
proof fn lemma_fold_carries_congruent(a: int, b: int)
    requires
        a >= 0,
        b >= 0,
        a % 0xffff == b % 0xffff,
        a == 0 <==> b == 0,
    ensures
        fold_carries(a) == fold_carries(b),
{
}

/// Computes the Internet checksum of `bytes`: big-endian 16-bit words are
/// summed with end-around carry and the result is complemented. The caller
/// is responsible for zeroing the checksum field of a header before summing.
pub fn checksum(bytes: &[u8]) -> (r: u16)
    ensures
        r == checksum_spec(bytes@),
{
    let ghost total: int = word_sum(bytes@);
    let len = bytes.len();
    let mut sum: u32 = 0;
    let mut i: usize = 0;
    proof {
        lemma_word_sum_from_nonneg(bytes@, 0);
    }
    while i + 1 < len
        invariant
            len == bytes@.len(),
            i <= len,
            i % 2 == 0,
            sum <= 0xffff,
            total == word_sum(bytes@),
            total >= 0,
            (sum as int + word_sum_from(bytes@, i as int)) % 0xffff == total % 0xffff,
            sum as int + word_sum_from(bytes@, i as int) == 0 <==> total == 0,
        decreases len - i,
    {
        let w: u32 = 256 * (bytes[i] as u32) + (bytes[i + 1] as u32);
        proof {
            lemma_word_sum_from_nonneg(bytes@, i + 2);
            assert(word_sum_from(bytes@, i as int) == w + word_sum_from(bytes@, i + 2));
        }
        sum = sum + w;
        if sum > 0xffff {
            proof {
                lemma_mod_add_multiples_vanish(sum - 0xffff + word_sum_from(bytes@, i + 2), 0xffff);
            }
            sum = sum - 0xffff;
        }
        i = i + 2;
    }
    if i < len {
        // Odd length: the final byte is the high byte of a trailing word.
        let w: u32 = 256 * (bytes[i] as u32);
        proof {
            assert(word_sum_from(bytes@, i as int) == w);
            assert(word_sum_from(bytes@, i + 2) == 0);
        }
        sum = sum + w;
        if sum > 0xffff {
            proof {
                lemma_mod_add_multiples_vanish(sum - 0xffff, 0xffff);
            }
            sum = sum - 0xffff;
        }
        i = len;
    }
    proof {
        assert(word_sum_from(bytes@, i as int) == 0);
        if sum < 0xffff {
            lemma_small_mod(sum as nat, 0xffff);
        }
        lemma_fold_carries_bounds(total);
        assert(fold_carries(total) == sum);
    }
    (0xffff - sum) as u16
}

/// Two sequences equal from index `i` on have the same word sum from `i`.
proof fn lemma_word_sum_from_equal_suffix(s1: Seq<u8>, s2: Seq<u8>, i: int)
    requires
        s1.len() == s2.len(),
        forall|j: int| i <= j < s1.len() ==> s1[j] == s2[j],
    ensures
        word_sum_from(s1, i) == word_sum_from(s2, i),
    decreases s1.len() - i,
{
    if 0 <= i && i + 1 < s1.len() {
        lemma_word_sum_from_equal_suffix(s1, s2, i + 2);
    }
}

/// Changing only the aligned word at even index `k` shifts the word sum by
/// the difference of the old and new word values.
proof fn lemma_word_sum_from_update_word(s1: Seq<u8>, s2: Seq<u8>, k: int, i: int)
    requires
        s1.len() == s2.len(),
        0 <= i <= k,
        i % 2 == 0,
        k % 2 == 0,
        k + 1 < s1.len(),
        forall|j: int| 0 <= j < s1.len() && j != k && j != k + 1 ==> s1[j] == s2[j],
    ensures
        word_sum_from(s2, i) == word_sum_from(s1, i) - 256 * (s1[k] as int) - (s1[k + 1] as int)
            + 256 * (s2[k] as int) + (s2[k + 1] as int),
    decreases k - i,
{
    if i == k {
        lemma_word_sum_from_equal_suffix(s1, s2, i + 2);
    } else {
        lemma_word_sum_from_update_word(s1, s2, k, i + 2);
    }
}

/// Checksum round trip: take a buffer whose checksum field (the aligned
/// 16-bit word at even offset `k`) is zero, compute its checksum, and write
/// that checksum big-endian into the field; the checksum of the completed
/// buffer is then zero.
pub proof fn lemma_checksum_round_trip(s: Seq<u8>, k: int)
    requires
        0 <= k,
        k % 2 == 0,
        k + 1 < s.len(),
        s[k] == 0,
        s[k + 1] == 0,
    ensures
        ({
            let c = checksum_spec(s);
            let s2 = s.update(k, (c / 256) as u8).update(k + 1, (c % 256) as u8);
            checksum_spec(s2) == 0
        }),
{
    let total = word_sum(s);
    lemma_word_sum_from_nonneg(s, 0);
    lemma_fold_carries_bounds(total);
    let c = checksum_spec(s);
    assert(c == 0xffff - fold_carries(total));
    let s2 = s.update(k, (c / 256) as u8).update(k + 1, (c % 256) as u8);
    lemma_word_sum_from_update_word(s, s2, k, 0);
    assert(256 * ((c / 256) as u8) + ((c % 256) as u8) == c) by {
        lemma_fundamental_div_mod(c as int, 256);
        lemma_small_mod((c % 256) as nat, 256);
    };
    let total2 = word_sum(s2);
    assert(total2 == total + c);
    if total == 0 {
        assert(total2 == 0xffff);
        lemma_mod_multiples_basic(1, 0xffff);
        assert(fold_carries(total2) == 0xffff);
    } else if total % 0xffff == 0 {
        assert(c == 0);
        assert(fold_carries(total2) == 0xffff);
    } else {
        let r = total % 0xffff;
        assert(c == 0xffff - r);
        lemma_fundamental_div_mod(total, 0xffff);
        assert(total2 == 0xffff * (total / 0xffff) + 0xffff);
        assert(total2 == 0xffff * (total / 0xffff + 1));
        lemma_mod_multiples_basic(total / 0xffff + 1, 0xffff);
        assert(total2 % 0xffff == 0);
        assert(fold_carries(total2) == 0xffff);
    }
    assert(checksum_spec(s2) == 0);
}

} // verus!
