//! The Internet checksum: the ones'-complement sum of 16-bit words.
//!
//! The model is a plain integer sum of the big-endian words of a byte
//! sequence, folded to 16 bits at the very end. Because the fold is put off,
//! pieces may be summed in any order, and a changed word changes the sum by
//! the difference of the old and the new word.
use crate::window::{
    be16, be32, hi16, hi8, lo16, lo8, replace_u16, replace_u32, u16_at, u32_at,
};
use etherparse::checksum::Sum16BitWords;
use vstd::prelude::*;

verus! {

/// The sum of the 16-bit big-endian words of `bytes`, carries kept. A last
/// byte without a partner is the upper byte of a word whose lower byte is zero.
pub open spec fn word_sum(bytes: Seq<u8>) -> int
    decreases bytes.len(),
{
    if bytes.len() == 0 {
        0
    } else if bytes.len() == 1 {
        be16(bytes[0], 0)
    } else {
        be16(bytes[0], bytes[1]) + word_sum(bytes.subrange(2, bytes.len() as int))
    }
}

/// A sum with its carries folded back in, end around, until 16 bits are left:
/// zero for zero, and else the number from 1 to 0xffff that differs from `sum`
/// by a multiple of 0xffff.
pub open spec fn fold16(sum: int) -> int {
    if sum <= 0 {
        0
    } else {
        (sum - 1) % 0xffff + 1
    }
}

/// The checksum that stands for a sum of words: the complement of the folded sum.
pub open spec fn complement16(sum: int) -> int {
    0xffff - fold16(sum)
}

/// The Internet checksum of a run of bytes.
pub open spec fn internet_checksum(bytes: Seq<u8>) -> int {
    complement16(word_sum(bytes))
}

/// The deferred sum from which a checksum is brought up to date after the
/// 32-bit value `old` under it was replaced by `new`: `seed`, the complemented
/// halves of `old`, and the halves of `new`.
pub open spec fn diff_sum(old: u32, new: u32, seed: u32) -> int {
    seed + (0xffff - hi16(old)) + (0xffff - lo16(old)) + hi16(new) + lo16(new)
}

/// A folded sum fits 16 bits, and is zero for no sum but zero.
pub proof fn lemma_fold16_range(sum: int)
    ensures
        0 <= fold16(sum) <= 0xffff,
        fold16(sum) == 0 <==> sum <= 0,
        0 <= sum <= 0xffff ==> fold16(sum) == sum,
{
}

/// Folding may be put off: folding a partial sum early changes nothing.
pub proof fn lemma_fold16_absorb(a: int, b: int)
    requires
        0 <= a,
        0 <= b,
    ensures
        fold16(fold16(a) + b) == fold16(a + b),
{
    if a > 0 {
        let q = (a - 1) / 0xffff;
        assert(a == q * 0xffff + fold16(a));
        assert(fold16(a) + b - 1 + q * 0xffff == a + b - 1);
    }
}

/// A sum of words is never negative.
pub proof fn lemma_word_sum_nonnegative(bytes: Seq<u8>)
    ensures
        0 <= word_sum(bytes),
    decreases bytes.len(),
{
    if bytes.len() >= 2 {
        lemma_word_sum_nonnegative(bytes.subrange(2, bytes.len() as int));
    }
}

/// A sum of words is zero exactly where every byte is zero.
pub proof fn lemma_word_sum_zero(bytes: Seq<u8>)
    ensures
        word_sum(bytes) == 0 <==> (forall|i: int| 0 <= i < bytes.len() ==> bytes[i] == 0),
    decreases bytes.len(),
{
    if bytes.len() >= 2 {
        let rest = bytes.subrange(2, bytes.len() as int);
        lemma_word_sum_zero(rest);
        lemma_word_sum_nonnegative(rest);
        if word_sum(bytes) == 0 {
            assert forall|i: int| 0 <= i < bytes.len() implies bytes[i] == 0 by {
                if i >= 2 {
                    assert(bytes[i] == rest[i - 2]);
                }
            }
        } else if forall|i: int| 0 <= i < bytes.len() ==> bytes[i] == 0 {
            assert forall|i: int| 0 <= i < rest.len() implies rest[i] == 0 by {
                assert(rest[i] == bytes[i + 2]);
            }
        }
    }
}

/// Summing is piecewise: behind a piece of even length, the words of the next
/// piece fall where they fell before.
pub proof fn lemma_word_sum_concat(a: Seq<u8>, b: Seq<u8>)
    requires
        a.len() % 2 == 0,
    ensures
        word_sum(a + b) == word_sum(a) + word_sum(b),
    decreases a.len(),
{
    if a.len() == 0 {
        assert(a + b =~= b);
    } else {
        let rest = a.subrange(2, a.len() as int);
        lemma_word_sum_concat(rest, b);
        assert((a + b).subrange(2, (a + b).len() as int) =~= rest + b);
    }
}

/// The sum of one word and of two.
pub proof fn lemma_word_sum_words(bytes: Seq<u8>)
    ensures
        bytes.len() == 2 ==> word_sum(bytes) == be16(bytes[0], bytes[1]),
        bytes.len() == 4 ==> word_sum(bytes) == be16(bytes[0], bytes[1]) + be16(
            bytes[2],
            bytes[3],
        ),
{
    if bytes.len() == 2 {
        assert(word_sum(bytes.subrange(2, 2)) == 0);
    } else if bytes.len() == 4 {
        let rest = bytes.subrange(2, 4);
        assert(word_sum(rest.subrange(2, 2)) == 0);
        assert(word_sum(rest) == be16(rest[0], rest[1]));
    }
}

/// The order of two pieces of even length does not matter.
pub proof fn lemma_checksum_commutes(a: Seq<u8>, b: Seq<u8>)
    requires
        a.len() % 2 == 0,
        b.len() % 2 == 0,
    ensures
        internet_checksum(a + b) == internet_checksum(b + a),
{
    lemma_word_sum_concat(a, b);
    lemma_word_sum_concat(b, a);
}

/// A zero byte behind a run of odd length changes neither sum nor checksum.
pub proof fn lemma_odd_length_padding(bytes: Seq<u8>)
    requires
        bytes.len() % 2 == 1,
    ensures
        word_sum(bytes.push(0)) == word_sum(bytes),
        internet_checksum(bytes.push(0)) == internet_checksum(bytes),
    decreases bytes.len(),
{
    let padded = bytes.push(0);
    if bytes.len() == 1 {
        assert(word_sum(padded.subrange(2, 2)) == 0);
    } else {
        let rest = bytes.subrange(2, bytes.len() as int);
        lemma_odd_length_padding(rest);
        assert(padded.subrange(2, padded.len() as int) =~= rest.push(0));
    }
}

/// Replacing the word at an even offset moves the sum by the difference of the
/// new word and the old.
pub proof fn lemma_word_sum_update(bytes: Seq<u8>, at: int, hi: u8, lo: u8)
    requires
        0 <= at,
        at + 2 <= bytes.len(),
        at % 2 == 0,
    ensures
        word_sum(bytes.update(at, hi).update(at + 1, lo)) == word_sum(bytes) - be16(
            bytes[at],
            bytes[at + 1],
        ) + be16(hi, lo),
{
    let changed = bytes.update(at, hi).update(at + 1, lo);
    let before = bytes.subrange(0, at);
    let behind = bytes.subrange(at + 2, bytes.len() as int);
    let old_word = seq![bytes[at], bytes[at + 1]];
    let new_word = seq![hi, lo];
    assert(bytes =~= before + (old_word + behind));
    assert(changed =~= before + (new_word + behind));
    lemma_word_sum_concat(before, old_word + behind);
    lemma_word_sum_concat(before, new_word + behind);
    lemma_word_sum_concat(old_word, behind);
    lemma_word_sum_concat(new_word, behind);
    assert(word_sum(old_word.subrange(2, 2)) == 0);
    assert(word_sum(new_word.subrange(2, 2)) == 0);
}

/// After the 16-bit word at an even offset of `bytes` is replaced, the checksum
/// brought up to date from the old checksum, the old word and the new word is
/// the checksum of the changed bytes, bit for bit. `seed` is any sum that folds
/// to the complement of the old checksum. Left out are changes that leave
/// nothing but zero bytes, whose checksum is 0xffff where the update gives 0.
pub proof fn lemma_incremental_update_u16(bytes: Seq<u8>, at: int, new: u16, seed: u32)
    requires
        0 <= at,
        at + 2 <= bytes.len(),
        at % 2 == 0,
        fold16(seed as int) == 0xffff - internet_checksum(bytes),
        exists|i: int| 0 <= i < bytes.len() && #[trigger] replace_u16(bytes, at, new)[i] != 0,
    ensures
        complement16(diff_sum(u16_at(bytes, at) as u32, new as u32, seed)) == internet_checksum(
            replace_u16(bytes, at, new),
        ),
{
    let changed = bytes.update(at, hi8(new)).update(at + 1, lo8(new));
    let old_word = be16(bytes[at], bytes[at + 1]);
    let before = word_sum(bytes);
    let after = word_sum(changed);
    lemma_word_sum_update(bytes, at, hi8(new), lo8(new));
    lemma_word_sum_nonnegative(bytes);
    lemma_word_sum_zero(changed);
    lemma_word_sum_nonnegative(changed);
    assert(be16(hi8(new), lo8(new)) == new);
    assert(after == before - old_word + new);
    assert(after > 0);
    let moved = 2 * 0xffff - old_word + new;
    assert(diff_sum(old_word as u32, new as u32, seed) == seed + moved);
    lemma_incremental(before, after, moved, seed as int);
}

/// The arithmetic under an incremental update: a seed that folds like the old
/// sum, moved by the new words and the complements of the old, folds like the
/// new sum.
proof fn lemma_incremental(before: int, after: int, moved: int, seed: int)
    requires
        0 <= before,
        0 < after,
        0 <= moved,
        0 <= seed,
        fold16(seed) == fold16(before),
        before + moved == after + 2 * 0xffff,
    ensures
        fold16(seed + moved) == fold16(after),
{
    lemma_fold16_absorb(seed, moved);
    lemma_fold16_absorb(before, moved);
    assert(fold16(seed + moved) == fold16(before + moved));
    assert((after + 2 * 0xffff - 1) % 0xffff == (after - 1) % 0xffff);
}

/// The same for a 32-bit value at an even offset.
pub proof fn lemma_incremental_update_u32(bytes: Seq<u8>, at: int, new: u32, seed: u32)
    requires
        0 <= at,
        at + 4 <= bytes.len(),
        at % 2 == 0,
        fold16(seed as int) == 0xffff - internet_checksum(bytes),
        exists|i: int| 0 <= i < bytes.len() && #[trigger] replace_u32(bytes, at, new)[i] != 0,
    ensures
        complement16(diff_sum(u32_at(bytes, at), new, seed)) == internet_checksum(
            replace_u32(bytes, at, new),
        ),
{
    let high = hi16(new);
    let low = lo16(new);
    let half = bytes.update(at, hi8(high)).update(at + 1, lo8(high));
    let changed = replace_u32(bytes, at, new);
    let old_high = be16(bytes[at], bytes[at + 1]);
    let old_low = be16(bytes[at + 2], bytes[at + 3]);
    let old = be32(bytes[at], bytes[at + 1], bytes[at + 2], bytes[at + 3]);
    let before = word_sum(bytes);
    let after = word_sum(changed);
    lemma_word_sum_update(bytes, at, hi8(high), lo8(high));
    lemma_word_sum_update(half, at + 2, hi8(low), lo8(low));
    lemma_word_sum_nonnegative(bytes);
    lemma_word_sum_zero(changed);
    lemma_word_sum_nonnegative(changed);
    assert(be16(hi8(high), lo8(high)) == high);
    assert(be16(hi8(low), lo8(low)) == low);
    assert(after == before - old_high - old_low + high + low);
    assert(after > 0);
    assert(hi16(old as u32) == old_high && lo16(old as u32) == old_low);
    let moved = 2 * 0xffff - old_high - old_low + high + low;
    assert(diff_sum(old as u32, new, seed) == seed + moved);
    lemma_incremental(before, after, moved, seed as int);
}

// What follows states, without proof, what the accumulator of `etherparse`
// does. The accumulator keeps its sum in a machine word and in the machine's
// byte order, adding each carry out of the word back in at the bottom. Because
// 2^16 leaves the remainder 1 when divided by 0xffff, that sum, folded to 16
// bits and read in network byte order, is the folded sum of the words in
// network byte order, whatever the machine. The statements below speak of
// this folded sum alone.

/// `etherparse::checksum::Sum16BitWords`: a running ones'-complement sum of
/// 16-bit words. The type is declared to be passed along; nothing of its
/// inside is known here.
#[verifier::external_type_specification]
#[verifier::external_body]
pub struct ExSum16BitWords(Sum16BitWords);

/// What a `Sum16BitWords` holds: the sum of the words added to it so far, each
/// read in network byte order, folded to 16 bits. It is the number whose
/// complement `ones_complement` and `to_be` give.
pub uninterp spec fn folded(sum: Sum16BitWords) -> int;

/// Taken on trust of `Sum16BitWords::new`: the new sum holds nothing.
pub assume_specification[ Sum16BitWords::new ]() -> (r: Sum16BitWords)
    ensures
        folded(r) == 0,
;

/// Taken on trust of `Sum16BitWords::add_2bytes`: the result holds one word
/// more, the word that `value` spells in network byte order.
pub assume_specification[ Sum16BitWords::add_2bytes ](sum: Sum16BitWords, value: [u8; 2]) -> (r:
    Sum16BitWords)
    ensures
        folded(r) == fold16(folded(sum) + be16(value@[0], value@[1])),
;

/// Taken on trust of `Sum16BitWords::add_4bytes`: the result holds the two
/// words of `value` more. The sum that the method is called on is left as it
/// was.
pub assume_specification[ Sum16BitWords::add_4bytes ](sum: &mut Sum16BitWords, value: [u8; 4]) -> (r:
    Sum16BitWords)
    ensures
        folded(r) == fold16(
            folded(*old(sum)) + be16(value@[0], value@[1]) + be16(value@[2], value@[3]),
        ),
        folded(*final(sum)) == folded(*old(sum)),
;

/// Taken on trust of `Sum16BitWords::add_slice`: the result holds the words of
/// `slice` more, a last byte without a partner padded with a zero behind it.
pub assume_specification[ Sum16BitWords::add_slice ](sum: Sum16BitWords, slice: &[u8]) -> (r:
    Sum16BitWords)
    ensures
        folded(r) == fold16(folded(sum) + word_sum(slice@)),
;

/// Taken on trust of `Sum16BitWords::ones_complement` with `u16::to_be` of std
/// on its result: the complement of the folded sum, as the number that a
/// checksum field spells in network byte order. The two calls stand in one
/// function because each alone gives a number that depends on the machine's
/// byte order, and only the two together give the same number everywhere.
#[verifier::external_body]
fn ones_complement_be(sum: &Sum16BitWords) -> (r: u16)
    ensures
        r == 0xffff - folded(*sum),
{
    sum.ones_complement().to_be()
}

/// Ends a running sum whose words so far add up to `total`.
pub(crate) fn finish(sum: Sum16BitWords, Ghost(total): Ghost<int>) -> (r: u16)
    requires
        0 <= total,
        folded(sum) == fold16(total),
    ensures
        r == complement16(total),
{
    ones_complement_be(&sum)
}

/// The Internet checksum of `bytes`: the complement of the ones'-complement sum
/// of their 16-bit big-endian words, a last single byte padded with zero.
pub fn checksum(bytes: &[u8]) -> (r: u16)
    ensures
        r == internet_checksum(bytes@),
{
    let sum = Sum16BitWords::new().add_slice(bytes);
    proof {
        lemma_word_sum_nonnegative(bytes@);
    }
    finish(sum, Ghost(word_sum(bytes@)))
}

/// The bound that a sum keeps after `round` folds of its upper bits into its
/// lower 16.
spec fn fold_bound(round: int) -> int {
    if round <= 0 {
        0x1_0000_0000_0000_fffe
    } else if round == 1 {
        0x1_0000_0000_fffe
    } else if round == 2 {
        0x1_0000_fffe
    } else if round == 3 {
        0x1_fffe
    } else {
        0xffff
    }
}

/// One fold: the upper bits come down onto the lower 16. The sum keeps its
/// remainder by 0xffff and stays zero or not zero.
proof fn lemma_fold_step(sum: u64, round: int)
    requires
        0 <= round < 4,
        sum <= fold_bound(round),
    ensures
        sum % 65536 + sum / 65536 <= fold_bound(round + 1),
        fold16(sum % 65536 + sum / 65536) == fold16(sum as int),
        sum & 0xffff == sum % 65536,
        sum >> 16 == sum / 65536,
{
    assert(sum & 0xffff == sum % 65536) by (bit_vector);
    assert(sum >> 16 == sum / 65536) by (bit_vector);
    let q = sum / 65536;
    assert(sum % 65536 + q + q * 0xffff == sum);
}

/// Folds a deferred sum to 16 bits, end around, and complements it.
pub fn csum_fold_helper(csum: u64) -> (r: u16)
    ensures
        r == complement16(csum as int),
{
    let mut csum: u64 = csum;
    let ghost start: u64 = csum;
    let mut round: u8 = 0;
    while round < 4
        invariant
            round <= 4,
            csum <= fold_bound(round as int),
            fold16(csum as int) == fold16(start as int),
        decreases 4 - round,
    {
        proof {
            lemma_fold_step(csum, round as int);
        }
        if (csum >> 16) > 0 {
            csum = (csum & 0xffff) + (csum >> 16);
        }
        round = round + 1;
    }
    let low: u16 = csum as u16;
    assert(!low == 0xffff - low) by (bit_vector);
    !low
}

/// The deferred sum that brings a checksum up to date after a 32-bit value
/// under it changed from `old` to `new`. With the complement of the old
/// checksum as `seed`, `csum_fold_helper` of the result is the new checksum. A
/// 16-bit value is passed widened with zeros.
pub fn csum_diff(old: u32, new: u32, seed: u32) -> (r: u64)
    ensures
        r == diff_sum(old, new, seed),
{
    let old: u64 = old as u64;
    let new: u64 = new as u64;
    let seed: u64 = seed as u64;
    seed + (0xffff - old / 65536) + (0xffff - old % 65536) + new / 65536 + new % 65536
}

} // verus!
