//! The Internet checksum: a ones'-complement sum of 16-bit big-endian words.

use vstd::arithmetic::div_mod::lemma_mod_multiples_vanish;
use vstd::prelude::*;

verus! {

/// What the byte at `index` contributes per unit to the word it lies in: bytes
/// at even offsets are the high half of their word, bytes at odd offsets the
/// low half.
pub open spec fn byte_weight(index: int) -> nat {
    if index % 2 == 0 {
        256
    } else {
        1
    }
}

/// The plain sum of the successive 16-bit big-endian words of `bytes`. A
/// trailing odd byte is the high half of a last word whose low half is zero.
pub open spec fn word_sum(bytes: Seq<u8>) -> nat
    decreases bytes.len(),
{
    if bytes.len() == 0 {
        0
    } else {
        word_sum(bytes.drop_last()) + byte_weight(bytes.len() - 1) * (bytes.last() as nat)
    }
}

/// Folds every carry out of the low 16 bits back into them, until none is left.
pub open spec fn fold_carries(sum: nat) -> nat
    decreases sum,
{
    if sum < 0x1_0000 {
        sum
    } else {
        fold_carries(sum / 0x1_0000 + sum % 0x1_0000)
    }
}

/// The ones'-complement sum of the words of `bytes`, before the final
/// complement.
pub open spec fn ones_complement_sum(bytes: Seq<u8>) -> nat {
    fold_carries(word_sum(bytes))
}

/// The checksum of `bytes`: the complement of their ones'-complement sum.
pub open spec fn internet_checksum(bytes: Seq<u8>) -> u16 {
    (0xFFFF - ones_complement_sum(bytes)) as u16
}

/// A datagram that carries its own checksum is intact when the
/// ones'-complement sum over all of it is all ones.
pub open spec fn checksum_valid(bytes: Seq<u8>) -> bool {
    ones_complement_sum(bytes) == 0xFFFF
}

/// `bytes` with the big-endian 16-bit `value` written at `offset`.
pub open spec fn with_be16(bytes: Seq<u8>, offset: int, value: u16) -> Seq<u8> {
    bytes.update(offset, (value / 256) as u8).update(offset + 1, (value % 256) as u8)
}

/// Folding maps zero to zero and every other sum to its residue in `1..=0xFFFF`.
pub proof fn lemma_fold_closed_form(sum: nat)
    ensures
        fold_carries(sum) == if sum == 0 {
            0
        } else {
            (sum - 1) % 0xFFFF + 1
        },
    decreases sum,
{
    if sum >= 0x1_0000 {
        let q = sum / 0x1_0000;
        let r = sum % 0x1_0000;
        lemma_fold_closed_form(q + r);
        assert(sum - 1 == 0xFFFF * q + (q + r - 1));
        lemma_mod_multiples_vanish(q as int, q + r - 1, 0xFFFF);
    }
}

/// A folded sum fits in 16 bits.
pub proof fn lemma_fold_bound(sum: nat)
    ensures
        fold_carries(sum) <= 0xFFFF,
        fold_carries(sum) == 0 <==> sum == 0,
{
    lemma_fold_closed_form(sum);
}

/// Adding with end-around carry word by word gives the same result as
/// folding the whole sum once at the end.
pub proof fn lemma_fold_absorbs(partial: nat, rest: nat)
    ensures
        fold_carries(fold_carries(partial) + rest) == fold_carries(partial + rest),
{
    lemma_fold_closed_form(partial);
    lemma_fold_closed_form(partial + rest);
    lemma_fold_closed_form(fold_carries(partial) + rest);
    if partial > 0 {
        let k = (partial - 1) / 0xFFFF;
        let folded = fold_carries(partial);
        assert(partial + rest - 1 == 0xFFFF * k + (folded + rest - 1));
        lemma_mod_multiples_vanish(k as int, folded + rest - 1, 0xFFFF);
    }
}

/// Appending one byte adds that byte, weighted by its place, to the word sum.
pub proof fn lemma_word_sum_push(bytes: Seq<u8>, byte: u8)
    ensures
        word_sum(bytes.push(byte)) == word_sum(bytes) + byte_weight(bytes.len() as int) * (
        byte as nat),
{
    assert(bytes.push(byte).drop_last() =~= bytes);
}

/// Replacing one byte changes the word sum by the weighted difference.
pub proof fn lemma_word_sum_update(bytes: Seq<u8>, index: int, byte: u8)
    requires
        0 <= index < bytes.len(),
    ensures
        word_sum(bytes.update(index, byte)) + byte_weight(index) * (bytes[index] as nat)
            == word_sum(bytes) + byte_weight(index) * (byte as nat),
    decreases bytes.len(),
{
    let changed = bytes.update(index, byte);
    if index == bytes.len() - 1 {
        assert(changed.drop_last() =~= bytes.drop_last());
    } else {
        lemma_word_sum_update(bytes.drop_last(), index, byte);
        assert(changed.drop_last() =~= bytes.drop_last().update(index, byte));
    }
}

/// Writing the checksum of a datagram into its (so far zero) checksum field
/// makes the datagram intact.
pub proof fn lemma_checksum_completes(bytes: Seq<u8>, offset: int)
    requires
        0 <= offset,
        offset + 1 < bytes.len(),
        offset % 2 == 0,
        bytes[offset] == 0,
        bytes[offset + 1] == 0,
    ensures
        checksum_valid(with_be16(bytes, offset, internet_checksum(bytes))),
{
    let sum = word_sum(bytes);
    let value = internet_checksum(bytes);
    let high = (value / 256) as u8;
    let low = (value % 256) as u8;
    let first = bytes.update(offset, high);
    lemma_fold_closed_form(sum);
    lemma_word_sum_update(bytes, offset, high);
    lemma_word_sum_update(first, offset + 1, low);
    let sealed = word_sum(with_be16(bytes, offset, value));
    assert(sealed == sum + value);
    lemma_fold_closed_form(sealed);
    if sum > 0 {
        let k = (sum - 1) / 0xFFFF;
        assert(sealed - 1 == 0xFFFF * k + 0xFFFE);
        lemma_mod_multiples_vanish(k as int, 0xFFFE, 0xFFFF);
    }
}

/// No single corrupted byte goes unnoticed: an intact datagram stops being
/// intact when any one of its bytes takes another value.
pub proof fn lemma_single_byte_corruption_detected(bytes: Seq<u8>, index: int, byte: u8)
    requires
        checksum_valid(bytes),
        0 <= index < bytes.len(),
        byte != bytes[index],
    ensures
        !checksum_valid(bytes.update(index, byte)),
{
    let before = word_sum(bytes);
    let after = word_sum(bytes.update(index, byte));
    lemma_word_sum_update(bytes, index, byte);
    lemma_fold_closed_form(before);
    lemma_fold_closed_form(after);
    if checksum_valid(bytes.update(index, byte)) {
        let kb = (before - 1) / 0xFFFF;
        let ka = (after - 1) / 0xFFFF;
        assert(before == 0xFFFF * kb + 0xFFFF);
        assert(after == 0xFFFF * ka + 0xFFFF);
        let delta = byte as int - bytes[index] as int;
        let weight = byte_weight(index);
        assert(weight == 1 || weight == 256);
        assert(after - before == weight * delta) by (nonlinear_arith)
            requires
                after + weight * (bytes[index] as nat) == before + weight * (byte as nat),
                delta == byte as int - bytes[index] as int,
        ;
        assert(-0xFFFF < after - before < 0xFFFF);
        assert(ka == kb);
    }
}

/// Computes the Internet checksum of `buffer`.
///
/// The words are added with end-around carry, so the running sum never leaves
/// 16 bits, whatever the length of the buffer.
pub fn calc_checksum(buffer: &[u8]) -> (checksum: u16)
    ensures
        checksum == internet_checksum(buffer@),
{
    let len = buffer.len();
    let mut acc: u32 = 0;
    let mut i: usize = 0;
    while i < len
        invariant
            len == buffer@.len(),
            i <= len,
            i % 2 == 0 || i == len,
            acc <= 0xFFFF,
            acc as nat == ones_complement_sum(buffer@.take(i as int)),
        decreases len - i,
    {
        let high: u32 = buffer[i] as u32;
        let paired = i + 1 < len;
        let low: u32 = if paired {
            buffer[i + 1] as u32
        } else {
            0
        };
        let word: u32 = (high << 8) | low;
        proof {
            assert(word == high * 256 + low) by (bit_vector)
                requires
                    word == (high << 8) | low,
                    high < 256,
                    low < 256,
            ;
        }
        let total: u32 = acc + word;
        proof {
            let low_half = total & 0xFFFF;
            let carry = total >> 16;
            assert(low_half == total % 0x1_0000 && carry == total / 0x1_0000) by (bit_vector)
                requires
                    low_half == total & 0xFFFF,
                    carry == total >> 16,
            ;
        }
        let folded: u32 = (total & 0xFFFF) + (total >> 16);
        proof {
            let ghost prefix = buffer@.take(i as int);
            let ghost one_more = buffer@.take(i + 1);
            assert(one_more =~= prefix.push(buffer@[i as int]));
            lemma_word_sum_push(prefix, buffer@[i as int]);
            assert(byte_weight(i as int) == 256);
            assert(word_sum(one_more) == word_sum(prefix) + 256 * high);
            if paired {
                let ghost two_more = buffer@.take(i + 2);
                assert(two_more =~= one_more.push(buffer@[i + 1]));
                lemma_word_sum_push(one_more, buffer@[i + 1]);
                assert(byte_weight(i + 1) == 1);
                assert(word_sum(two_more) == word_sum(prefix) + word);
            }
            lemma_fold_absorbs(word_sum(prefix), word as nat);
            assert(fold_carries(total as nat) == folded) by {
                reveal_with_fuel(fold_carries, 2);
            }
        }
        acc = folded;
        i = if paired {
            i + 2
        } else {
            len
        };
    }
    proof {
        assert(buffer@.take(len as int) =~= buffer@);
    }
    let sum: u16 = acc as u16;
    let checksum: u16 = sum ^ 0xFFFF;
    proof {
        assert(checksum == 0xFFFF - sum) by (bit_vector)
            requires
                checksum == sum ^ 0xFFFF,
        ;
    }
    checksum
}

/// Tells whether `buffer`, checksum field included, sums to all ones.
pub fn verify_checksum(buffer: &[u8]) -> (intact: bool)
    ensures
        intact == checksum_valid(buffer@),
{
    proof {
        lemma_fold_bound(word_sum(buffer@));
    }
    calc_checksum(buffer) == 0
}

} // verus!
