//! Big-endian byte helpers shared by the codecs.

use vstd::prelude::*;

verus! {

/// The 16-bit value whose big-endian bytes are `high`, `low`.
pub open spec fn be16(high: u8, low: u8) -> u16 {
    (high as int * 256 + low as int) as u16
}

/// The two big-endian bytes of `value`.
pub open spec fn be16_bytes(value: u16) -> Seq<u8> {
    seq![(value / 256) as u8, (value % 256) as u8]
}

/// The four big-endian bytes of `word`.
pub open spec fn be32_bytes(word: u32) -> Seq<u8> {
    seq![
        (word / 0x100_0000) as u8,
        (word / 0x1_0000 % 256) as u8,
        (word / 0x100 % 256) as u8,
        (word % 256) as u8,
    ]
}

/// The 32-bit word with `upper` in its upper and `lower` in its lower half.
pub open spec fn join16(upper: u16, lower: u16) -> u32 {
    (upper as int * 0x1_0000 + lower as int) as u32
}

/// The bytes of two joined halves are the bytes of the halves, in order.
pub proof fn lemma_join16_bytes(upper: u16, lower: u16)
    ensures
        be32_bytes(join16(upper, lower)) == be16_bytes(upper) + be16_bytes(lower),
{
    let word = join16(upper, lower);
    assert(word / 0x100_0000 == upper / 256);
    assert(word / 0x1_0000 % 256 == upper % 256);
    assert(word / 0x100 % 256 == lower / 256);
    assert(word % 256 == lower % 256);
    assert(be32_bytes(word) =~= be16_bytes(upper) + be16_bytes(lower));
}

/// The more significant byte of `value`.
pub fn high_byte(value: u16) -> (byte: u8)
    ensures
        byte == value / 256,
{
    let shifted: u16 = value >> 8;
    proof {
        assert(shifted == value / 256) by (bit_vector)
            requires
                shifted == value >> 8,
        ;
    }
    shifted as u8
}

/// The less significant byte of `value`.
pub fn low_byte(value: u16) -> (byte: u8)
    ensures
        byte == value % 256,
{
    let masked: u16 = value & 0xFF;
    proof {
        assert(masked == value % 256) by (bit_vector)
            requires
                masked == value & 0xFF,
        ;
    }
    masked as u8
}

/// Joins two big-endian bytes into a 16-bit value.
pub fn read_be16(high: u8, low: u8) -> (value: u16)
    ensures
        value == be16(high, low),
{
    let wide_high: u16 = high as u16;
    let wide_low: u16 = low as u16;
    let value: u16 = (wide_high << 8) | wide_low;
    proof {
        assert(value == wide_high * 256 + wide_low) by (bit_vector)
            requires
                value == (wide_high << 8) | wide_low,
                wide_high < 256,
                wide_low < 256,
        ;
    }
    value
}

/// Joins two 16-bit halves into a 32-bit word.
pub fn join_halves(upper: u16, lower: u16) -> (word: u32)
    ensures
        word == join16(upper, lower),
{
    let wide_upper: u32 = upper as u32;
    let wide_lower: u32 = lower as u32;
    let word: u32 = (wide_upper << 16) | wide_lower;
    proof {
        assert(word == wide_upper * 0x1_0000 + wide_lower) by (bit_vector)
            requires
                word == (wide_upper << 16) | wide_lower,
                wide_upper < 0x1_0000,
                wide_lower < 0x1_0000,
        ;
    }
    word
}

/// The four big-endian bytes of `word`.
pub fn split_be32(word: u32) -> (bytes: [u8; 4])
    ensures
        bytes@ == be32_bytes(word),
{
    let b0: u32 = (word >> 24) & 0xFF;
    let b1: u32 = (word >> 16) & 0xFF;
    let b2: u32 = (word >> 8) & 0xFF;
    let b3: u32 = word & 0xFF;
    proof {
        assert(b0 == word / 0x100_0000 && b1 == word / 0x1_0000 % 256 && b2 == word / 0x100 % 256
            && b3 == word % 256) by (bit_vector)
            requires
                b0 == (word >> 24) & 0xFF,
                b1 == (word >> 16) & 0xFF,
                b2 == (word >> 8) & 0xFF,
                b3 == word & 0xFF,
        ;
    }
    let bytes: [u8; 4] = [b0 as u8, b1 as u8, b2 as u8, b3 as u8];
    proof {
        assert(bytes@ =~= be32_bytes(word));
    }
    bytes
}

/// Appends the two big-endian bytes of `value` to `out`.
pub fn push_be16(out: &mut Vec<u8>, value: u16)
    ensures
        final(out)@ == old(out)@ + be16_bytes(value),
{
    out.push(high_byte(value));
    out.push(low_byte(value));
    proof {
        assert(out@ =~= old(out)@ + be16_bytes(value));
    }
}

/// Appends a copy of `bytes` to `out`.
pub fn append_bytes(out: &mut Vec<u8>, bytes: &[u8])
    ensures
        final(out)@ == old(out)@ + bytes@,
{
    let mut i: usize = 0;
    while i < bytes.len()
        invariant
            i <= bytes@.len(),
            out@ == old(out)@ + bytes@.take(i as int),
        decreases bytes@.len() - i,
    {
        out.push(bytes[i]);
        i += 1;
        proof {
            assert(bytes@.take(i as int) =~= bytes@.take(i - 1).push(bytes@[i - 1]));
            assert(out@ =~= old(out)@ + bytes@.take(i as int));
        }
    }
    proof {
        assert(bytes@.take(i as int) =~= bytes@);
    }
}

/// A copy of the bytes of `bytes` from `start` up to, not including, `end`.
pub fn copy_range(bytes: &[u8], start: usize, end: usize) -> (copy: Vec<u8>)
    requires
        start <= end <= bytes@.len(),
    ensures
        copy@ == bytes@.subrange(start as int, end as int),
{
    let mut copy: Vec<u8> = Vec::new();
    let mut i: usize = start;
    while i < end
        invariant
            start <= i <= end <= bytes@.len(),
            copy@ == bytes@.subrange(start as int, i as int),
        decreases end - i,
    {
        copy.push(bytes[i]);
        i += 1;
        proof {
            assert(copy@ =~= bytes@.subrange(start as int, i as int));
        }
    }
    copy
}

/// A copy of the bytes of `bytes` from `start` on.
pub fn copy_from(bytes: &[u8], start: usize) -> (tail: Vec<u8>)
    requires
        start <= bytes@.len(),
    ensures
        tail@ == bytes@.skip(start as int),
{
    let tail = copy_range(bytes, start, bytes.len());
    proof {
        assert(tail@ =~= bytes@.skip(start as int));
    }
    tail
}

} // verus!
