//! Bit fields of 32-bit register images.
//!
//! A register image is a `u32`. Three layouts occur: 32 single bits, 16 fields
//! of two bits and 8 fields of four bits. Each layout has a view of the image
//! as a sequence of its fields, a function that reads one field and a function
//! that replaces one field and keeps the others.

use vstd::prelude::*;

verus! {

/// Bit `i` of `bits`.
pub open spec fn bit(bits: u32, i: u32) -> bool {
    (bits >> i) & 1 == 1
}

/// The two-bit field `i` of `bits`: bits `2i + 1` and `2i`.
pub open spec fn pair(bits: u32, i: u32) -> u32 {
    (bits >> ((2 * i) as u32)) & 0b11
}

/// The four-bit field `i` of `bits`: bits `4i + 3` down to `4i`.
pub open spec fn nibble(bits: u32, i: u32) -> u32 {
    (bits >> ((4 * i) as u32)) & 0b1111
}

/// `bits` with bit `i` replaced by `on`.
pub open spec fn set_bit(bits: u32, i: u32, on: bool) -> u32 {
    if on {
        bits | (1u32 << i)
    } else {
        bits & !(1u32 << i)
    }
}

/// `bits` with the two-bit field `i` replaced by `value`.
pub open spec fn set_pair(bits: u32, i: u32, value: u32) -> u32 {
    (bits & !(0b11u32 << ((2 * i) as u32))) | (value << ((2 * i) as u32))
}

/// `bits` with the four-bit field `i` replaced by `value`.
pub open spec fn set_nibble(bits: u32, i: u32, value: u32) -> u32 {
    (bits & !(0b1111u32 << ((4 * i) as u32))) | (value << ((4 * i) as u32))
}

/// The 32 bits of an image, bit 0 first.
pub open spec fn bits_of(bits: u32) -> Seq<bool> {
    Seq::new(32, |j: int| bit(bits, j as u32))
}

/// The 16 two-bit fields of an image, field 0 first.
pub open spec fn pairs_of(bits: u32) -> Seq<u32> {
    Seq::new(16, |j: int| pair(bits, j as u32))
}

/// The 8 four-bit fields of an image, field 0 first.
pub open spec fn nibbles_of(bits: u32) -> Seq<u32> {
    Seq::new(8, |j: int| nibble(bits, j as u32))
}

/// Bit `j` after bit `i` was replaced.
proof fn lemma_bit_after_set(bits: u32, i: u32, on: bool, j: u32)
    by (bit_vector)
    requires
        i < 32,
        j < 32,
    ensures
        bit(set_bit(bits, i, on), j) == (if j == i { on } else { bit(bits, j) }),
{
}

/// Two-bit field `j` after two-bit field `i` was replaced.
proof fn lemma_pair_after_set(bits: u32, i: u32, value: u32, j: u32)
    by (bit_vector)
    requires
        i < 16,
        j < 16,
        value < 4,
    ensures
        pair(set_pair(bits, i, value), j) == (if j == i { value } else { pair(bits, j) }),
{
}

/// Four-bit field `j` after four-bit field `i` was replaced.
proof fn lemma_nibble_after_set(bits: u32, i: u32, value: u32, j: u32)
    by (bit_vector)
    requires
        i < 8,
        j < 8,
        value < 16,
    ensures
        nibble(set_nibble(bits, i, value), j) == (if j == i { value } else { nibble(bits, j) }),
{
}

/// Replacing bit `i` changes entry `i` of the view and no other.
pub proof fn lemma_set_bit_view(bits: u32, i: u32, on: bool)
    requires
        i < 32,
    ensures
        bits_of(set_bit(bits, i, on)) == bits_of(bits).update(i as int, on),
{
    assert forall|j: int| 0 <= j < 32 implies #[trigger] bits_of(set_bit(bits, i, on))[j]
        == bits_of(bits).update(i as int, on)[j] by {
        lemma_bit_after_set(bits, i, on, j as u32);
    }
    assert(bits_of(set_bit(bits, i, on)) =~= bits_of(bits).update(i as int, on));
}

/// Replacing the two-bit field `i` changes entry `i` of the view and no other.
pub proof fn lemma_set_pair_view(bits: u32, i: u32, value: u32)
    requires
        i < 16,
        value < 4,
    ensures
        pairs_of(set_pair(bits, i, value)) == pairs_of(bits).update(i as int, value),
{
    assert forall|j: int| 0 <= j < 16 implies #[trigger] pairs_of(set_pair(bits, i, value))[j]
        == pairs_of(bits).update(i as int, value)[j] by {
        lemma_pair_after_set(bits, i, value, j as u32);
    }
    assert(pairs_of(set_pair(bits, i, value)) =~= pairs_of(bits).update(i as int, value));
}

/// Replacing the four-bit field `i` changes entry `i` of the view and no other.
pub proof fn lemma_set_nibble_view(bits: u32, i: u32, value: u32)
    requires
        i < 8,
        value < 16,
    ensures
        nibbles_of(set_nibble(bits, i, value)) == nibbles_of(bits).update(i as int, value),
{
    assert forall|j: int| 0 <= j < 8 implies #[trigger] nibbles_of(set_nibble(bits, i, value))[j]
        == nibbles_of(bits).update(i as int, value)[j] by {
        lemma_nibble_after_set(bits, i, value, j as u32);
    }
    assert(nibbles_of(set_nibble(bits, i, value)) =~= nibbles_of(bits).update(i as int, value));
}

/// Replacing the two-bit field `i` puts `value` there and keeps every bit
/// outside the field.
pub proof fn lemma_set_pair_bits(bits: u32, i: u32, value: u32)
    by (bit_vector)
    requires
        i < 16,
        value < 4,
    ensures
        pair(set_pair(bits, i, value), i) == value,
        set_pair(bits, i, value) & !(0b11u32 << ((2 * i) as u32)) == bits & !(0b11u32 << ((2
            * i) as u32)),
{
}

/// Replacing the four-bit field `i` puts `value` there and keeps every bit
/// outside the field.
pub proof fn lemma_set_nibble_bits(bits: u32, i: u32, value: u32)
    by (bit_vector)
    requires
        i < 8,
        value < 16,
    ensures
        nibble(set_nibble(bits, i, value), i) == value,
        set_nibble(bits, i, value) & !(0b1111u32 << ((4 * i) as u32)) == bits & !(0b1111u32 << ((4
            * i) as u32)),
{
}

/// Replacing a two-bit field and then putting back what it held gives the
/// image that was there.
pub proof fn lemma_set_pair_restores(bits: u32, i: u32, value: u32)
    by (bit_vector)
    requires
        i < 16,
        value < 4,
    ensures
        set_pair(set_pair(bits, i, value), i, pair(bits, i)) == bits,
{
}

/// Reads bit `i` of a register image.
pub fn test_bit(bits: u32, i: u8) -> (on: bool)
    requires
        i < 32,
    ensures
        on == bit(bits, i as u32),
        on == bits_of(bits)[i as int],
{
    let mask: u32 = 1u32 << (i as u32);
    assert((bits & (1u32 << (i as u32)) != 0) == ((bits >> (i as u32)) & 1 == 1)) by (bit_vector)
        requires
            i < 32,
    ;
    bits & mask != 0
}

/// Replaces bit `i` of a register image and keeps the other 31.
pub fn with_bit(bits: u32, i: u8, on: bool) -> (r: u32)
    requires
        i < 32,
    ensures
        r == set_bit(bits, i as u32, on),
        bits_of(r) == bits_of(bits).update(i as int, on),
{
    proof {
        lemma_set_bit_view(bits, i as u32, on);
    }
    let mask: u32 = 1u32 << (i as u32);
    if on {
        bits | mask
    } else {
        bits & !mask
    }
}

/// Replaces the two-bit field `i` of a register image and keeps the other 15.
pub fn with_pair(bits: u32, i: u8, value: u32) -> (r: u32)
    requires
        i < 16,
        value < 4,
    ensures
        r == set_pair(bits, i as u32, value),
        pairs_of(r) == pairs_of(bits).update(i as int, value),
{
    proof {
        lemma_set_pair_view(bits, i as u32, value);
    }
    let offset: u32 = 2 * (i as u32);
    (bits & !(0b11u32 << offset)) | (value << offset)
}

/// Replaces the four-bit field `i` of a register image and keeps the other 7.
pub fn with_nibble(bits: u32, i: u8, value: u32) -> (r: u32)
    requires
        i < 8,
        value < 16,
    ensures
        r == set_nibble(bits, i as u32, value),
        nibbles_of(r) == nibbles_of(bits).update(i as int, value),
{
    proof {
        lemma_set_nibble_view(bits, i as u32, value);
    }
    let offset: u32 = 4 * (i as u32);
    (bits & !(0b1111u32 << offset)) | (value << offset)
}

} // verus!
