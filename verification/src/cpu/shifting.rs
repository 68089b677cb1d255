//! Single-bit shifts and rotations through the carry.

use vstd::prelude::*;

verus! {

/// The value of bit `index` of `x`, counted from the least significant bit.
pub open spec fn bit(x: u8, index: u8) -> bool {
    (x >> index) & 1 == 1
}

/// What a carry contributes to a sum: one when set, nothing when clear.
pub open spec fn carry_value(carry: bool) -> int {
    if carry {
        1
    } else {
        0
    }
}

/// `x` moved one place up with `entering` as the new bit 0, and the bit that
/// fell off the top.
pub open spec fn rotated_left(entering: bool, x: u8) -> (u8, bool) {
    (((2 * x + carry_value(entering)) % 0x100) as u8, x >= 0x80)
}

/// `x` moved one place down with `entering` as the new bit 7, and the bit
/// that fell off the bottom.
pub open spec fn rotated_right(entering: bool, x: u8) -> (u8, bool) {
    ((x / 2 + 0x80 * carry_value(entering)) as u8, x % 2 == 1)
}

/// Moves every bit of `x` one place up. `entering` becomes bit 0 and the old
/// bit 7 leaves as the carry.
pub fn rotate_left(entering: bool, x: u8) -> (out: (u8, bool))
    ensures
        out == rotated_left(entering, x),
{
    let carry_out = x & 0b1000_0000 != 0;
    let low: u8 = if entering { 1 } else { 0 };
    let shifted = (x << 1) | low;
    assert(carry_out == (x >= 0x80) && shifted == (2 * x + low) % 0x100) by (bit_vector)
        requires
            carry_out == (x & 0b1000_0000 != 0),
            shifted == (x << 1) | low,
            low == 0 || low == 1,
    ;
    (shifted, carry_out)
}

/// Moves every bit of `x` one place down. `entering` becomes bit 7 and the
/// old bit 0 leaves as the carry.
pub fn rotate_right(entering: bool, x: u8) -> (out: (u8, bool))
    ensures
        out == rotated_right(entering, x),
{
    let carry_out = x & 0b0000_0001 != 0;
    let high: u8 = if entering { 0b1000_0000 } else { 0 };
    let shifted = (x >> 1) | high;
    assert(carry_out == (x % 2 == 1) && shifted == x / 2 + high) by (bit_vector)
        requires
            carry_out == (x & 0b0000_0001 != 0),
            shifted == (x >> 1) | high,
            high == 0 || high == 0b1000_0000,
    ;
    (shifted, carry_out)
}

/// A left rotation places each bit one position higher: bit 0 of the result
/// is the entering carry, every other bit is its lower neighbour in `x`, and
/// the carry that leaves is bit 7 of `x`.
pub proof fn rotate_left_moves_bits_up(entering: bool, x: u8, index: u8)
    requires
        index < 8,
    ensures
        bit(rotated_left(entering, x).0, index) == if index == 0 {
            entering
        } else {
            bit(x, (index - 1) as u8)
        },
        rotated_left(entering, x).1 == bit(x, 7),
{
    let low: u8 = if entering { 1 } else { 0 };
    let y = rotated_left(entering, x).0;
    assert(y == (2 * x + low) % 0x100);
    assert(((y >> index) & 1 == 1) == if index == 0 {
        low == 1
    } else {
        (x >> ((index - 1) as u8)) & 1 == 1
    }) by (bit_vector)
        requires
            y == (2 * x + low) % 0x100,
            low == 0 || low == 1,
            index < 8,
    ;
    assert((x >= 0x80) == ((x >> 7u8) & 1 == 1)) by (bit_vector);
}

/// A right rotation places each bit one position lower: bit 7 of the result
/// is the entering carry, every other bit is its upper neighbour in `x`, and
/// the carry that leaves is bit 0 of `x`.
pub proof fn rotate_right_moves_bits_down(entering: bool, x: u8, index: u8)
    requires
        index < 8,
    ensures
        bit(rotated_right(entering, x).0, index) == if index == 7 {
            entering
        } else {
            bit(x, (index + 1) as u8)
        },
        rotated_right(entering, x).1 == bit(x, 0),
{
    let high: u8 = if entering { 0x80 } else { 0 };
    let y = rotated_right(entering, x).0;
    assert(y == x / 2 + high);
    assert(((y >> index) & 1 == 1) == if index == 7 {
        high == 0x80
    } else {
        (x >> ((index + 1) as u8)) & 1 == 1
    }) by (bit_vector)
        requires
            y == x / 2 + high,
            high == 0 || high == 0x80,
            index < 8,
    ;
    assert((x % 2 == 1) == ((x >> 0u8) & 1 == 1)) by (bit_vector);
}

/// Rotating left and then right gives `x` back when the carry that left the
/// first rotation enters the second, and the carry that then leaves is the
/// one that first entered.
pub proof fn rotate_right_undoes_rotate_left(entering: bool, x: u8)
    ensures
        ({
            let (y, carry) = rotated_left(entering, x);
            rotated_right(carry, y) == (x, entering)
        }),
{
}

/// Shifting left and then right with a clear carry both times keeps the low
/// seven bits of `x` and clears bit 7; the bit that was lost is the carry of
/// the first shift.
pub proof fn shift_right_after_shift_left(x: u8)
    ensures
        ({
            let (y, carry) = rotated_left(false, x);
            let (z, dropped) = rotated_right(false, y);
            &&& z == x % 0x80
            &&& !dropped
            &&& z + 0x80 * carry_value(carry) == x
            &&& carry == bit(x, 7)
            &&& !bit(z, 7)
            &&& forall|index: u8| index < 7 ==> bit(z, index) == bit(x, index)
        }),
{
    let z = (x % 0x80) as u8;
    assert((x >= 0x80) == ((x >> 7u8) & 1 == 1)) by (bit_vector);
    assert((z >> 7u8) & 1 == 0) by (bit_vector)
        requires
            z == x % 0x80,
    ;
    assert forall|index: u8| index < 7 implies bit(z, index) == bit(x, index) by {
        assert(((z >> index) & 1) == ((x >> index) & 1)) by (bit_vector)
            requires
                z == x % 0x80,
                index < 7,
        ;
    }
}

} // verus!
