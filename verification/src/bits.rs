//! Bit positions inside one register byte, stated as arithmetic on the byte's value.

use vstd::prelude::*;

verus! {

/// `x` without its `i` lowest bits: `x` divided by two to the power `i`.
pub open spec fn upper(x: int, i: int) -> int {
    if i <= 0 {
        x
    } else if i == 1 {
        x / 2
    } else if i == 2 {
        x / 4
    } else if i == 3 {
        x / 8
    } else if i == 4 {
        x / 16
    } else if i == 5 {
        x / 32
    } else if i == 6 {
        x / 64
    } else if i == 7 {
        x / 128
    } else {
        x / 256
    }
}

/// The `n` lowest bits of `x`: the remainder of `x` by two to the power `n`.
pub open spec fn lower(x: int, n: int) -> int {
    if n <= 0 {
        0
    } else if n == 1 {
        x % 2
    } else if n == 2 {
        x % 4
    } else if n == 3 {
        x % 8
    } else if n == 4 {
        x % 16
    } else if n == 5 {
        x % 32
    } else if n == 6 {
        x % 64
    } else if n == 7 {
        x % 128
    } else {
        x % 256
    }
}

/// `x` moved up by `i` bits: `x` times two to the power `i`.
pub open spec fn raised(x: int, i: int) -> int {
    if i <= 0 {
        x
    } else if i == 1 {
        x * 2
    } else if i == 2 {
        x * 4
    } else if i == 3 {
        x * 8
    } else if i == 4 {
        x * 16
    } else if i == 5 {
        x * 32
    } else if i == 6 {
        x * 64
    } else if i == 7 {
        x * 128
    } else {
        x * 256
    }
}

/// Whether bit `i` (0 is the least significant) of `byte` is set.
pub open spec fn bit(byte: u8, i: int) -> bool {
    lower(upper(byte as int, i), 1) == 1
}

/// The number held in bits `msb` down to `lsb` of `byte`, both included.
pub open spec fn bits(byte: u8, msb: int, lsb: int) -> int {
    lower(upper(byte as int, lsb), msb - lsb + 1)
}

/// `byte` with bit `i` set to `value` and every other bit as it was.
pub open spec fn with_bit(byte: u8, i: int, value: bool) -> int {
    byte as int - raised(bits(byte, i, i), i) + raised(if value { 1 } else { 0 }, i)
}

/// `byte` with bits `msb` down to `lsb` holding the low bits of `value` and every other
/// bit as it was. Bits of `value` that do not fit the field are dropped.
pub open spec fn with_bits(byte: u8, msb: int, lsb: int, value: u8) -> int {
    byte as int - raised(bits(byte, msb, lsb), lsb) + raised(
        lower(value as int, msb - lsb + 1),
        lsb,
    )
}

/// Writing a bit gives a byte in which that bit holds the value written and every other
/// bit is as before.
pub proof fn lemma_with_bit_reads_back(byte: u8, i: u8, value: bool, j: u8)
    by (bit_vector)
    requires
        i < 8,
        j < 8,
    ensures
        0 <= with_bit(byte, i as int, value) <= 255,
        bit(with_bit(byte, i as int, value) as u8, j as int) == (if j == i {
            value
        } else {
            bit(byte, j as int)
        }),
{
}

/// Writing a field gives a byte in which the field holds the value written, cut to the
/// field's width, and every bit outside the field is as before.
pub proof fn lemma_with_bits_reads_back(byte: u8, msb: u8, lsb: u8, value: u8, j: u8)
    requires
        lsb <= msb < 8,
        j < 8,
    ensures
        0 <= with_bits(byte, msb as int, lsb as int, value) <= 255,
        bits(with_bits(byte, msb as int, lsb as int, value) as u8, msb as int, lsb as int)
            == lower(value as int, msb - lsb + 1),
        j < lsb || j > msb ==> bit(with_bits(byte, msb as int, lsb as int, value) as u8, j as int)
            == bit(byte, j as int),
{
    let top: u8 = (7 - msb) as u8;
    let down: u8 = (top + lsb) as u8;
    let mask: u8 = ((0xFFu8 << top) >> down) << lsb;
    let written: u8 = (byte & !mask) | ((value << lsb) & mask);
    assert(written == with_bits(byte, msb as int, lsb as int, value)) by (bit_vector)
        requires
            lsb <= msb < 8,
            top == 7 - msb,
            down == top + lsb,
            mask == ((0xFFu8 << top) >> down) << lsb,
            written == (byte & !mask) | ((value << lsb) & mask),
    ;
    assert((written << top) >> down == (value << down) >> down) by (bit_vector)
        requires
            lsb <= msb < 8,
            top == 7 - msb,
            down == top + lsb,
            mask == ((0xFFu8 << top) >> down) << lsb,
            written == (byte & !mask) | ((value << lsb) & mask),
    ;
    assert((written << top) >> down == bits(written, msb as int, lsb as int)) by (bit_vector)
        requires
            lsb <= msb < 8,
            top == 7 - msb,
            down == top + lsb,
    ;
    assert((value << down) >> down == lower(value as int, msb - lsb + 1)) by (bit_vector)
        requires
            lsb <= msb < 8,
            down == 7 - msb + lsb,
    ;
    assert(j < lsb || j > msb ==> ((written >> j) & 1u8) == ((byte >> j) & 1u8)) by (bit_vector)
        requires
            lsb <= msb < 8,
            j < 8,
            top == 7 - msb,
            down == top + lsb,
            mask == ((0xFFu8 << top) >> down) << lsb,
            written == (byte & !mask) | ((value << lsb) & mask),
    ;
    assert((((written >> j) & 1u8) == 1u8) == bit(written, j as int)) by (bit_vector)
        requires
            j < 8,
    ;
    assert((((byte >> j) & 1u8) == 1u8) == bit(byte, j as int)) by (bit_vector)
        requires
            j < 8,
    ;
}

/// A field of one bit holds 1 where the bit is set and 0 where it is not.
pub proof fn lemma_bits_of_one_bit(byte: u8, i: u8)
    by (bit_vector)
    requires
        i < 8,
    ensures
        bits(byte, i as int, i as int) == (if bit(byte, i as int) {
            1int
        } else {
            0int
        }),
{
}

/// Reads bit `i` of `byte`.
pub(crate) fn get_bit(byte: u8, i: u8) -> (r: bool)
    requires
        i < 8,
    ensures
        r == bit(byte, i as int),
{
    assert(((byte >> i) & 1u8 == 1u8) == bit(byte, i as int)) by (bit_vector)
        requires
            i < 8,
    ;
    (byte >> i) & 1u8 == 1u8
}

/// Returns `byte` with bit `i` set to `value`.
pub(crate) fn set_bit(byte: u8, i: u8, value: bool) -> (r: u8)
    requires
        i < 8,
    ensures
        r == with_bit(byte, i as int, value),
{
    let mask: u8 = 1u8 << i;
    assert((byte | (1u8 << i)) == with_bit(byte, i as int, true)) by (bit_vector)
        requires
            i < 8,
    ;
    assert((byte & !(1u8 << i)) == with_bit(byte, i as int, false)) by (bit_vector)
        requires
            i < 8,
    ;
    if value {
        byte | mask
    } else {
        byte & !mask
    }
}

/// Reads the number held in bits `msb` down to `lsb` of `byte`.
pub(crate) fn get_bits(byte: u8, msb: u8, lsb: u8) -> (r: u8)
    requires
        lsb <= msb < 8,
    ensures
        r == bits(byte, msb as int, lsb as int),
{
    let top: u8 = 7 - msb;
    let down: u8 = top + lsb;
    assert(((byte << top) >> down) == bits(byte, msb as int, lsb as int)) by (bit_vector)
        requires
            lsb <= msb < 8,
            top == 7 - msb,
            down == top + lsb,
    ;
    (byte << top) >> down
}

/// Returns `byte` with bits `msb` down to `lsb` holding the low bits of `value`.
pub(crate) fn set_bits(byte: u8, msb: u8, lsb: u8, value: u8) -> (r: u8)
    requires
        lsb <= msb < 8,
    ensures
        r == with_bits(byte, msb as int, lsb as int, value),
{
    let top: u8 = 7 - msb;
    let down: u8 = top + lsb;
    let mask: u8 = ((0xFFu8 << top) >> down) << lsb;
    assert(((byte & !(((0xFFu8 << top) >> down) << lsb)) | ((value << lsb) & (((0xFFu8 << top)
        >> down) << lsb))) == with_bits(byte, msb as int, lsb as int, value)) by (bit_vector)
        requires
            lsb <= msb < 8,
            top == 7 - msb,
            down == top + lsb,
    ;
    (byte & !mask) | ((value << lsb) & mask)
}

} // verus!
