//! Flag bytes (the first flag of a group in the highest bit) and little-endian integers.
use vstd::prelude::*;

verus! {

/// One when the flag is set.
pub open spec fn flag_bit(b: bool) -> u8 {
    if b {
        1u8
    } else {
        0u8
    }
}

/// The byte holding eight flags, `b7` in the highest bit.
pub open spec fn byte_of(b7: bool, b6: bool, b5: bool, b4: bool, b3: bool, b2: bool, b1: bool, b0: bool) -> u8 {
    (128 * flag_bit(b7) + 64 * flag_bit(b6) + 32 * flag_bit(b5) + 16 * flag_bit(b4) + 8 * flag_bit(b3)
        + 4 * flag_bit(b2) + 2 * flag_bit(b1) + flag_bit(b0)) as u8
}

/// The value of bit `k` (0 the lowest) of a byte.
pub open spec fn weight(k: int) -> nat {
    if k == 0 {
        1
    } else if k == 1 {
        2
    } else if k == 2 {
        4
    } else if k == 3 {
        8
    } else if k == 4 {
        16
    } else if k == 5 {
        32
    } else if k == 6 {
        64
    } else {
        128
    }
}

/// Whether bit `k` (0 the lowest) of `x` is set.
pub open spec fn bit(x: u8, k: int) -> bool {
    (x as nat / weight(k)) % 2 == 1
}

/// Reading the flags back out of a flag byte gives the flags it was made of.
pub proof fn lemma_byte_of_bits(b7: bool, b6: bool, b5: bool, b4: bool, b3: bool, b2: bool, b1: bool, b0: bool)
    ensures
        bit(byte_of(b7, b6, b5, b4, b3, b2, b1, b0), 7) == b7,
        bit(byte_of(b7, b6, b5, b4, b3, b2, b1, b0), 6) == b6,
        bit(byte_of(b7, b6, b5, b4, b3, b2, b1, b0), 5) == b5,
        bit(byte_of(b7, b6, b5, b4, b3, b2, b1, b0), 4) == b4,
        bit(byte_of(b7, b6, b5, b4, b3, b2, b1, b0), 3) == b3,
        bit(byte_of(b7, b6, b5, b4, b3, b2, b1, b0), 2) == b2,
        bit(byte_of(b7, b6, b5, b4, b3, b2, b1, b0), 1) == b1,
        bit(byte_of(b7, b6, b5, b4, b3, b2, b1, b0), 0) == b0,
{
    let x = byte_of(b7, b6, b5, b4, b3, b2, b1, b0);
    let f7 = flag_bit(b7);
    let f6 = flag_bit(b6);
    let f5 = flag_bit(b5);
    let f4 = flag_bit(b4);
    let f3 = flag_bit(b3);
    let f2 = flag_bit(b2);
    let f1 = flag_bit(b1);
    let f0 = flag_bit(b0);
    assert(x as int == 128 * f7 + 64 * f6 + 32 * f5 + 16 * f4 + 8 * f3 + 4 * f2 + 2 * f1 + f0);
    assert((x / 128) % 2 == f7 && (x / 64) % 2 == f6 && (x / 32) % 2 == f5 && (x / 16) % 2 == f4
        && (x / 8) % 2 == f3 && (x / 4) % 2 == f2 && (x / 2) % 2 == f1 && x % 2 == f0) by (bit_vector)
        requires
            f7 <= 1 && f6 <= 1 && f5 <= 1 && f4 <= 1 && f3 <= 1 && f2 <= 1 && f1 <= 1 && f0 <= 1,
            x == 128 * f7 + 64 * f6 + 32 * f5 + 16 * f4 + 8 * f3 + 4 * f2 + 2 * f1 + f0,
    ;
}

/// A flag byte made of the bits of `x` is `x`.
pub proof fn lemma_bits_of_byte(x: u8)
    ensures
        byte_of(bit(x, 7), bit(x, 6), bit(x, 5), bit(x, 4), bit(x, 3), bit(x, 2), bit(x, 1), bit(x, 0)) == x,
{
    assert(128 * ((x / 128) % 2) + 64 * ((x / 64) % 2) + 32 * ((x / 32) % 2) + 16 * ((x / 16) % 2) + 8 * ((x / 8) % 2)
        + 4 * ((x / 4) % 2) + 2 * ((x / 2) % 2) + x % 2 == x) by (bit_vector);
}

/// Build a flag byte, `b7` in the highest bit.
pub fn pack_flags(b7: bool, b6: bool, b5: bool, b4: bool, b3: bool, b2: bool, b1: bool, b0: bool) -> (r: u8)
    ensures
        r == byte_of(b7, b6, b5, b4, b3, b2, b1, b0),
{
    let mut r: u8 = 0;
    if b7 {
        r = r + 128;
    }
    if b6 {
        r = r + 64;
    }
    if b5 {
        r = r + 32;
    }
    if b4 {
        r = r + 16;
    }
    if b3 {
        r = r + 8;
    }
    if b2 {
        r = r + 4;
    }
    if b1 {
        r = r + 2;
    }
    if b0 {
        r = r + 1;
    }
    r
}

/// Read bit `k` of `x`.
pub fn test_bit(x: u8, k: u8) -> (r: bool)
    requires
        k < 8,
    ensures
        r == bit(x, k as int),
{
    let w: u8 = match k {
        0 => 1,
        1 => 2,
        2 => 4,
        3 => 8,
        4 => 16,
        5 => 32,
        6 => 64,
        _ => 128,
    };
    (x / w) % 2 == 1
}

/// The value of two bytes read little-endian.
pub open spec fn le16(lo: u8, hi: u8) -> u16 {
    (lo as int + 256 * (hi as int)) as u16
}

/// Low byte of `v`.
pub open spec fn lo_byte(v: u16) -> u8 {
    (v % 256) as u8
}

/// High byte of `v`.
pub open spec fn hi_byte(v: u16) -> u8 {
    (v / 256) as u8
}

/// Splitting a 16-bit value into bytes and joining them again gives the value.
pub proof fn lemma_le16_round_trip(v: u16)
    ensures
        le16(lo_byte(v), hi_byte(v)) == v,
{
}

/// Read two bytes little-endian.
pub fn read_le16(lo: u8, hi: u8) -> (r: u16)
    ensures
        r == le16(lo, hi),
        r as int == lo as int + 256 * (hi as int),
{
    lo as u16 + (hi as u16) * 256
}

/// The little-endian bytes of `v`.
pub fn write_le16(v: u16) -> (r: (u8, u8))
    ensures
        r.0 == lo_byte(v),
        r.1 == hi_byte(v),
{
    ((v % 256) as u8, (v / 256) as u8)
}

} // verus!

verus! {

/// The low bits of a byte that is a multiple of a power of two are clear.
pub proof fn lemma_low_bits_clear(x: u8)
    ensures
        x % 64 == 0 ==> !bit(x, 5) && !bit(x, 4) && !bit(x, 3) && !bit(x, 2) && !bit(x, 1) && !bit(x, 0),
        x % 8 == 0 ==> !bit(x, 2) && !bit(x, 1) && !bit(x, 0),
{
    assert(x % 64 == 0 ==> (x / 32) % 2 == 0 && (x / 16) % 2 == 0 && (x / 8) % 2 == 0 && (x / 4) % 2 == 0
        && (x / 2) % 2 == 0 && x % 2 == 0) by (bit_vector);
    assert(x % 8 == 0 ==> (x / 4) % 2 == 0 && (x / 2) % 2 == 0 && x % 2 == 0) by (bit_vector);
}

} // verus!

verus! {

/// Joining two bytes and splitting the value again gives the bytes.
pub proof fn lemma_le16_bytes(lo: u8, hi: u8)
    ensures
        lo_byte(le16(lo, hi)) == lo,
        hi_byte(le16(lo, hi)) == hi,
{
}

} // verus!
