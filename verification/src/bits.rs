use vstd::prelude::*;

verus! {

/// The value of `x` modulo 2^32: what a 32-bit register keeps of it.
pub open spec fn wrap32(x: int) -> u32 {
    (x % 0x1_0000_0000) as u32
}

/// The signed value of a byte read as two's complement.
pub open spec fn signed8(b: u8) -> int {
    if b < 0x80 {
        b as int
    } else {
        b - 0x100
    }
}

/// The signed value of a double word read as two's complement.
pub open spec fn signed32(x: u32) -> int {
    if x < 0x8000_0000 {
        x as int
    } else {
        x - 0x1_0000_0000
    }
}

/// Byte `k` of `x`, byte 0 being the least significant.
pub open spec fn byte_of(x: u32, k: int) -> u8 {
    if k == 0 {
        (x % 0x100) as u8
    } else if k == 1 {
        ((x / 0x100) % 0x100) as u8
    } else if k == 2 {
        ((x / 0x1_0000) % 0x100) as u8
    } else {
        ((x / 0x100_0000) % 0x100) as u8
    }
}

/// The 16-bit value whose little-endian bytes are `b0, b1`.
pub open spec fn le16(b0: u8, b1: u8) -> u16 {
    (b0 + 0x100 * b1) as u16
}

/// The 32-bit value whose little-endian bytes are `b0, b1, b2, b3`.
pub open spec fn le32(b0: u8, b1: u8, b2: u8, b3: u8) -> u32 {
    (b0 + 0x100 * b1 + 0x1_0000 * b2 + 0x100_0000 * b3) as u32
}

/// A double word is the little-endian value of its own four bytes.
pub proof fn lemma_le32_of_bytes(x: u32)
    ensures
        le32(byte_of(x, 0), byte_of(x, 1), byte_of(x, 2), byte_of(x, 3)) == x,
{
}

/// The bytes of a little-endian value are the bytes it was made of.
pub proof fn lemma_bytes_of_le32(b0: u8, b1: u8, b2: u8, b3: u8)
    ensures
        byte_of(le32(b0, b1, b2, b3), 0) == b0,
        byte_of(le32(b0, b1, b2, b3), 1) == b1,
        byte_of(le32(b0, b1, b2, b3), 2) == b2,
        byte_of(le32(b0, b1, b2, b3), 3) == b3,
{
}

/// The byte sign-extended to 32 bits.
pub open spec fn extend8(b: u8) -> u32 {
    wrap32(signed8(b))
}

/// The bit pattern of a signed byte after sign extension to 32 bits.
pub fn sign_extend8(d: i8) -> (r: u32)
    ensures
        r == wrap32(d as int),
{
    wrapping_offset(0, d as i64)
}

/// The byte as a signed number.
pub fn to_signed8(b: u8) -> (r: i8)
    ensures
        r == signed8(b),
{
    if b < 0x80 {
        b as i8
    } else {
        let w: i16 = b as i16 - 0x100;
        w as i8
    }
}

/// The double word as a signed number.
pub fn to_signed32(x: u32) -> (r: i32)
    ensures
        r == signed32(x),
{
    if x < 0x8000_0000 {
        x as i32
    } else {
        let w: i64 = x as i64 - 0x1_0000_0000;
        w as i32
    }
}

/// `base + delta` modulo 2^32.
pub(crate) fn wrapping_offset(base: u32, delta: i64) -> (r: u32)
    requires
        -0x1_0000_0000 <= delta <= 0x1_0000_0000,
    ensures
        r == wrap32(base + delta),
{
    let t: i64 = base as i64 + delta;
    if t < 0 {
        (t + 0x1_0000_0000) as u32
    } else if t >= 0x1_0000_0000 {
        (t - 0x1_0000_0000) as u32
    } else {
        t as u32
    }
}

} // verus!
