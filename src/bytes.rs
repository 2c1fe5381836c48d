//! Little-endian integers at fixed offsets of a byte slice.
use byteorder::{ByteOrder, LittleEndian};
use vstd::prelude::*;

verus! {

/// The unsigned 16-bit little-endian integer held by `b[i]`, `b[i + 1]`.
pub open spec fn le_u16(b: Seq<u8>, i: int) -> int {
    b[i] as int + 256 * (b[i + 1] as int)
}

/// The unsigned 32-bit little-endian integer held by `b[i]` .. `b[i + 3]`.
pub open spec fn le_u32(b: Seq<u8>, i: int) -> int {
    b[i] as int + 256 * (b[i + 1] as int) + 65536 * (b[i + 2] as int) + 16777216 * (b[
        i + 3
    ] as int)
}

/// The four little-endian bytes of `x`.
pub open spec fn le_u32_bytes(x: u32) -> Seq<u8> {
    seq![
        (x % 256) as u8,
        (x / 256 % 256) as u8,
        (x / 65536 % 256) as u8,
        (x / 16777216) as u8,
    ]
}

/// Reading back the four little-endian bytes of `x` gives `x`.
pub proof fn lemma_le_u32_of_bytes(x: u32)
    ensures
        le_u32_bytes(x).len() == 4,
        le_u32(le_u32_bytes(x), 0) == x as int,
{
    let a = x as int;
    let b = le_u32_bytes(x);
    assert(b[0] as int == a % 256);
    assert(b[1] as int == a / 256 % 256);
    assert(b[2] as int == a / 65536 % 256);
    assert(b[3] as int == a / 16777216);
    assert(a == a % 256 + 256 * (a / 256 % 256) + 65536 * (a / 65536 % 256) + 16777216 * (a
        / 16777216)) by (nonlinear_arith)
        requires
            0 <= a < 0x1_0000_0000,
    ;
}

/// The four little-endian bytes of `x`, lowest first.
pub(crate) fn u32_to_le(x: u32) -> (r: [u8; 4])
    ensures
        r@ == le_u32_bytes(x),
{
    let r = [(x % 256) as u8, (x / 256 % 256) as u8, (x / 65536 % 256) as u8, (x / 16777216) as u8];
    assert(r@ =~= le_u32_bytes(x));
    r
}

/// Relies on `LittleEndian::read_u16` of byteorder, which reads the first two
/// bytes of its argument as a little-endian `u16` and panics on fewer.
#[verifier::external_body]
pub(crate) fn read_u16_at(buf: &[u8], off: usize) -> (r: u16)
    requires
        off + 2 <= buf@.len(),
    ensures
        r as int == le_u16(buf@, off as int),
{
    LittleEndian::read_u16(&buf[off..])
}

/// Relies on `LittleEndian::read_u32` of byteorder, which reads the first four
/// bytes of its argument as a little-endian `u32` and panics on fewer.
#[verifier::external_body]
pub(crate) fn read_u32_at(buf: &[u8], off: usize) -> (r: u32)
    requires
        off + 4 <= buf@.len(),
    ensures
        r as int == le_u32(buf@, off as int),
{
    LittleEndian::read_u32(&buf[off..])
}

} // verus!
