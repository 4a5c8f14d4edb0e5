//! Little-endian integer fields inside a byte buffer.
use byteorder::{ByteOrder, LittleEndian};
use vstd::prelude::*;

verus! {

/// The unsigned 16-bit little-endian value stored at `at`.
pub open spec fn le_u16(b: Seq<u8>, at: int) -> int {
    b[at] as int + 0x100 * b[at + 1] as int
}

/// The unsigned 32-bit little-endian value stored at `at`.
pub open spec fn le_u32(b: Seq<u8>, at: int) -> int {
    le_u16(b, at) + 0x1_0000 * le_u16(b, at + 2)
}

/// The unsigned 64-bit little-endian value stored at `at`.
pub open spec fn le_u64(b: Seq<u8>, at: int) -> int {
    le_u32(b, at) + 0x1_0000_0000 * le_u32(b, at + 4)
}

/// Relies on `LittleEndian::read_u16` of byteorder: it reads the first two bytes of the slice,
/// least significant first, and panics on a shorter slice.
#[verifier::external_body]
pub(crate) fn read_u16(b: &[u8], at: usize) -> (r: u16)
    requires
        at + 2 <= b@.len(),
    ensures
        r as int == le_u16(b@, at as int),
{
    LittleEndian::read_u16(&b[at..])
}

/// Relies on `LittleEndian::read_u32` of byteorder: it reads the first four bytes of the slice,
/// least significant first, and panics on a shorter slice.
#[verifier::external_body]
pub(crate) fn read_u32(b: &[u8], at: usize) -> (r: u32)
    requires
        at + 4 <= b@.len(),
    ensures
        r as int == le_u32(b@, at as int),
{
    LittleEndian::read_u32(&b[at..])
}

/// Relies on `LittleEndian::read_u64` of byteorder: it reads the first eight bytes of the slice,
/// least significant first, and panics on a shorter slice.
#[verifier::external_body]
pub(crate) fn read_u64(b: &[u8], at: usize) -> (r: u64)
    requires
        at + 8 <= b@.len(),
    ensures
        r as int == le_u64(b@, at as int),
{
    LittleEndian::read_u64(&b[at..])
}

} // verus!
