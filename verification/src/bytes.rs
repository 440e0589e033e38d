//! Little-endian numbers in byte buffers.

use vstd::prelude::*;

verus! {

/// The unsigned 16-bit number whose little-endian bytes are `lo`, `hi`.
pub open spec fn le_u16(lo: u8, hi: u8) -> int {
    lo as int + 256 * (hi as int)
}

/// The signed 16-bit number whose little-endian bytes are `lo`, `hi`.
pub open spec fn le_i16(lo: u8, hi: u8) -> int {
    if le_u16(lo, hi) >= 32768 {
        le_u16(lo, hi) - 65536
    } else {
        le_u16(lo, hi)
    }
}

/// The unsigned 32-bit number that stands little-endian at `b[at..at + 4]`.
pub open spec fn le_u32(b: Seq<u8>, at: int) -> int {
    b[at] as int + 256 * (b[at + 1] as int) + 65536 * (b[at + 2] as int) + 16777216 * (b[at
        + 3] as int)
}

/// The signed 32-bit number that stands little-endian at `b[at..at + 4]`.
pub open spec fn le_i32(b: Seq<u8>, at: int) -> int {
    if le_u32(b, at) >= 0x8000_0000 {
        le_u32(b, at) - 0x1_0000_0000
    } else {
        le_u32(b, at)
    }
}

/// The signed 16-bit field that stands little-endian at `b[at..at + 2]`.
pub open spec fn field_i16(b: Seq<u8>, at: int) -> int {
    le_i16(b[at], b[at + 1])
}

pub(crate) fn read_u32(data: &[u8], at: usize) -> (v: u32)
    requires
        at + 4 <= data@.len(),
    ensures
        v == le_u32(data@, at as int),
{
    let b0: u32 = data[at] as u32;
    let b1: u32 = data[at + 1] as u32;
    let b2: u32 = data[at + 2] as u32;
    let b3: u32 = data[at + 3] as u32;
    b0 + 256 * b1 + 65536 * b2 + 16777216 * b3
}

pub(crate) fn read_i32(data: &[u8], at: usize) -> (v: i32)
    requires
        at + 4 <= data@.len(),
    ensures
        v == le_i32(data@, at as int),
{
    let u: i64 = read_u32(data, at) as i64;
    if u >= 0x8000_0000 {
        (u - 0x1_0000_0000) as i32
    } else {
        u as i32
    }
}

pub(crate) fn read_i16(data: &[u8], at: usize) -> (v: i16)
    requires
        at + 2 <= data@.len(),
    ensures
        v == field_i16(data@, at as int),
{
    let u: i32 = data[at] as i32 + 256 * (data[at + 1] as i32);
    if u >= 32768 {
        (u - 65536) as i16
    } else {
        u as i16
    }
}

} // verus!
