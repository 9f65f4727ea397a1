//! Big-endian (network order) readers over byte sequences.

use vstd::prelude::*;

verus! {

/// The 16-bit big-endian value held by `b[at]` and `b[at + 1]`.
pub open spec fn be16(b: Seq<u8>, at: int) -> u16 {
    (b[at] as int * 0x100 + b[at + 1] as int) as u16
}

/// The 32-bit big-endian value held by the four bytes from `at`.
pub open spec fn be32(b: Seq<u8>, at: int) -> u32 {
    (be16(b, at) as int * 0x1_0000 + be16(b, at + 2) as int) as u32
}

/// The 64-bit big-endian value held by the eight bytes from `at`.
pub open spec fn be64(b: Seq<u8>, at: int) -> u64 {
    (be32(b, at) as int * 0x1_0000_0000 + be32(b, at + 4) as int) as u64
}

/// The 128-bit big-endian value held by the sixteen bytes from `at`.
pub open spec fn be128(b: Seq<u8>, at: int) -> u128 {
    (be64(b, at) as int * 0x1_0000_0000_0000_0000 + be64(b, at + 8) as int) as u128
}

/// Reads the 16-bit big-endian value at `at`.
pub fn read_be16(data: &[u8], at: usize) -> (value: u16)
    requires
        at + 2 <= data.len(),
    ensures
        value == be16(data@, at as int),
{
    let high: u16 = data[at] as u16;
    let low: u16 = data[at + 1] as u16;
    high * 0x100 + low
}

/// Reads the 32-bit big-endian value at `at`.
pub fn read_be32(data: &[u8], at: usize) -> (value: u32)
    requires
        at + 4 <= data.len(),
    ensures
        value == be32(data@, at as int),
{
    let high: u32 = read_be16(data, at) as u32;
    let low: u32 = read_be16(data, at + 2) as u32;
    high * 0x1_0000 + low
}

/// Reads the 64-bit big-endian value at `at`.
pub fn read_be64(data: &[u8], at: usize) -> (value: u64)
    requires
        at + 8 <= data.len(),
    ensures
        value == be64(data@, at as int),
{
    let high: u64 = read_be32(data, at) as u64;
    let low: u64 = read_be32(data, at + 4) as u64;
    high * 0x1_0000_0000 + low
}

/// Reads the 128-bit big-endian value at `at`.
pub fn read_be128(data: &[u8], at: usize) -> (value: u128)
    requires
        at + 16 <= data.len(),
    ensures
        value == be128(data@, at as int),
{
    let high: u128 = read_be64(data, at) as u128;
    let low: u128 = read_be64(data, at + 8) as u128;
    high * 0x1_0000_0000_0000_0000 + low
}

} // verus!
