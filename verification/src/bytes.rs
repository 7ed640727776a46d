//! Fixed-width integers and single bits as they lie in a record body.

use vstd::prelude::*;

verus! {

/// The 16-bit little-endian integer at offset `at`.
pub open spec fn le16(data: Seq<u8>, at: int) -> int {
    data[at] + 0x100 * data[at + 1]
}

/// The 32-bit little-endian integer at offset `at`.
pub open spec fn le32(data: Seq<u8>, at: int) -> int {
    le16(data, at) + 0x1_0000 * le16(data, at + 2)
}

/// The 64-bit little-endian integer at offset `at`.
pub open spec fn le64(data: Seq<u8>, at: int) -> int {
    le32(data, at) + 0x1_0000_0000 * le32(data, at + 4)
}

/// The 16-bit integer whose big-endian encoding is `high`, `low`.
pub open spec fn be16(high: u8, low: u8) -> int {
    0x100 * high + low
}

/// Whether bit `i` of `bits` is set, bit 0 being the least significant.
pub open spec fn bit(bits: u64, i: u64) -> bool {
    (bits >> i) & 1 == 1
}

pub fn read_le16(data: &[u8], at: usize) -> (r: u16)
    requires
        at + 2 <= data.len(),
    ensures
        r == le16(data@, at as int),
{
    data[at] as u16 + 0x100 * (data[at + 1] as u16)
}

pub fn read_le32(data: &[u8], at: usize) -> (r: u32)
    requires
        at + 4 <= data.len(),
    ensures
        r == le32(data@, at as int),
{
    read_le16(data, at) as u32 + 0x1_0000 * (read_le16(data, at + 2) as u32)
}

pub fn read_le64(data: &[u8], at: usize) -> (r: u64)
    requires
        at + 8 <= data.len(),
    ensures
        r == le64(data@, at as int),
{
    read_le32(data, at) as u64 + 0x1_0000_0000 * (read_le32(data, at + 4) as u64)
}

pub fn read_be16(high: u8, low: u8) -> (r: u16)
    ensures
        r == be16(high, low),
{
    0x100 * (high as u16) + low as u16
}

pub fn bit_set(bits: u64, i: u64) -> (r: bool)
    requires
        i < 64,
    ensures
        r == bit(bits, i),
{
    (bits >> i) & 1 == 1
}

} // verus!
