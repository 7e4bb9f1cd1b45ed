//! Little-endian field decoding on raw byte buffers.
//!
//! Every multi-byte header field of both container formats is a
//! little-endian integer read at a fixed byte offset; these helpers give
//! those reads exact specifications over the buffer's byte sequence.

use vstd::prelude::*;

verus! {

/// The 16-bit little-endian value stored at offset `i` of `d`.
pub open spec fn u16_le_of(d: Seq<u8>, i: int) -> int {
    d[i] + d[i + 1] * 0x100
}

/// The 32-bit little-endian value stored at offset `i` of `d`.
pub open spec fn u32_le_of(d: Seq<u8>, i: int) -> int {
    d[i] + d[i + 1] * 0x100 + d[i + 2] * 0x10000 + d[i + 3] * 0x1000000
}

/// Reads the 16-bit little-endian value at offset `off` of `data`.
pub fn u16_le_at(data: &[u8], off: usize) -> (r: u16)
    requires
        off + 2 <= data@.len(),
    ensures
        r == u16_le_of(data@, off as int),
{
    let b0 = data[off] as u16;
    let b1 = data[off + 1] as u16;
    b0 + b1 * 0x100
}

/// Reads the 32-bit little-endian value at offset `off` of `data`.
pub fn u32_le_at(data: &[u8], off: usize) -> (r: u32)
    requires
        off + 4 <= data@.len(),
    ensures
        r == u32_le_of(data@, off as int),
{
    let b0 = data[off] as u32;
    let b1 = data[off + 1] as u32;
    let b2 = data[off + 2] as u32;
    let b3 = data[off + 3] as u32;
    b0 + b1 * 0x100 + b2 * 0x10000 + b3 * 0x1000000
}

/// Reads the 32-bit little-endian value at the start of `slice`.
pub fn get_u32_le(slice: &[u8]) -> (r: u32)
    requires
        slice@.len() >= 4,
    ensures
        r == u32_le_of(slice@, 0),
{
    u32_le_at(slice, 0)
}

/// Copies the byte range `[off, off + len)` of `data` into a fresh vector.
pub fn copy_range(data: &[u8], off: usize, len: usize) -> (r: Vec<u8>)
    requires
        off + len <= data@.len(),
    ensures
        r@ == data@.subrange(off as int, off + len),
{
    let n: usize = data.len();
    let mut out: Vec<u8> = Vec::new();
    let mut i: usize = 0;
    while i < len
        invariant
            off + len <= n == data@.len(),
            i <= len,
            out@ == data@.subrange(off as int, off + i),
        decreases len - i,
    {
        out.push(data[off + i]);
        proof {
            assert(out@ =~= data@.subrange(off as int, off + i + 1));
        }
        i = i + 1;
    }
    out
}

} // verus!
