//! The region extractor: copies one byte range of the source out verbatim.

use vstd::prelude::*;
use crate::output::UnpackError;
use crate::wire::copy_range;

verus! {

/// Copies the region `[offset, offset + len)` of `data` into a fresh
/// buffer.  Succeeds exactly when the whole region lies within `data`;
/// a range that runs past the end is the truncation failure, never a
/// partial copy.
pub fn extract_region(data: &[u8], offset: usize, len: usize) -> (r: Result<Vec<u8>, UnpackError>)
    ensures
        (r is Ok) == (offset + len <= data@.len()),
        r is Ok ==> r->Ok_0@ == data@.subrange(offset as int, offset + len),
        r is Err ==> r->Err_0 == UnpackError::TruncatedRegion,
{
    let n: usize = data.len();
    if offset > n || len > n - offset {
        Err(UnpackError::TruncatedRegion)
    } else {
        Ok(copy_range(data, offset, len))
    }
}

} // verus!
