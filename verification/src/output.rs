//! Results of an extraction: planned output files and failure kinds.
//!
//! The library never touches the file system.  Each parser returns the
//! files it extracted as in-memory `OutputFile` values, in the order they
//! are to be written; the caller persists them.

use vstd::prelude::*;

verus! {

/// A file to be written under the destination directory: a relative path
/// (possibly nested, as recorded in the header) and the exact bytes.
#[derive(Debug, Clone)]
pub struct OutputFile {
    pub path: String,
    pub data: Vec<u8>,
}

/// A terminal failure of an extraction.
#[derive(Debug, Clone, PartialEq, Eq)]
pub enum UnpackError {
    /// The first four bytes of the input match neither format signature;
    /// carries the offending bytes.
    UnrecognizedFormat { sig: Vec<u8> },
    /// The package-format header is structurally invalid: its magic tag is
    /// wrong or its partition count exceeds the table's capacity.
    MalformedHeader,
    /// The packed date-time fields are out of calendar range.
    InvalidTimestamp,
    /// The region the wrapper header points at for the embedded package
    /// does not start with the package-format signature.
    MissingEmbeddedPackage,
    /// A region read would run past the end of the source bytes: the
    /// offset/length pair is bad or the file is truncated.
    TruncatedRegion,
}

} // verus!
