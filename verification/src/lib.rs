//! Extractor for nested firmware update containers.
//!
//! An update image is one of two fixed-layout binary formats: an outer
//! flashing wrapper that embeds a bootloader region and an inner update
//! package, or the inner update package alone.  The library recognizes the
//! format from the leading signature, decodes the header fields, and computes
//! the byte regions and metadata that a caller then writes to disk.

pub mod datetime;
pub mod extract;
pub mod output;
pub mod rkaf;
pub mod rkfw;
pub mod text;
pub mod unpack;
pub mod wire;

pub use extract::extract_region;
pub use output::OutputFile;
pub use output::UnpackError;
pub use rkaf::unpack_rkafp;
pub use rkaf::PartitionInfo;
pub use rkaf::RkafInfo;
pub use rkfw::unpack_rkfw;
pub use rkfw::RkfwInfo;
pub use unpack::unpack_file;
pub use unpack::UnpackResult;
pub use wire::get_u32_le;
