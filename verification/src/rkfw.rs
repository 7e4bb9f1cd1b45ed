//! The wrapper-format parser.
//!
//! The outer flashing container starts with a fixed-layout header holding a
//! version, a code field, a packed date-time, a chip-family code, and the
//! offset and size of two embedded regions: a bootloader blob and an inner
//! update package.  Parsing decodes the metadata and extracts both regions;
//! the region the header points at for the inner package must start with
//! the package-format signature.

use vstd::prelude::*;
use vstd::string::StringExecFns;
use crate::datetime::datetime_to_unix;
use crate::datetime::unix_timestamp_of;
use crate::datetime::valid_datetime;
use crate::extract::extract_region;
use crate::output::OutputFile;
use crate::output::UnpackError;
use crate::text::dec_chars;
use crate::wire::u16_le_of;
use crate::wire::u32_le_of;
use crate::wire::u16_le_at;
use crate::wire::u32_le_at;

verus! {

/// Metadata decoded from a wrapper-format header.
#[derive(Debug, Clone)]
pub struct RkfwInfo {
    pub version: String,
    pub code: u32,
    pub timestamp: i64,
    pub chip_family: String,
    pub chip_code: u8,
    pub boot_offset: u32,
    pub boot_size: u32,
    pub update_offset: u32,
    pub update_size: u32,
}

/// The four signature bytes of the package format.
pub open spec fn rkaf_sig() -> Seq<u8> {
    seq![0x52u8, 0x4bu8, 0x41u8, 0x46u8]
}

/// The four signature bytes of the wrapper format.
pub open spec fn rkfw_sig() -> Seq<u8> {
    seq![0x52u8, 0x4bu8, 0x46u8, 0x57u8]
}

/// Every header field of the wrapper format lies below this offset.
pub open spec fn rkfw_header_len() -> int {
    0x29
}

/// The version string of the header: `major.minor.patch`, where the major
/// and minor bytes sit above the 16-bit patch field.
pub open spec fn rkfw_version_chars(d: Seq<u8>) -> Seq<char> {
    dec_chars(d[9] as int) + "."@ + dec_chars(d[8] as int) + "."@ + dec_chars(u16_le_of(d, 6))
}

pub open spec fn rkfw_year(d: Seq<u8>) -> int {
    u16_le_of(d, 0x0e)
}

/// Whether the packed date-time fields of the header form a real calendar
/// date-time.
pub open spec fn rkfw_ts_valid(d: Seq<u8>) -> bool {
    valid_datetime(
        rkfw_year(d),
        d[0x10] as int,
        d[0x11] as int,
        d[0x12] as int,
        d[0x13] as int,
        d[0x14] as int,
    )
}

/// The Unix timestamp the packed date-time fields denote.
pub open spec fn rkfw_timestamp(d: Seq<u8>) -> int {
    unix_timestamp_of(
        rkfw_year(d),
        d[0x10] as int,
        d[0x11] as int,
        d[0x12] as int,
        d[0x13] as int,
        d[0x14] as int,
    )
}

/// The chip-family label of a chip code: a fixed table of nine known
/// families, and "unknown" for every other code.
pub open spec fn chip_label(c: u8) -> Seq<char> {
    if c == 0x50 {
        "RK29xx"@
    } else if c == 0x60 {
        "RK30xx"@
    } else if c == 0x70 {
        "RK31xx"@
    } else if c == 0x80 {
        "RK32xx"@
    } else if c == 0x41 {
        "RK3368"@
    } else if c == 0x36 {
        "RK3326"@
    } else if c == 0x32 {
        "RK3562"@
    } else if c == 0x38 {
        "RK3566"@
    } else if c == 0x30 {
        "PX30"@
    } else {
        "unknown"@
    }
}

pub open spec fn rkfw_boot_offset(d: Seq<u8>) -> int {
    u32_le_of(d, 0x19)
}

pub open spec fn rkfw_boot_size(d: Seq<u8>) -> int {
    u32_le_of(d, 0x1d)
}

pub open spec fn rkfw_update_offset(d: Seq<u8>) -> int {
    u32_le_of(d, 0x21)
}

pub open spec fn rkfw_update_size(d: Seq<u8>) -> int {
    u32_le_of(d, 0x25)
}

/// The bootloader region lies within the file.
pub open spec fn rkfw_boot_in_bounds(d: Seq<u8>) -> bool {
    rkfw_boot_offset(d) + rkfw_boot_size(d) <= d.len()
}

/// The four bytes the header points at for the embedded package exist and
/// equal the package-format signature.
pub open spec fn rkfw_update_sig_ok(d: Seq<u8>) -> bool {
    &&& rkfw_update_offset(d) + 4 <= d.len()
    &&& d.subrange(rkfw_update_offset(d), rkfw_update_offset(d) + 4) == rkaf_sig()
}

/// The embedded-package region lies within the file.
pub open spec fn rkfw_update_in_bounds(d: Seq<u8>) -> bool {
    rkfw_update_offset(d) + rkfw_update_size(d) <= d.len()
}

/// A wrapper-format input on which parsing succeeds.
pub open spec fn rkfw_ok(d: Seq<u8>) -> bool {
    &&& d.len() >= rkfw_header_len()
    &&& rkfw_ts_valid(d)
    &&& rkfw_boot_in_bounds(d)
    &&& rkfw_update_sig_ok(d)
    &&& rkfw_update_in_bounds(d)
}

/// `o` is the extracted bootloader region: the file named `BOOT` holding
/// exactly the bytes of the region the header declares.
pub open spec fn is_boot_output(d: Seq<u8>, o: OutputFile) -> bool {
    &&& o.path@ == "BOOT"@
    &&& o.data@ == d.subrange(rkfw_boot_offset(d), rkfw_boot_offset(d) + rkfw_boot_size(d))
}

/// `o` is the extracted embedded package: the file named
/// `embedded-update.img` holding exactly the bytes of the region the
/// header declares.
pub open spec fn is_update_output(d: Seq<u8>, o: OutputFile) -> bool {
    &&& o.path@ == "embedded-update.img"@
    &&& o.data@ == d.subrange(rkfw_update_offset(d), rkfw_update_offset(d) + rkfw_update_size(d))
}

/// The metadata a successful wrapper-format parse returns, field by field.
pub open spec fn rkfw_info_ok(d: Seq<u8>, info: RkfwInfo) -> bool {
    &&& info.version@ == rkfw_version_chars(d)
    &&& info.code == u32_le_of(d, 0x0a)
    &&& info.timestamp == rkfw_timestamp(d)
    &&& info.chip_family@ == chip_label(d[0x15])
    &&& info.chip_code == d[0x15]
    &&& info.boot_offset == rkfw_boot_offset(d)
    &&& info.boot_size == rkfw_boot_size(d)
    &&& info.update_offset == rkfw_update_offset(d)
    &&& info.update_size == rkfw_update_size(d)
}

/// Everything `unpack_rkfw` guarantees, by case and in the order the
/// checks run: a truncated header, then an invalid date-time, then the
/// bootloader extraction, then the embedded-package signature check, then
/// the embedded-package extraction.  The bootloader file stands in the
/// outputs as soon as its extraction succeeded, whatever fails later.
pub open spec fn rkfw_post(
    d: Seq<u8>,
    outs: Seq<OutputFile>,
    r: Result<RkfwInfo, UnpackError>,
) -> bool {
    if d.len() < rkfw_header_len() {
        r == Err::<RkfwInfo, UnpackError>(UnpackError::TruncatedRegion) && outs.len() == 0
    } else if !rkfw_ts_valid(d) {
        r == Err::<RkfwInfo, UnpackError>(UnpackError::InvalidTimestamp) && outs.len() == 0
    } else if !rkfw_boot_in_bounds(d) {
        r == Err::<RkfwInfo, UnpackError>(UnpackError::TruncatedRegion) && outs.len() == 0
    } else if rkfw_update_offset(d) + 4 > d.len() {
        &&& r == Err::<RkfwInfo, UnpackError>(UnpackError::TruncatedRegion)
        &&& outs.len() == 1
        &&& is_boot_output(d, outs[0])
    } else if d.subrange(rkfw_update_offset(d), rkfw_update_offset(d) + 4) != rkaf_sig() {
        &&& r == Err::<RkfwInfo, UnpackError>(UnpackError::MissingEmbeddedPackage)
        &&& outs.len() == 1
        &&& is_boot_output(d, outs[0])
    } else if !rkfw_update_in_bounds(d) {
        &&& r == Err::<RkfwInfo, UnpackError>(UnpackError::TruncatedRegion)
        &&& outs.len() == 1
        &&& is_boot_output(d, outs[0])
    } else {
        &&& r is Ok
        &&& rkfw_info_ok(d, r->Ok_0)
        &&& outs.len() == 2
        &&& is_boot_output(d, outs[0])
        &&& is_update_output(d, outs[1])
    }
}

/// On a successful parse, the two extracted files hold exactly the sizes
/// the header declares, and writing their bytes back at the header's
/// offsets reproduces the original file on both regions: position `k` of
/// either region reads the same byte in the extracted file and in the
/// source.
pub proof fn lemma_rkfw_round_trip(d: Seq<u8>, outs: Seq<OutputFile>, info: RkfwInfo)
    requires
        rkfw_post(d, outs, Ok(info)),
    ensures
        outs.len() == 2,
        outs[0].data@.len() == rkfw_boot_size(d),
        outs[1].data@.len() == rkfw_update_size(d),
        forall|k: int|
            rkfw_boot_offset(d) <= k < rkfw_boot_offset(d) + rkfw_boot_size(d) ==> outs[0].data@[k
                - rkfw_boot_offset(d)] == #[trigger] d[k],
        forall|k: int|
            rkfw_update_offset(d) <= k < rkfw_update_offset(d) + rkfw_update_size(d)
                ==> outs[1].data@[k - rkfw_update_offset(d)] == #[trigger] d[k],
{
    assert(is_boot_output(d, outs[0]));
    assert(is_update_output(d, outs[1]));
}

/// Decides whether the four bytes of `data` at `off` are the
/// package-format signature.
pub fn is_rkaf_sig_at(data: &[u8], off: usize) -> (r: bool)
    requires
        off + 4 <= data@.len(),
    ensures
        r == (data@.subrange(off as int, off + 4) == rkaf_sig()),
{
    let r = data[off] == 0x52 && data[off + 1] == 0x4b && data[off + 2] == 0x41 && data[off + 3]
        == 0x46;
    proof {
        let s = data@.subrange(off as int, off as int + 4);
        if r {
            assert(s =~= rkaf_sig());
        } else {
            assert(s[0] == data@[off as int] && s[1] == data@[off as int + 1] && s[2]
                == data@[off as int + 2] && s[3] == data@[off as int + 3]);
        }
    }
    r
}

/// Maps a chip code to its family label.
fn chip_label_str(c: u8) -> (r: String)
    ensures
        r@ == chip_label(c),
{
    match c {
        0x50 => String::from_str("RK29xx"),
        0x60 => String::from_str("RK30xx"),
        0x70 => String::from_str("RK31xx"),
        0x80 => String::from_str("RK32xx"),
        0x41 => String::from_str("RK3368"),
        0x36 => String::from_str("RK3326"),
        0x32 => String::from_str("RK3562"),
        0x38 => String::from_str("RK3566"),
        0x30 => String::from_str("PX30"),
        _ => String::from_str("unknown"),
    }
}

/// Parses a wrapper-format image and extracts its two embedded regions.
///
/// The returned vector holds the extracted files in the order they are
/// written: the bootloader region as `BOOT`, then the embedded package as
/// `embedded-update.img`.
pub fn unpack_rkfw(data: &[u8]) -> (r: (Vec<OutputFile>, Result<RkfwInfo, UnpackError>))
    ensures
        rkfw_post(data@, r.0@, r.1),
        (r.1 is Ok) == rkfw_ok(data@),
{
    let mut outs: Vec<OutputFile> = Vec::new();
    let n: usize = data.len();
    if n < 0x29 {
        return (outs, Err(UnpackError::TruncatedRegion));
    }
    let major = data[9];
    let minor = data[8];
    let patch = u16_le_at(data, 6);
    let mut version = crate::text::u32_to_dec(major as u32);
    version.append(".");
    version.append(crate::text::u32_to_dec(minor as u32).as_str());
    version.append(".");
    version.append(crate::text::u32_to_dec(patch as u32).as_str());
    proof {
        assert(version@ =~= rkfw_version_chars(data@));
    }

    let code = u32_le_at(data, 0x0a);

    let year = u16_le_at(data, 0x0e);
    let month = data[0x10];
    let day = data[0x11];
    let hour = data[0x12];
    let minute = data[0x13];
    let second = data[0x14];
    let timestamp = match datetime_to_unix(year, month, day, hour, minute, second) {
        Some(t) => t,
        None => {
            return (outs, Err(UnpackError::InvalidTimestamp));
        },
    };

    let chip_code = data[0x15];
    let chip_family = chip_label_str(chip_code);

    // The bootloader region carries no signature check of its own: only the
    // embedded package's signature below is enforced.
    let boot_offset = u32_le_at(data, 0x19);
    let boot_size = u32_le_at(data, 0x1d);
    let boot = match extract_region(data, boot_offset as usize, boot_size as usize) {
        Ok(v) => v,
        Err(e) => {
            return (outs, Err(e));
        },
    };
    outs.push(OutputFile { path: String::from_str("BOOT"), data: boot });

    let update_offset = u32_le_at(data, 0x21);
    let update_size = u32_le_at(data, 0x25);
    if update_offset as usize > n - 4 {
        return (outs, Err(UnpackError::TruncatedRegion));
    }
    if !is_rkaf_sig_at(data, update_offset as usize) {
        return (outs, Err(UnpackError::MissingEmbeddedPackage));
    }
    let update = match extract_region(data, update_offset as usize, update_size as usize) {
        Ok(v) => v,
        Err(e) => {
            return (outs, Err(e));
        },
    };
    outs.push(OutputFile { path: String::from_str("embedded-update.img"), data: update });

    (
        outs,
        Ok(
            RkfwInfo {
                version,
                code,
                timestamp,
                chip_family,
                chip_code,
                boot_offset,
                boot_size,
                update_offset,
                update_size,
            },
        ),
    )
}

} // verus!
