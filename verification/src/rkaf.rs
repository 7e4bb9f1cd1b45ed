//! The package-format parser.
//!
//! The inner update package starts with a fixed-size packed header: the
//! four-byte magic tag, a 32-bit length field, fixed-width nul-terminated
//! manufacturer and model fields, a partition count, and a fixed-size
//! table of partition records.  Each record names a partition, gives its
//! destination path, and declares its flash geometry and the byte range
//! it occupies in the source file.
//!
//! Wire layout, all offsets absolute and multi-byte integers little-endian:
//! magic at 0, length at 4, manufacturer (60 bytes) at 8, model (60 bytes)
//! at 68, partition count at 128, and the table of 16 records at 132.
//! Each 112-byte record holds the name (32 bytes) at 0, the full path
//! (60 bytes) at 32, then flash size, flash offset, part offset, padded
//! size and part byte count.
//!
//! Parsing decodes the header, then walks the table in order: records
//! whose path reads exactly `SELF` or `RESERVED` are structural
//! placeholders and are skipped; every other record yields one manifest
//! line, one metadata record, and one extracted file.  A path field
//! without a nul terminator decodes as the whole field.

use vstd::prelude::*;
use vstd::string::StringExecFns;
use crate::extract::extract_region;
use crate::output::OutputFile;
use crate::output::UnpackError;
use crate::rkfw::rkaf_sig;
use crate::text::cstr_prefix;
use crate::text::first_nul;
use crate::text::decode_cstr;
use crate::text::hex8_chars;
use crate::text::lossy_of;
use crate::text::utf8_lossy;
use crate::text::find_nul;
use crate::text::lemma_first_nul;
use crate::wire::copy_range;
use crate::wire::u32_le_of;
use crate::wire::u32_le_at;

verus! {

/// One partition of a package image: its labels, the four geometry fields
/// copied verbatim from its table record, and the exact extracted length.
#[derive(Debug, Clone)]
pub struct PartitionInfo {
    pub name: String,
    pub path: String,
    pub flash_size: u32,
    pub flash_offset: u32,
    pub part_offset: u32,
    pub padded_size: u32,
    pub part_byte_count: u32,
}

/// Metadata decoded from a package-format header.  `length_mismatch`
/// surfaces the advisory check of the declared length field against the
/// actual file size; it never blocks extraction.
#[derive(Debug, Clone)]
pub struct RkafInfo {
    pub manufacturer: String,
    pub model: String,
    pub filesize: u64,
    pub partitions: Vec<PartitionInfo>,
    pub length_mismatch: bool,
}

/// Size of the packed package-format header.
pub open spec fn rkaf_header_len() -> int {
    1924
}

/// Capacity of the packed partition table.
pub open spec fn rkaf_max_parts() -> int {
    16
}

/// The header's magic tag equals the package-format signature.
pub open spec fn rkaf_magic_ok(d: Seq<u8>) -> bool {
    d.subrange(0, 4) == rkaf_sig()
}

/// The header's declared length field.
pub open spec fn rkaf_length(d: Seq<u8>) -> int {
    u32_le_of(d, 4)
}

pub open spec fn manufacturer_bytes(d: Seq<u8>) -> Seq<u8> {
    d.subrange(8, 68)
}

pub open spec fn model_bytes(d: Seq<u8>) -> Seq<u8> {
    d.subrange(68, 128)
}

/// The header's partition count.
pub open spec fn rkaf_num_parts(d: Seq<u8>) -> int {
    u32_le_of(d, 128)
}

/// Byte offset of table record `i`.
pub open spec fn part_base(i: int) -> int {
    132 + 112 * i
}

pub open spec fn part_name_bytes(d: Seq<u8>, i: int) -> Seq<u8> {
    d.subrange(part_base(i), part_base(i) + 32)
}

pub open spec fn part_path_bytes(d: Seq<u8>, i: int) -> Seq<u8> {
    d.subrange(part_base(i) + 32, part_base(i) + 92)
}

pub open spec fn part_flash_size(d: Seq<u8>, i: int) -> int {
    u32_le_of(d, part_base(i) + 92)
}

pub open spec fn part_flash_offset(d: Seq<u8>, i: int) -> int {
    u32_le_of(d, part_base(i) + 96)
}

pub open spec fn part_part_offset(d: Seq<u8>, i: int) -> int {
    u32_le_of(d, part_base(i) + 100)
}

pub open spec fn part_padded_size(d: Seq<u8>, i: int) -> int {
    u32_le_of(d, part_base(i) + 104)
}

pub open spec fn part_byte_count(d: Seq<u8>, i: int) -> int {
    u32_le_of(d, part_base(i) + 108)
}

/// The bytes of the placeholder path `SELF`.
pub open spec fn self_bytes() -> Seq<u8> {
    seq![0x53u8, 0x45u8, 0x4cu8, 0x46u8]
}

/// The bytes of the placeholder path `RESERVED`.
pub open spec fn reserved_bytes() -> Seq<u8> {
    seq![0x52u8, 0x45u8, 0x53u8, 0x45u8, 0x52u8, 0x56u8, 0x45u8, 0x44u8]
}

/// The path of record `i`: the bytes before the first nul, or the whole
/// field when it carries no terminator.
pub open spec fn entry_path_bytes(d: Seq<u8>, i: int) -> Seq<u8> {
    cstr_prefix(part_path_bytes(d, i))
}

/// Record `i` is a structural placeholder, not a real partition.
pub open spec fn entry_placeholder(d: Seq<u8>, i: int) -> bool {
    entry_path_bytes(d, i) == self_bytes() || entry_path_bytes(d, i) == reserved_bytes()
}

/// Record `i` yields a manifest line, a metadata record and an extracted
/// file: every record does but the two placeholders.
pub open spec fn entry_included(d: Seq<u8>, i: int) -> bool {
    !entry_placeholder(d, i)
}

/// The indices of the included records among the first `n`, in table order.
pub open spec fn included_idxs(d: Seq<u8>, n: int) -> Seq<int>
    decreases n,
{
    if n <= 0 {
        Seq::empty()
    } else if entry_included(d, n - 1) {
        included_idxs(d, n - 1).push(n - 1)
    } else {
        included_idxs(d, n - 1)
    }
}

/// The decoded partition name of record `i`: empty when the name field
/// has no nul terminator.
pub open spec fn entry_name_chars(d: Seq<u8>, i: int) -> Seq<char> {
    if first_nul(part_name_bytes(d, i)) is Some {
        lossy_of(cstr_prefix(part_name_bytes(d, i)))
    } else {
        Seq::empty()
    }
}

/// The decoded partition path of record `i`.
pub open spec fn entry_path_chars(d: Seq<u8>, i: int) -> Seq<char> {
    lossy_of(entry_path_bytes(d, i))
}

/// Record `i`'s source byte range lies within the file.
pub open spec fn part_in_bounds(d: Seq<u8>, i: int) -> bool {
    part_part_offset(d, i) + part_byte_count(d, i) <= d.len()
}

/// The manifest line of record `i`: name, path, and the five geometry
/// fields in fixed-width hexadecimal, comma-separated.
pub open spec fn manifest_line_chars(d: Seq<u8>, i: int) -> Seq<char> {
    entry_name_chars(d, i) + ","@ + entry_path_chars(d, i) + ","@ + hex8_chars(
        part_flash_size(d, i),
    ) + ","@ + hex8_chars(part_flash_offset(d, i)) + ","@ + hex8_chars(part_part_offset(d, i))
        + ","@ + hex8_chars(part_padded_size(d, i)) + ","@ + hex8_chars(part_byte_count(d, i))
}

/// `p` is the metadata record of table record `i`, field by field.
pub open spec fn part_info_ok(d: Seq<u8>, i: int, p: PartitionInfo) -> bool {
    &&& p.name@ == entry_name_chars(d, i)
    &&& p.path@ == entry_path_chars(d, i)
    &&& p.flash_size == part_flash_size(d, i)
    &&& p.flash_offset == part_flash_offset(d, i)
    &&& p.part_offset == part_part_offset(d, i)
    &&& p.padded_size == part_padded_size(d, i)
    &&& p.part_byte_count == part_byte_count(d, i)
}

/// `o` is the extracted file of table record `i`: written at the record's
/// path and holding exactly the record's declared byte range.
pub open spec fn is_part_output(d: Seq<u8>, i: int, o: OutputFile) -> bool {
    &&& o.path@ == entry_path_chars(d, i)
    &&& o.data@ == d.subrange(part_part_offset(d, i), part_part_offset(d, i) + part_byte_count(d, i))
}

/// A fixed-width text field decoded with its fallback: the text before the
/// nul terminator, or "unknown" when the field has none.
pub open spec fn field_text(b: Seq<u8>) -> Seq<char> {
    if first_nul(b) is Some {
        lossy_of(cstr_prefix(b))
    } else {
        "unknown"@
    }
}

/// The package header is structurally sound: large enough, correctly
/// tagged, and its partition count within the table's capacity.
pub open spec fn rkaf_wf(d: Seq<u8>) -> bool {
    &&& d.len() >= rkaf_header_len()
    &&& rkaf_magic_ok(d)
    &&& rkaf_num_parts(d) <= rkaf_max_parts()
}

/// Every included record's byte range lies within the file.
pub open spec fn parts_all_in_bounds(d: Seq<u8>) -> bool {
    forall|j: int|
        0 <= j < included_idxs(d, rkaf_num_parts(d)).len() ==> part_in_bounds(
            d,
            #[trigger] included_idxs(d, rkaf_num_parts(d))[j],
        )
}

/// A package-format input on which parsing and extraction succeed.
pub open spec fn rkaf_ok(d: Seq<u8>) -> bool {
    rkaf_wf(d) && parts_all_in_bounds(d)
}

/// The metadata a successful package-format parse returns, field by field.
pub open spec fn rkaf_info_ok(d: Seq<u8>, info: RkafInfo) -> bool {
    let idxs = included_idxs(d, rkaf_num_parts(d));
    &&& info.manufacturer@ == field_text(manufacturer_bytes(d))
    &&& info.model@ == field_text(model_bytes(d))
    &&& info.filesize == d.len()
    &&& info.length_mismatch == (d.len() - 4 != rkaf_length(d))
    &&& info.partitions@.len() == idxs.len()
    &&& forall|j: int|
        0 <= j < idxs.len() ==> part_info_ok(d, idxs[j], #[trigger] info.partitions@[j])
}

/// Extraction stopped at the `k`-th included record: every earlier record
/// was extracted, the failing record's manifest line was already written,
/// and its byte range runs past the end of the file.
pub open spec fn rkaf_fail_at(
    d: Seq<u8>,
    outs: Seq<OutputFile>,
    lines: Seq<String>,
    k: int,
) -> bool {
    let idxs = included_idxs(d, rkaf_num_parts(d));
    &&& 0 <= k < idxs.len()
    &&& !part_in_bounds(d, idxs[k])
    &&& forall|j: int| 0 <= j < k ==> part_in_bounds(d, #[trigger] idxs[j])
    &&& outs.len() == k
    &&& forall|j: int| 0 <= j < k ==> is_part_output(d, idxs[j], #[trigger] outs[j])
    &&& lines.len() == k + 1
    &&& forall|j: int| 0 <= j <= k ==> (#[trigger] lines[j])@ == manifest_line_chars(d, idxs[j])
}

/// Everything `unpack_rkafp` guarantees, by case and in the order the
/// checks run: a header too short to read, then the magic tag, then the
/// partition count, then the table walk, which either completes or stops
/// at the first included record whose byte range is out of bounds.
pub open spec fn rkaf_post(
    d: Seq<u8>,
    outs: Seq<OutputFile>,
    lines: Seq<String>,
    r: Result<RkafInfo, UnpackError>,
) -> bool {
    let idxs = included_idxs(d, rkaf_num_parts(d));
    if d.len() < rkaf_header_len() {
        r == Err::<RkafInfo, UnpackError>(UnpackError::TruncatedRegion) && outs.len() == 0
            && lines.len() == 0
    } else if !rkaf_magic_ok(d) {
        r == Err::<RkafInfo, UnpackError>(UnpackError::MalformedHeader) && outs.len() == 0
            && lines.len() == 0
    } else if rkaf_num_parts(d) > rkaf_max_parts() {
        r == Err::<RkafInfo, UnpackError>(UnpackError::MalformedHeader) && outs.len() == 0
            && lines.len() == 0
    } else if parts_all_in_bounds(d) {
        &&& r is Ok
        &&& rkaf_info_ok(d, r->Ok_0)
        &&& outs.len() == idxs.len()
        &&& forall|j: int| 0 <= j < idxs.len() ==> is_part_output(d, idxs[j], #[trigger] outs[j])
        &&& lines.len() == idxs.len()
        &&& forall|j: int|
            0 <= j < idxs.len() ==> (#[trigger] lines[j])@ == manifest_line_chars(d, idxs[j])
    } else {
        &&& r == Err::<RkafInfo, UnpackError>(UnpackError::TruncatedRegion)
        &&& exists|k: int| rkaf_fail_at(d, outs, lines, k)
    }
}

/// What the table walk has produced after the first `i` records.
pub open spec fn walk_state_ok(
    d: Seq<u8>,
    i: int,
    outs: Seq<OutputFile>,
    lines: Seq<String>,
    parts: Seq<PartitionInfo>,
) -> bool {
    let idxs = included_idxs(d, i);
    &&& outs.len() == idxs.len()
    &&& lines.len() == idxs.len()
    &&& parts.len() == idxs.len()
    &&& forall|j: int| 0 <= j < idxs.len() ==> is_part_output(d, idxs[j], #[trigger] outs[j])
    &&& forall|j: int|
        0 <= j < idxs.len() ==> (#[trigger] lines[j])@ == manifest_line_chars(d, idxs[j])
    &&& forall|j: int| 0 <= j < idxs.len() ==> part_info_ok(d, idxs[j], #[trigger] parts[j])
    &&& forall|j: int| 0 <= j < idxs.len() ==> part_in_bounds(d, #[trigger] idxs[j])
}

/// The walk of a longer table prefix extends the walk of a shorter one.
pub proof fn lemma_included_extends(d: Seq<u8>, i: int, n: int)
    requires
        0 <= i <= n,
    ensures
        included_idxs(d, i).len() <= included_idxs(d, n).len(),
        forall|j: int|
            0 <= j < included_idxs(d, i).len() ==> #[trigger] included_idxs(d, n)[j]
                == included_idxs(d, i)[j],
    decreases n - i,
{
    if i < n {
        lemma_included_extends(d, i, n - 1);
    }
}

/// How many of the first `n` table records are placeholders: paths
/// reading exactly `SELF` or `RESERVED`.
pub open spec fn placeholder_count(d: Seq<u8>, n: int) -> int
    decreases n,
{
    if n <= 0 {
        0
    } else if entry_placeholder(d, n - 1) {
        placeholder_count(d, n - 1) + 1
    } else {
        placeholder_count(d, n - 1)
    }
}

proof fn lemma_included_count(d: Seq<u8>, n: int)
    requires
        n >= 0,
    ensures
        included_idxs(d, n).len() == n - placeholder_count(d, n),
    decreases n,
{
    if n > 0 {
        lemma_included_count(d, n - 1);
    }
}

/// On a successful parse, the manifest holds one line per table record
/// except the `SELF` and `RESERVED` placeholders.
pub proof fn lemma_manifest_line_count(
    d: Seq<u8>,
    outs: Seq<OutputFile>,
    lines: Seq<String>,
    info: RkafInfo,
)
    requires
        rkaf_post(d, outs, lines, Ok(info)),
    ensures
        lines.len() == rkaf_num_parts(d) - placeholder_count(d, rkaf_num_parts(d)),
        outs.len() == lines.len(),
{
    lemma_included_count(d, rkaf_num_parts(d));
}

/// On a successful parse, every extracted partition file holds exactly as
/// many bytes as its table record declares — never more, never less.
pub proof fn lemma_partition_sizes(
    d: Seq<u8>,
    outs: Seq<OutputFile>,
    lines: Seq<String>,
    info: RkafInfo,
)
    requires
        rkaf_post(d, outs, lines, Ok(info)),
    ensures
        outs.len() == included_idxs(d, rkaf_num_parts(d)).len(),
        forall|j: int|
            0 <= j < outs.len() ==> (#[trigger] outs[j]).data@.len() == part_byte_count(
                d,
                included_idxs(d, rkaf_num_parts(d))[j],
            ),
{
    let idxs = included_idxs(d, rkaf_num_parts(d));
    assert forall|j: int| 0 <= j < outs.len() implies (#[trigger] outs[j]).data@.len()
        == part_byte_count(d, idxs[j]) by {
        assert(part_in_bounds(d, idxs[j]));
        assert(is_part_output(d, idxs[j], outs[j]));
    }
}

/// A skipped record leaves the walk's products unchanged.
proof fn lemma_walk_step_skip(
    d: Seq<u8>,
    i: int,
    outs: Seq<OutputFile>,
    lines: Seq<String>,
    parts: Seq<PartitionInfo>,
)
    requires
        0 <= i,
        !entry_included(d, i),
        walk_state_ok(d, i, outs, lines, parts),
    ensures
        walk_state_ok(d, i + 1, outs, lines, parts),
{
    assert(included_idxs(d, i + 1) == included_idxs(d, i));
}

/// An included, in-bounds record appends one output, one manifest line
/// and one metadata record to the walk's products.
proof fn lemma_walk_step_included(
    d: Seq<u8>,
    i: int,
    outs: Seq<OutputFile>,
    lines: Seq<String>,
    parts: Seq<PartitionInfo>,
    o: OutputFile,
    l: String,
    p: PartitionInfo,
)
    requires
        0 <= i,
        entry_included(d, i),
        walk_state_ok(d, i, outs, lines, parts),
        is_part_output(d, i, o),
        l@ == manifest_line_chars(d, i),
        part_info_ok(d, i, p),
        part_in_bounds(d, i),
    ensures
        walk_state_ok(d, i + 1, outs.push(o), lines.push(l), parts.push(p)),
{
    assert(included_idxs(d, i + 1) == included_idxs(d, i).push(i));
}

/// An included record whose byte range runs out of bounds stops the walk:
/// its manifest line is the last one, and nothing was extracted for it.
proof fn lemma_walk_fail(
    d: Seq<u8>,
    i: int,
    outs: Seq<OutputFile>,
    lines: Seq<String>,
    parts: Seq<PartitionInfo>,
    l: String,
)
    requires
        0 <= i < rkaf_num_parts(d),
        entry_included(d, i),
        walk_state_ok(d, i, outs, lines, parts),
        !part_in_bounds(d, i),
        l@ == manifest_line_chars(d, i),
    ensures
        rkaf_fail_at(d, outs, lines.push(l), included_idxs(d, i).len() as int),
        !parts_all_in_bounds(d),
{
    let np = rkaf_num_parts(d);
    let k = included_idxs(d, i).len() as int;
    assert(included_idxs(d, i + 1) == included_idxs(d, i).push(i));
    lemma_included_extends(d, i + 1, np);
    assert(included_idxs(d, np)[k] == i);
}

/// Decides whether `b` is one of the placeholder paths.
fn is_self_or_reserved(b: &[u8]) -> (r: bool)
    ensures
        r == (b@ == self_bytes() || b@ == reserved_bytes()),
{
    let is_self = b.len() == 4 && b[0] == 0x53 && b[1] == 0x45 && b[2] == 0x4c && b[3] == 0x46;
    let is_resv = b.len() == 8 && b[0] == 0x52 && b[1] == 0x45 && b[2] == 0x53 && b[3] == 0x45
        && b[4] == 0x52 && b[5] == 0x56 && b[6] == 0x45 && b[7] == 0x44;
    proof {
        if is_self {
            assert(b@ =~= self_bytes());
        } else if b@ == self_bytes() {
            assert(b@.len() == 4 && b@[0] == 0x53 && b@[1] == 0x45 && b@[2] == 0x4c && b@[3]
                == 0x46);
        }
        if is_resv {
            assert(b@ =~= reserved_bytes());
        } else if b@ == reserved_bytes() {
            assert(b@.len() == 8 && b@[0] == 0x52 && b@[1] == 0x45 && b@[2] == 0x53 && b@[3] == 0x45
                && b@[4] == 0x52 && b@[5] == 0x56 && b@[6] == 0x45 && b@[7] == 0x44);
        }
    }
    is_self || is_resv
}

/// Decodes the labels of table record `i`: `None` for a placeholder
/// record, otherwise its decoded path and name.
fn decode_entry_strings(data: &[u8], base: usize, Ghost(i): Ghost<int>) -> (r: Option<
    (String, String),
>)
    requires
        0 <= i,
        base == part_base(i),
        part_base(i) + 112 <= data@.len(),
    ensures
        (r is Some) == entry_included(data@, i),
        r matches Some(p) ==> p.0@ == entry_path_chars(data@, i) && p.1@ == entry_name_chars(
            data@,
            i,
        ),
{
    let n: usize = data.len();
    let path_field = copy_range(data, base + 32, 60);
    proof {
        assert(path_field@ =~= part_path_bytes(data@, i));
    }
    let path_pre = match find_nul(path_field.as_slice()) {
        Some(k) => {
            proof {
                lemma_first_nul(path_field@);
            }
            copy_range(path_field.as_slice(), 0, k)
        },
        None => path_field,
    };
    proof {
        assert(path_pre@ =~= entry_path_bytes(data@, i));
    }
    if is_self_or_reserved(path_pre.as_slice()) {
        None
    } else {
        let path_str = utf8_lossy(path_pre.as_slice());
        let name_field = copy_range(data, base, 32);
        proof {
            assert(name_field@ =~= part_name_bytes(data@, i));
        }
        let name_str = match decode_cstr(name_field.as_slice()) {
            Some(s) => s,
            None => String::new(),
        };
        Some((path_str, name_str))
    }
}

/// Renders the manifest line of table record `i` from its decoded labels
/// and its geometry fields.
fn build_manifest_line(
    data: &[u8],
    base: usize,
    Ghost(i): Ghost<int>,
    name_str: &str,
    path_str: &str,
) -> (line: String)
    requires
        0 <= i,
        base == part_base(i),
        part_base(i) + 112 <= data@.len(),
        name_str@ == entry_name_chars(data@, i),
        path_str@ == entry_path_chars(data@, i),
    ensures
        line@ == manifest_line_chars(data@, i),
{
    let n: usize = data.len();
    let flash_size = u32_le_at(data, base + 92);
    let flash_offset = u32_le_at(data, base + 96);
    let part_offset = u32_le_at(data, base + 100);
    let padded_size = u32_le_at(data, base + 104);
    let byte_count = u32_le_at(data, base + 108);
    let mut line = String::from_str(name_str);
    line.append(",");
    line.append(path_str);
    line.append(",");
    line.append(crate::text::u32_to_hex8(flash_size).as_str());
    line.append(",");
    line.append(crate::text::u32_to_hex8(flash_offset).as_str());
    line.append(",");
    line.append(crate::text::u32_to_hex8(part_offset).as_str());
    line.append(",");
    line.append(crate::text::u32_to_hex8(padded_size).as_str());
    line.append(",");
    line.append(crate::text::u32_to_hex8(byte_count).as_str());
    line
}

/// Processes one included table record: writes its manifest line, records
/// its metadata, and extracts its byte range.  Returns whether the range
/// was in bounds; when it is not, the line is still written — extraction
/// stops there with everything produced so far.
fn handle_included_entry(
    data: &[u8],
    base: usize,
    Ghost(i): Ghost<int>,
    path_str: String,
    name_str: String,
    outs: &mut Vec<OutputFile>,
    lines: &mut Vec<String>,
    parts: &mut Vec<PartitionInfo>,
) -> (ok: bool)
    requires
        0 <= i < rkaf_num_parts(data@),
        base == part_base(i),
        part_base(i) + 112 <= data@.len(),
        entry_included(data@, i),
        path_str@ == entry_path_chars(data@, i),
        name_str@ == entry_name_chars(data@, i),
        walk_state_ok(data@, i, old(outs)@, old(lines)@, old(parts)@),
    ensures
        ok == part_in_bounds(data@, i),
        ok ==> walk_state_ok(data@, i + 1, final(outs)@, final(lines)@, final(parts)@),
        !ok ==> rkaf_fail_at(
            data@,
            final(outs)@,
            final(lines)@,
            included_idxs(data@, i).len() as int,
        ) && !parts_all_in_bounds(data@),
{
    let n: usize = data.len();
    let line = build_manifest_line(data, base, Ghost(i), name_str.as_str(), path_str.as_str());
    let flash_size = u32_le_at(data, base + 92);
    let flash_offset = u32_le_at(data, base + 96);
    let part_offset = u32_le_at(data, base + 100);
    let padded_size = u32_le_at(data, base + 104);
    let byte_count = u32_le_at(data, base + 108);
    let ghost outs0 = outs@;
    let ghost lines0 = lines@;
    let ghost parts0 = parts@;
    let part = PartitionInfo {
        name: name_str,
        path: path_str.clone(),
        flash_size,
        flash_offset,
        part_offset,
        padded_size,
        part_byte_count: byte_count,
    };
    match extract_region(data, part_offset as usize, byte_count as usize) {
        Ok(v) => {
            let out = OutputFile { path: path_str, data: v };
            proof {
                lemma_walk_step_included(data@, i, outs0, lines0, parts0, out, line, part);
            }
            lines.push(line);
            parts.push(part);
            outs.push(out);
            true
        },
        Err(_) => {
            proof {
                lemma_walk_fail(data@, i, outs0, lines0, parts0, line);
            }
            lines.push(line);
            false
        },
    }
}

/// Parses a package-format image and extracts every real partition.
///
/// Returns the extracted files in table order, the manifest lines
/// describing them (written as each record is reached, so a failing
/// record's line precedes the failure), and the decoded metadata.
#[verifier::rlimit(100)]
pub fn unpack_rkafp(data: &[u8]) -> (r: (
    Vec<OutputFile>,
    Vec<String>,
    Result<RkafInfo, UnpackError>,
))
    ensures
        rkaf_post(data@, r.0@, r.1@, r.2),
        (r.2 is Ok) == rkaf_ok(data@),
{
    let mut outs: Vec<OutputFile> = Vec::new();
    let mut lines: Vec<String> = Vec::new();
    let mut parts: Vec<PartitionInfo> = Vec::new();
    let n: usize = data.len();
    if n < 1924 {
        return (outs, lines, Err(UnpackError::TruncatedRegion));
    }
    if !crate::rkfw::is_rkaf_sig_at(data, 0) {
        return (outs, lines, Err(UnpackError::MalformedHeader));
    }
    let length = u32_le_at(data, 4);
    let length_mismatch = (n as u64) - 4 != length as u64;

    let manufacturer_field = copy_range(data, 8, 60);
    let manufacturer = match decode_cstr(manufacturer_field.as_slice()) {
        Some(s) => s,
        None => String::from_str("unknown"),
    };
    let model_field = copy_range(data, 68, 60);
    let model = match decode_cstr(model_field.as_slice()) {
        Some(s) => s,
        None => String::from_str("unknown"),
    };
    proof {
        assert(manufacturer_field@ =~= manufacturer_bytes(data@));
        assert(model_field@ =~= model_bytes(data@));
    }

    let num_parts = u32_le_at(data, 128);
    if num_parts > 16 {
        return (outs, lines, Err(UnpackError::MalformedHeader));
    }

    let mut i: u32 = 0;
    while i < num_parts
        invariant
            n == data@.len(),
            n >= 1924,
            rkaf_magic_ok(data@),
            num_parts == rkaf_num_parts(data@),
            num_parts <= 16,
            i <= num_parts,
            walk_state_ok(data@, i as int, outs@, lines@, parts@),
        decreases num_parts - i,
    {
        let base: usize = 132 + 112 * (i as usize);
        match decode_entry_strings(data, base, Ghost(i as int)) {
            None => {
                proof {
                    lemma_walk_step_skip(data@, i as int, outs@, lines@, parts@);
                }
            },
            Some((path_str, name_str)) => {
                let ok = handle_included_entry(
                    data,
                    base,
                    Ghost(i as int),
                    path_str,
                    name_str,
                    &mut outs,
                    &mut lines,
                    &mut parts,
                );
                if !ok {
                    return (outs, lines, Err(UnpackError::TruncatedRegion));
                }
            },
        }
        i = i + 1;
    }
    proof {
        assert(parts_all_in_bounds(data@));
    }
    (
        outs,
        lines,
        Ok(
            RkafInfo {
                manufacturer,
                model,
                filesize: n as u64,
                partitions: parts,
                length_mismatch,
            },
        ),
    )
}

} // verus!
