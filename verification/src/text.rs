//! Text handling for fixed-width header fields.
//!
//! Header strings are fixed-size byte arrays holding nul-terminated text:
//! the bytes before the first nul are decoded lossily as UTF-8.  Numeric
//! header fields are rendered in decimal and fixed-width hexadecimal when
//! they appear in the version string and the partition manifest.

use vstd::prelude::*;
use vstd::string::StringExecFns;

verus! {

/// Position of the first nul byte of `b`, if any.
pub open spec fn first_nul(b: Seq<u8>) -> Option<int>
    decreases b.len(),
{
    if b.len() == 0 {
        None
    } else if b[0] == 0 {
        Some(0int)
    } else {
        match first_nul(b.skip(1)) {
            Some(i) => Some(i + 1),
            None => None,
        }
    }
}

/// The bytes of `b` before its first nul; all of `b` when it has none.
pub open spec fn cstr_prefix(b: Seq<u8>) -> Seq<u8> {
    match first_nul(b) {
        Some(i) => b.take(i),
        None => b,
    }
}

/// `first_nul` finds the first nul byte: a nul stands at the returned
/// position and none before it, and `None` means `b` holds no nul at all.
pub proof fn lemma_first_nul(b: Seq<u8>)
    ensures
        match first_nul(b) {
            Some(i) => 0 <= i < b.len() && b[i] == 0 && (forall|j: int| 0 <= j < i ==> b[j] != 0),
            None => forall|j: int| 0 <= j < b.len() ==> b[j] != 0,
        },
    decreases b.len(),
{
    if b.len() > 0 && b[0] != 0 {
        let t = b.skip(1);
        lemma_first_nul(t);
        assert(forall|j: int| 0 <= j < t.len() ==> t[j] == b[j + 1]);
        match first_nul(t) {
            Some(i) => {
                assert forall|j: int| 0 <= j < i + 1 implies b[j] != 0 by {
                    if j > 0 {
                        assert(t[j - 1] != 0);
                    }
                }
            },
            None => {
                assert forall|j: int| 0 <= j < b.len() implies b[j] != 0 by {
                    if j > 0 {
                        assert(t[j - 1] != 0);
                    }
                }
            },
        }
    }
}

/// A nul at position `k` with none before it is the first nul.
pub proof fn lemma_first_nul_at(b: Seq<u8>, k: int)
    requires
        0 <= k < b.len(),
        b[k] == 0,
        forall|j: int| 0 <= j < k ==> b[j] != 0,
    ensures
        first_nul(b) == Some(k),
    decreases k,
{
    if k > 0 {
        lemma_first_nul_at(b.skip(1), k - 1);
    }
}

/// A buffer without any nul byte has no first nul.
pub proof fn lemma_first_nul_none(b: Seq<u8>)
    requires
        forall|j: int| 0 <= j < b.len() ==> b[j] != 0,
    ensures
        first_nul(b) is None,
    decreases b.len(),
{
    if b.len() > 0 {
        lemma_first_nul_none(b.skip(1));
    }
}

/// Finds the first nul byte of `b`, if any.
pub fn find_nul(b: &[u8]) -> (r: Option<usize>)
    ensures
        match r {
            Some(k) => first_nul(b@) == Some(k as int),
            None => first_nul(b@) is None,
        },
{
    let n: usize = b.len();
    let mut k: usize = 0;
    while k < n
        invariant
            k <= n == b@.len(),
            forall|j: int| 0 <= j < k ==> b@[j] != 0,
        decreases n - k,
    {
        if b[k] == 0 {
            proof {
                lemma_first_nul_at(b@, k as int);
            }
            return Some(k);
        }
        k = k + 1;
    }
    proof {
        lemma_first_nul_none(b@);
    }
    None
}

/// What `String::from_utf8_lossy` returns for the given bytes.
pub uninterp spec fn lossy_of(b: Seq<u8>) -> Seq<char>;

/// Whether every byte of `b` is ASCII.
pub open spec fn all_ascii(b: Seq<u8>) -> bool {
    forall|i: int| 0 <= i < b.len() ==> b[i] < 0x80
}

/// Relies on `String::from_utf8_lossy`: the result is a function of the
/// bytes alone; valid UTF-8 decodes to its own characters, so ASCII bytes
/// come back one character per byte, and empty input stays empty.
#[verifier::external_body]
pub fn utf8_lossy(b: &[u8]) -> (r: String)
    ensures
        r@ == lossy_of(b@),
        b@.len() == 0 ==> r@.len() == 0,
        all_ascii(b@) ==> r@.len() == b@.len() && (forall|i: int|
            0 <= i < b@.len() ==> r@[i] as u32 == b@[i] as u32),
{
    String::from_utf8_lossy(b).into_owned()
}

/// Decodes a nul-terminated text field: the bytes before the first nul,
/// lossily as UTF-8, or `None` when no nul terminator is present.
pub fn decode_cstr(field: &[u8]) -> (r: Option<String>)
    ensures
        match r {
            Some(s) => first_nul(field@) is Some && s@ == lossy_of(cstr_prefix(field@)),
            None => first_nul(field@) is None,
        },
{
    match find_nul(field) {
        Some(k) => {
            proof {
                lemma_first_nul(field@);
            }
            let pre = crate::wire::copy_range(field, 0, k);
            proof {
                assert(pre@ =~= cstr_prefix(field@));
            }
            Some(utf8_lossy(pre.as_slice()))
        },
        None => None,
    }
}

/// One decimal digit as text.
pub open spec fn dec_digit_chars(d: int) -> Seq<char> {
    if d == 0 {
        "0"@
    } else if d == 1 {
        "1"@
    } else if d == 2 {
        "2"@
    } else if d == 3 {
        "3"@
    } else if d == 4 {
        "4"@
    } else if d == 5 {
        "5"@
    } else if d == 6 {
        "6"@
    } else if d == 7 {
        "7"@
    } else if d == 8 {
        "8"@
    } else {
        "9"@
    }
}

/// One hexadecimal digit as text, lower case.
pub open spec fn hex_digit_chars(d: int) -> Seq<char> {
    if d < 10 {
        dec_digit_chars(d)
    } else if d == 10 {
        "a"@
    } else if d == 11 {
        "b"@
    } else if d == 12 {
        "c"@
    } else if d == 13 {
        "d"@
    } else if d == 14 {
        "e"@
    } else {
        "f"@
    }
}

/// The decimal rendering of `n`, without padding or sign.
pub open spec fn dec_chars(n: int) -> Seq<char>
    decreases n,
{
    if n < 10 {
        dec_digit_chars(n)
    } else {
        dec_chars(n / 10) + dec_digit_chars(n % 10)
    }
}

/// The fixed-width hexadecimal rendering of a 32-bit value: `0x` and eight
/// lower-case digits, most significant first.
pub open spec fn hex8_chars(n: int) -> Seq<char> {
    "0x"@ + hex_digit_chars(n / 0x10000000 % 16) + hex_digit_chars(n / 0x1000000 % 16)
        + hex_digit_chars(n / 0x100000 % 16) + hex_digit_chars(n / 0x10000 % 16)
        + hex_digit_chars(n / 0x1000 % 16) + hex_digit_chars(n / 0x100 % 16)
        + hex_digit_chars(n / 0x10 % 16) + hex_digit_chars(n % 16)
}

fn dec_digit_str(d: u32) -> (r: &'static str)
    requires
        d < 10,
    ensures
        r@ == dec_digit_chars(d as int),
{
    match d {
        0 => "0",
        1 => "1",
        2 => "2",
        3 => "3",
        4 => "4",
        5 => "5",
        6 => "6",
        7 => "7",
        8 => "8",
        _ => "9",
    }
}

fn hex_digit_str(d: u32) -> (r: &'static str)
    requires
        d < 16,
    ensures
        r@ == hex_digit_chars(d as int),
{
    match d {
        0 => "0",
        1 => "1",
        2 => "2",
        3 => "3",
        4 => "4",
        5 => "5",
        6 => "6",
        7 => "7",
        8 => "8",
        9 => "9",
        10 => "a",
        11 => "b",
        12 => "c",
        13 => "d",
        14 => "e",
        _ => "f",
    }
}

/// Renders `n` in decimal.
pub fn u32_to_dec(n: u32) -> (r: String)
    ensures
        r@ == dec_chars(n as int),
    decreases n,
{
    if n < 10 {
        String::from_str(dec_digit_str(n))
    } else {
        let mut r = u32_to_dec(n / 10);
        r.append(dec_digit_str(n % 10));
        r
    }
}

/// Renders `n` as `0x` and eight lower-case hexadecimal digits.
pub fn u32_to_hex8(n: u32) -> (r: String)
    ensures
        r@ == hex8_chars(n as int),
{
    let mut r = String::from_str("0x");
    r.append(hex_digit_str(n / 0x10000000 % 16));
    r.append(hex_digit_str(n / 0x1000000 % 16));
    r.append(hex_digit_str(n / 0x100000 % 16));
    r.append(hex_digit_str(n / 0x10000 % 16));
    r.append(hex_digit_str(n / 0x1000 % 16));
    r.append(hex_digit_str(n / 0x100 % 16));
    r.append(hex_digit_str(n / 0x10 % 16));
    r.append(hex_digit_str(n % 16));
    proof {
        assert(r@ =~= hex8_chars(n as int));
    }
    r
}

} // verus!
