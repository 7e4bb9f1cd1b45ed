//! The format dispatcher: the single entry point of the library.
//!
//! It inspects the first four bytes of the input and routes to whichever
//! parser the signature names; any other signature is rejected with the
//! offending bytes and nothing is extracted.

use vstd::prelude::*;
use crate::output::OutputFile;
use crate::output::UnpackError;
use crate::rkaf::rkaf_post;
use crate::rkaf::rkaf_ok;
use crate::rkaf::unpack_rkafp;
use crate::rkaf::RkafInfo;
use crate::rkfw::is_rkaf_sig_at;
use crate::rkfw::rkaf_sig;
use crate::rkfw::rkfw_sig;
use crate::rkfw::rkfw_post;
use crate::rkfw::rkfw_ok;
use crate::rkfw::unpack_rkfw;
use crate::rkfw::RkfwInfo;
use crate::wire::copy_range;

verus! {

/// What one extraction produced, tagged by the format that matched.
#[derive(Debug, Clone)]
pub enum UnpackResult {
    Rkfw(RkfwInfo),
    Rkaf(RkafInfo),
}

/// The input starts with the package-format signature.
pub open spec fn has_rkaf_sig(d: Seq<u8>) -> bool {
    d.subrange(0, 4) == rkaf_sig()
}

/// The input starts with the wrapper-format signature.
pub open spec fn has_rkfw_sig(d: Seq<u8>) -> bool {
    d.subrange(0, 4) == rkfw_sig()
}

/// Everything `unpack_file` guarantees: the package parser's contract
/// behind its signature, the wrapper parser's contract behind its
/// signature (with no manifest), and for any other signature the
/// rejection with the offending four bytes and no output at all.
pub open spec fn unpack_post(
    d: Seq<u8>,
    outs: Seq<OutputFile>,
    lines: Seq<String>,
    r: Result<UnpackResult, UnpackError>,
) -> bool {
    if has_rkaf_sig(d) {
        match r {
            Ok(res) => res is Rkaf && rkaf_post(d, outs, lines, Ok(res->Rkaf_0)),
            Err(e) => rkaf_post(d, outs, lines, Err(e)),
        }
    } else if has_rkfw_sig(d) {
        lines.len() == 0 && match r {
            Ok(res) => res is Rkfw && rkfw_post(d, outs, Ok(res->Rkfw_0)),
            Err(e) => rkfw_post(d, outs, Err(e)),
        }
    } else {
        &&& outs.len() == 0
        &&& lines.len() == 0
        &&& match r {
            Ok(_) => false,
            Err(e) => e matches UnpackError::UnrecognizedFormat { sig } && sig@ == d.subrange(0, 4),
        }
    }
}

/// Recognizes the format of an in-memory image and extracts it.
///
/// Returns the extracted files in the order they are written, the
/// partition manifest lines (package format only), and the decoded
/// metadata tagged by format.  An unrecognized signature yields the
/// rejection and no output; a recognized one hands the whole input to
/// that format's parser.
pub fn unpack_file(data: &[u8]) -> (r: (
    Vec<OutputFile>,
    Vec<String>,
    Result<UnpackResult, UnpackError>,
))
    requires
        data@.len() >= 4,
    ensures
        unpack_post(data@, r.0@, r.1@, r.2),
        (r.2 is Ok) == (has_rkaf_sig(data@) && rkaf_ok(data@) || has_rkfw_sig(data@) && rkfw_ok(
            data@,
        )),
{
    if is_rkaf_sig_at(data, 0) {
        let (outs, lines, res) = unpack_rkafp(data);
        match res {
            Ok(info) => (outs, lines, Ok(UnpackResult::Rkaf(info))),
            Err(e) => (outs, lines, Err(e)),
        }
    } else if data[0] == 0x52 && data[1] == 0x4b && data[2] == 0x46 && data[3] == 0x57 {
        proof {
            assert(data@.subrange(0, 4) =~= rkfw_sig());
        }
        let (outs, res) = unpack_rkfw(data);
        let lines: Vec<String> = Vec::new();
        match res {
            Ok(info) => (outs, lines, Ok(UnpackResult::Rkfw(info))),
            Err(e) => (outs, lines, Err(e)),
        }
    } else {
        proof {
            let s = data@.subrange(0, 4);
            assert(s[0] == data@[0] && s[1] == data@[1] && s[2] == data@[2] && s[3] == data@[3]);
        }
        let sig = copy_range(data, 0, 4);
        let outs: Vec<OutputFile> = Vec::new();
        let lines: Vec<String> = Vec::new();
        (outs, lines, Err(UnpackError::UnrecognizedFormat { sig }))
    }
}

} // verus!
