//! A pure, fully verified stand-in for the classification engine.
//!
//! It recognises the two signatures the scenarios in this crate need —
//! the PDF header and the PNG magic bytes — and reports everything else
//! as an opaque byte stream. Being pure, it is the engine used by the
//! tests; the native engine lives behind the application shell.

use vstd::prelude::*;

use crate::errors::MagicError;
use crate::mime_type::MimeType;

verus! {

/// The four bytes `%PDF`.
pub open spec fn pdf_magic(d: Seq<u8>) -> bool {
    d.len() >= 4 && d[0] == 0x25u8 && d[1] == 0x50u8 && d[2] == 0x44u8 && d[3] == 0x46u8
}

/// The first four of the PNG magic bytes.
pub open spec fn png_magic(d: Seq<u8>) -> bool {
    d.len() >= 4 && d[0] == 0x89u8 && d[1] == 0x50u8 && d[2] == 0x4Eu8 && d[3] == 0x47u8
}

/// Builds a MIME type from two parts known to be non-empty.
fn mime(type_part: &str, subtype_part: &str) -> (r: MimeType)
    requires
        type_part@.len() > 0,
        subtype_part@.len() > 0,
    ensures
        r@ == (type_part@, subtype_part@),
{
    match MimeType::from_parts(type_part.to_owned(), subtype_part.to_owned()) {
        Ok(m) => m,
        Err(_) => unreached(),
    }
}

/// A deterministic engine that classifies by byte prefix alone.
pub struct FakeMagicRepository;

impl FakeMagicRepository {
    pub fn new() -> (r: Result<Self, MagicError>)
        ensures
            r is Ok,
    {
        Ok(FakeMagicRepository)
    }

    /// Classifies a buffer: the PDF header wins, then the PNG magic,
    /// then the opaque default. Never fails.
    pub fn analyze_buffer(&self, data: &[u8], filename: &str) -> (r: Result<
        (MimeType, String),
        MagicError,
    >)
        ensures
            r matches Ok((m, d)) && {
                if pdf_magic(data@) {
                    m@ == ("application"@, "pdf"@) && d@ == "PDF document"@
                } else if png_magic(data@) {
                    m@ == ("image"@, "png"@) && d@ == "PNG image data"@
                } else {
                    m@ == ("application"@, "octet-stream"@) && d@ == "data"@
                }
            },
    {
        proof {
            reveal_strlit("application");
            reveal_strlit("image");
            reveal_strlit("pdf");
            reveal_strlit("png");
            reveal_strlit("octet-stream");
        }
        if data.len() >= 4 && *vstd::slice::slice_index_get(data, 0) == 0x25u8
            && *vstd::slice::slice_index_get(data, 1) == 0x50u8 && *vstd::slice::slice_index_get(
            data,
            2,
        ) == 0x44u8 && *vstd::slice::slice_index_get(data, 3) == 0x46u8 {
            return Ok((mime("application", "pdf"), String::from_str("PDF document")));
        }
        if data.len() >= 4 && *vstd::slice::slice_index_get(data, 0) == 0x89u8
            && *vstd::slice::slice_index_get(data, 1) == 0x50u8 && *vstd::slice::slice_index_get(
            data,
            2,
        ) == 0x4Eu8 && *vstd::slice::slice_index_get(data, 3) == 0x47u8 {
            return Ok((mime("image", "png"), String::from_str("PNG image data")));
        }
        Ok((mime("application", "octet-stream"), String::from_str("data")))
    }
}

} // verus!
