//! Loading an image file as a base64 data URI.
//!
//! Reading the file is the caller's side; the library decides the
//! MIME label and assembles the URI.  The label comes from a
//! case-insensitive suffix check for ".png" alone: every other name
//! is labelled "image/jpeg" whatever the bytes hold, a deliberate
//! simplification that mislabels other formats.

use base64::Engine;
use vstd::prelude::*;

verus! {

/// Whether a file name ends in ".png", ignoring case.
pub open spec fn is_png_name(s: Seq<char>) -> bool {
    s.len() >= 4 && s[s.len() - 4] == '.' && (s[s.len() - 3] == 'p' || s[s.len() - 3] == 'P') && (
    s[s.len() - 2] == 'n' || s[s.len() - 2] == 'N') && (s[s.len() - 1] == 'g' || s[s.len() - 1]
        == 'G')
}

/// The MIME label for a path: "image/png" for a ".png" suffix in any
/// case, "image/jpeg" for everything else.
pub open spec fn mime_of(path: Seq<char>) -> Seq<char> {
    if is_png_name(path) {
        "image/png"@
    } else {
        "image/jpeg"@
    }
}

/// What the standard base64 encoding of a byte sequence reads as; a
/// function of the bytes alone.
pub uninterp spec fn base64_of(data: Seq<u8>) -> Seq<char>;

/// Relies on base64's general_purpose::STANDARD engine: the standard
/// alphabet with padding, a function of the input bytes alone, whose
/// output takes four characters for every started triple of input
/// bytes.  The engine panics when that length overflows usize, so
/// such inputs are excluded.
#[verifier::external_body]
fn base64_encode(data: &Vec<u8>) -> (r: String)
    requires
        4 * ((data@.len() + 2) / 3) <= usize::MAX,
    ensures
        r@ == base64_of(data@),
        r@.len() == 4 * ((data@.len() + 2) / 3),
        data@.len() == 0 ==> r@ == Seq::<char>::empty(),
{
    base64::engine::general_purpose::STANDARD.encode(data.as_slice())
}

/// Picks the MIME label for a path by the case-insensitive ".png"
/// suffix check.
pub fn mime_for(path: &String) -> (r: &str)
    ensures
        r@ == mime_of(path@),
{
    let s = path.as_str();
    let n = s.unicode_len();
    let png = if n >= 4 {
        let c1 = s.get_char(n - 4);
        let c2 = s.get_char(n - 3);
        let c3 = s.get_char(n - 2);
        let c4 = s.get_char(n - 1);
        c1 == '.' && (c2 == 'p' || c2 == 'P') && (c3 == 'n' || c3 == 'N') && (c4 == 'g' || c4
            == 'G')
    } else {
        false
    };
    if png {
        "image/png"
    } else {
        "image/jpeg"
    }
}

/// The data URI for a path and its bytes.
pub open spec fn data_uri_text(path: Seq<char>, data: Seq<u8>) -> Seq<char> {
    "data:"@ + mime_of(path) + ";base64,"@ + base64_of(data)
}

/// Assembles the data URI for an image file's bytes: the MIME label
/// picked from the file name, then the bytes in standard base64.
pub fn icon_data_uri(path: &String, data: &Vec<u8>) -> (r: String)
    requires
        4 * ((data@.len() + 2) / 3) <= usize::MAX,
    ensures
        r@ == data_uri_text(path@, data@),
{
    let mime = mime_for(path);
    let b64 = base64_encode(data);
    let r = String::from_str("data:").concat(mime).concat(";base64,").concat(b64.as_str());
    assert(r@ =~= data_uri_text(path@, data@));
    r
}

} // verus!
