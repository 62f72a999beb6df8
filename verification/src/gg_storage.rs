//! The object-storage parameters and the pure rules around uploads. The
//! storage HTTP calls themselves live with the surrounding program.

use vstd::prelude::*;
use crate::digits::{dec_chars, dec_chars_of};
use crate::strutil::chars_to_string;

verus! {

#[derive(Debug, Clone)]
pub struct GoogleStorage {
    pub bearer_string: String,
    pub project_number: String,
    pub google_storage_enable: bool,
}

/// Every album's bucket name starts with this.
pub fn bucket_prefix() -> (r: &'static str)
    ensures
        r@ == "tagify_album_ss20_"@,
{
    "tagify_album_ss20_"
}

/// The bucket name of an album: the fixed prefix and the album's number.
pub fn bucket_name(album_id: u32) -> (r: String)
    ensures
        r@ == "tagify_album_ss20_"@ + dec_chars_of(album_id as nat),
{
    let mut name = bucket_prefix().to_owned();
    let digits = dec_chars(album_id);
    let suffix = chars_to_string(&digits);
    name.append(suffix.as_str());
    name
}

/// The content type an image is served under, by its file extension; the
/// extension is matched lower-case, and anything unknown is served as PNG,
/// as uploads are stored.
pub fn content_type_for_extension(ext: &str) -> (r: &'static str)
    ensures
        r@ == spec_content_type(ext@),
{
    if ext_eq(ext, "png") {
        "image/png"
    } else if ext_eq(ext, "bmp") {
        "image/bmp"
    } else if ext_eq(ext, "jpg") || ext_eq(ext, "jpeg") {
        "image/jpeg"
    } else if ext_eq(ext, "gif") {
        "image/gif"
    } else if ext_eq(ext, "ico") {
        "image/vnd.microsoft.icon"
    } else if ext_eq(ext, "svg") {
        "image/svg+xml"
    } else if ext_eq(ext, "tif") || ext_eq(ext, "tiff") {
        "image/tiff"
    } else if ext_eq(ext, "webp") {
        "image/webp"
    } else {
        "image/png"
    }
}

pub open spec fn spec_content_type(ext: Seq<char>) -> Seq<char> {
    if ext == "png"@ {
        "image/png"@
    } else if ext == "bmp"@ {
        "image/bmp"@
    } else if ext == "jpg"@ || ext == "jpeg"@ {
        "image/jpeg"@
    } else if ext == "gif"@ {
        "image/gif"@
    } else if ext == "ico"@ {
        "image/vnd.microsoft.icon"@
    } else if ext == "svg"@ {
        "image/svg+xml"@
    } else if ext == "tif"@ || ext == "tiff"@ {
        "image/tiff"@
    } else if ext == "webp"@ {
        "image/webp"@
    } else {
        "image/png"@
    }
}

fn ext_eq(a: &str, b: &str) -> (r: bool)
    ensures
        r == (a@ == b@),
{
    let av = a.to_owned();
    let bv = b.to_owned();
    av.eq(&bv)
}

} // verus!
