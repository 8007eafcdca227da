use vstd::prelude::*;
use crate::errors::AppError;

verus! {

/// The largest cover image accepted, in bytes: 2 MiB.
pub const MAX_IMAGE_SIZE: usize = 2 * 1024 * 1024;

/// The cover of a book for which no image was uploaded.
pub const DEFAULT_IMAGE_PATH: &'static str = "uploads/portada_generica.jpg";

/// What a content type of an image starts with.
pub const IMAGE_TYPE_PREFIX: &'static str = "image/";

pub const NOT_AN_IMAGE_MESSAGE: &'static str = "File must be an image";

pub const IMAGE_TOO_LARGE_MESSAGE: &'static str = "Image size exceeds 2 MB";

/// The directory and the extension of stored cover images.
pub const UPLOAD_DIR: &'static str = "uploads/";

pub const IMAGE_EXTENSION: &'static str = ".jpg";

/// What to do with an uploaded cover part.
#[derive(Clone, Copy, Debug, PartialEq, Eq, Structural)]
pub enum CoverPlan {
    /// The part is empty: the book keeps the default cover.
    UseDefault,
    /// The part is an image of acceptable size: store its bytes.
    Store,
}

/// Whether a declared content type names an image.
pub open spec fn is_image_type(content_type: Option<String>) -> bool {
    match content_type {
        Some(t) => IMAGE_TYPE_PREFIX@.is_prefix_of(t@),
        None => false,
    }
}

/// The decision for a cover part of `size` bytes: an empty part is no image
/// at all; otherwise it must be declared an image and be at most
/// `MAX_IMAGE_SIZE` bytes.
/// An error is given as the message of the validation error.
pub open spec fn cover_decision(content_type: Option<String>, size: nat) -> Result<CoverPlan, Seq<char>> {
    if size == 0 {
        Ok(CoverPlan::UseDefault)
    } else if !is_image_type(content_type) {
        Err(NOT_AN_IMAGE_MESSAGE@)
    } else if size > MAX_IMAGE_SIZE {
        Err(IMAGE_TOO_LARGE_MESSAGE@)
    } else {
        Ok(CoverPlan::Store)
    }
}

/// Whether `r` is the answer that `decision` gives: the same plan, or a
/// validation error with the same message.
pub open spec fn answers<T>(r: Result<T, AppError>, decision: Result<T, Seq<char>>) -> bool {
    match decision {
        Ok(p) => r == Ok::<T, AppError>(p),
        Err(m) => r matches Err(AppError::Validation(e)) && e@ == m,
    }
}

/// Whether `content_type` starts with `image/`.
pub fn is_image_content_type(content_type: &str) -> (r: bool)
    ensures
        r == IMAGE_TYPE_PREFIX@.is_prefix_of(content_type@),
{
    proof {
        reveal_strlit("image/");
    }
    let p = IMAGE_TYPE_PREFIX;
    let pn = p.unicode_len();
    let n = content_type.unicode_len();
    if n < pn {
        return false;
    }
    let mut i: usize = 0;
    while i < pn
        invariant
            p@ == IMAGE_TYPE_PREFIX@,
            pn == p@.len(),
            n == content_type@.len(),
            pn <= n,
            i <= pn,
            forall|k: int| 0 <= k < i ==> p@[k] == content_type@[k],
        decreases pn - i,
    {
        if p.get_char(i) != content_type.get_char(i) {
            assert(!p@.is_prefix_of(content_type@)) by {
                if p@.is_prefix_of(content_type@) {
                    assert(p@[i as int] == content_type@.subrange(0, pn as int)[i as int]);
                }
            }
            return false;
        }
        i = i + 1;
    }
    assert(p@ =~= content_type@.subrange(0, pn as int));
    true
}

/// Decides what to do with an uploaded cover part.
pub fn check_cover(content_type: &Option<String>, size: usize) -> (r: Result<CoverPlan, AppError>)
    ensures
        answers(r, cover_decision(*content_type, size as nat)),
{
    proof {
        reveal_strlit("File must be an image");
        reveal_strlit("Image size exceeds 2 MB");
    }
    if size == 0 {
        return Ok(CoverPlan::UseDefault);
    }
    let image = match content_type {
        Some(t) => is_image_content_type(t.as_str()),
        None => false,
    };
    if !image {
        Err(AppError::Validation(String::from_str(NOT_AN_IMAGE_MESSAGE)))
    } else if size > MAX_IMAGE_SIZE {
        Err(AppError::Validation(String::from_str(IMAGE_TOO_LARGE_MESSAGE)))
    } else {
        Ok(CoverPlan::Store)
    }
}

/// How `uuid` writes a 128-bit id in its hyphenated form.
pub uninterp spec fn uuid_text(id: u128) -> Seq<char>;

/// Relies on `uuid::Uuid::from_u128` and the `Display` of its `Hyphenated`
/// form, which writes the id as lower-case hex digits in groups of 8, 4, 4,
/// 4 and 12; the text depends on the id alone.
#[verifier::external_body]
fn hyphenated(id: u128) -> (r: String)
    ensures
        r@ == uuid_text(id),
{
    uuid::Uuid::from_u128(id).hyphenated().to_string()
}

/// Relies on `uuid::Uuid::new_v4`: a random version 4 id, read as a 128-bit
/// number, that names a stored cover. Nothing is promised of its value.
#[verifier::external_body]
pub(crate) fn new_id() -> (r: u128) {
    uuid::Uuid::new_v4().as_u128()
}

/// The file that holds the cover image stored under `id`.
pub open spec fn cover_path(id: u128) -> Seq<char> {
    UPLOAD_DIR@ + uuid_text(id) + IMAGE_EXTENSION@
}

/// The path of the file for the cover image stored under `id`.
pub fn cover_file_path(id: u128) -> (r: String)
    ensures
        r@ == cover_path(id),
{
    let mut r = String::from_str(UPLOAD_DIR);
    let name = hyphenated(id);
    r.append(name.as_str());
    r.append(IMAGE_EXTENSION);
    r
}

} // verus!
