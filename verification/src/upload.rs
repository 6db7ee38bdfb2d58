use vstd::prelude::*;

verus! {

/// The largest request body a resume upload may carry, in bytes.
pub const MAX_FILE_SIZE_BYTES: u64 = 300000;

/// How many files one upload request may carry at most.
pub const MAX_FILE_COUNT: u64 = 3;

/// The content types a resume upload accepts.
pub open spec fn allowed_filetype_spec(s: Seq<char>) -> bool {
    ||| s == "image/png"@
    ||| s == "image/jpeg"@
    ||| s == "image/gif"@
    ||| s == "application/pdf"@
}

/// Whether a part's declared content type is one of the accepted ones: the
/// two image formats, GIF, or PDF. A part with any other type — or with
/// none, which the caller maps to an empty string — is skipped.
pub fn is_allowed_filetype(content_type: &String) -> (r: bool)
    ensures
        r == allowed_filetype_spec(content_type@),
{
    let png: String = "image/png".to_owned();
    let jpeg: String = "image/jpeg".to_owned();
    let gif: String = "image/gif".to_owned();
    let pdf: String = "application/pdf".to_owned();
    *content_type == png || *content_type == jpeg || *content_type == gif || *content_type == pdf
}

/// Whether a request body of the declared length may be stored: anything
/// over the size cap is refused before a byte of it is read.
pub fn upload_size_ok(content_length: u64) -> (r: bool)
    ensures
        r == (content_length <= MAX_FILE_SIZE_BYTES),
{
    content_length <= MAX_FILE_SIZE_BYTES
}

/// Whether the upload loop may take one more file, after having stored
/// `stored_count` of them.
pub fn may_store_more(stored_count: u64) -> (r: bool)
    ensures
        r == (stored_count < MAX_FILE_COUNT),
{
    stored_count < MAX_FILE_COUNT
}

} // verus!
