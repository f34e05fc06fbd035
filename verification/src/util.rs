//! Helpers that the rest of the crate shares: joining optional lists, and
//! turning the bytes of a file into text.

use vstd::prelude::*;
use vstd::string::StringExecFns;
use vstd::utf8::{decode_utf8, valid_utf8};
use crate::error::{KcheckError, KcheckResult};

verus! {

/// The contents of an optional list.
pub open spec fn items<T>(list: Option<Vec<T>>) -> Option<Seq<T>> {
    match list {
        Some(v) => Some(v@),
        None => None,
    }
}

/// Two optional lists joined: absent where both are, else the items of the
/// first followed by those of the second.
pub open spec fn joined<T>(orig: Option<Seq<T>>, other: Option<Seq<T>>) -> Option<Seq<T>> {
    match other {
        None => orig,
        Some(more) => match orig {
            None => Some(more),
            Some(first) => Some(first + more),
        },
    }
}

/// Appends the second optional list to the first.
pub fn option_vector_append<T>(orig: Option<Vec<T>>, other: Option<Vec<T>>) -> (r: Option<Vec<T>>)
    ensures
        items(r) == joined(items(orig), items(other)),
{
    match other {
        None => orig,
        Some(mut more) => match orig {
            None => Some(more),
            Some(mut first) => {
                first.append(&mut more);
                Some(first)
            },
        },
    }
}

/// `std::io::Error`, the error of reading: carried from where it arises to
/// where it is turned into an error of this crate, and never looked into.
#[verifier::external_type_specification]
#[verifier::external_body]
pub struct ExIoError(std::io::Error);

/// The text that `flate2::read::GzDecoder` gives for these bytes when it
/// is read to its end as a string; none where reading gives an error. The
/// decoder reads the first member of a gzip file.
pub uninterp spec fn gzip_text(contents: Seq<u8>) -> Option<Seq<char>>;

/// `flate2::read::GzDecoder` over a byte slice, read to its end as a
/// string with `std::io::Read::read_to_string`: the text, or the error that
/// decoding or the encoding of the text gave. What comes back depends on
/// the bytes alone, and `gzip_text` is the name of it.
#[verifier::external_body]
fn gunzip(contents: &[u8]) -> (r: Result<String, std::io::Error>)
    ensures
        match r {
            Ok(text) => gzip_text(contents@) == Some(text@),
            Err(_) => gzip_text(contents@) is None,
        },
{
    let mut decoder = flate2::read::GzDecoder::new(contents);
    let mut text = String::new();
    match std::io::Read::read_to_string(&mut decoder, &mut text) {
        Ok(_) => Ok(text),
        Err(error) => Err(error),
    }
}

/// The message of an `std::io::Error`, as its `Display` writes it. Nothing
/// is claimed of the text.
#[verifier::external_body]
fn io_error_message(error: &std::io::Error) -> (r: String) {
    error.to_string()
}

/// `std::str::from_utf8`: the text that the bytes encode, where they are
/// valid UTF-8, and nothing where they are not.
#[verifier::external_body]
fn utf8_text(contents: &[u8]) -> (r: Option<String>)
    ensures
        r is Some <==> valid_utf8(contents@),
        r is Some ==> r->0@ == decode_utf8(contents@),
{
    match std::str::from_utf8(contents) {
        Ok(text) => Some(text.to_string()),
        Err(_) => None,
    }
}

/// `std::path::Path::extension` of a path, where it is valid Unicode.
/// Which part of a path is its extension depends on the platform, so
/// nothing is claimed of the result.
#[verifier::external_body]
pub(crate) fn path_extension(path: &str) -> (r: Option<String>) {
    match std::path::Path::new(path).extension() {
        Some(extension) => match extension.to_str() {
            Some(text) => Some(text.to_string()),
            None => None,
        },
        None => None,
    }
}

/// Inflates the contents of a gzip file into a string.
///
/// Succeeds exactly where the bytes hold a gzip member whose data is valid
/// text; every failure is an `IoError`.
pub fn inflate_gzip_file(contents: &[u8]) -> (r: KcheckResult<String>)
    ensures
        match r {
            Ok(text) => gzip_text(contents@) == Some(text@),
            Err(error) => gzip_text(contents@) is None && error is IoError,
        },
{
    match gunzip(contents) {
        Ok(text) => Ok(text),
        Err(error) => Err(KcheckError::IoError(io_error_message(&error))),
    }
}

/// The message for file contents that are no text.
pub open spec fn not_utf8_message() -> Seq<char> {
    "stream did not contain valid UTF-8"@
}

/// Reads the contents of a file as a string.
///
/// Succeeds exactly where the bytes are valid UTF-8.
pub fn file_contents_as_string(contents: &[u8]) -> (r: KcheckResult<String>)
    ensures
        match r {
            Ok(text) => valid_utf8(contents@) && text@ == decode_utf8(contents@),
            Err(error) => !valid_utf8(contents@) && error@ == crate::error::Failure::IoError(
                not_utf8_message(),
            ),
        },
{
    match utf8_text(contents) {
        Some(text) => Ok(text),
        None => Err(KcheckError::IoError(String::from_str("stream did not contain valid UTF-8"))),
    }
}

} // verus!
