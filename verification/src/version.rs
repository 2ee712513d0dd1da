//! The version of the package, read out of its identifier.
//!
//! The build tool prints the identifier as one line of text such as
//! `path+file:///work/tool#0.1.0`. The version is what stands between the
//! first `#` and the next one (or the end), without the white space around
//! it.
use crate::failure::{message_of, Failure, FailureView};
use crate::text::{
    chars_of, find_char, first_at, is_trimmed, lemma_first_at, lemma_trim_is_trimmed, trim,
    trim_bounds,
};
use vstd::prelude::*;
use vstd::utf8::{decode_utf8, valid_utf8};

verus! {

/// The version that the identifier `text` names, if it names one: the
/// trimmed text after the first `#`, up to the next `#`. An identifier
/// without `#`, or with nothing but white space there, names none.
pub open spec fn version_of(text: Seq<char>) -> Option<Seq<char>> {
    let hash = first_at(text, '#', 0);
    if hash == text.len() {
        None
    } else {
        let end = first_at(text, '#', hash + 1);
        let version = trim(text.subrange(hash + 1, end));
        if version.len() == 0 {
            None
        } else {
            Some(version)
        }
    }
}

/// The version that the output of the identifier query names, or why it
/// names none: the output is no UTF-8 text, or the text holds no version.
pub open spec fn resolved_version(stdout: Seq<u8>) -> Result<Seq<char>, FailureView> {
    if !valid_utf8(stdout) {
        Err(FailureView::NotText)
    } else {
        match version_of(decode_utf8(stdout)) {
            Some(version) => Ok(version),
            None => Err(FailureView::VersionNotFound { input: decode_utf8(stdout) }),
        }
    }
}

/// Trusted: `String::from_utf8` of the standard library succeeds exactly on
/// well-formed UTF-8, and then returns the text that the bytes encode.
#[verifier::external_body]
fn text_from_utf8(bytes: Vec<u8>) -> (text: Option<String>)
    ensures
        text is Some <==> valid_utf8(bytes@),
        text is Some ==> text->0@ == decode_utf8(bytes@),
{
    String::from_utf8(bytes).ok()
}

/// Reads the version out of a package identifier; see [`version_of`].
pub fn parse_version(pkg_id: &str) -> (version: Option<String>)
    ensures
        version.deep_view() == version_of(pkg_id@),
{
    let chars = chars_of(pkg_id);
    let len = chars.len();
    let hash = find_char(chars.as_slice(), '#', 0);
    if hash == len {
        return None;
    }
    let end = find_char(chars.as_slice(), '#', hash + 1);
    let (from, to) = trim_bounds(chars.as_slice(), hash + 1, end);
    if from == to {
        return None;
    }
    Some(String::from_str(pkg_id.substring_char(from, to)))
}

/// Reads the version out of what the identifier query printed; see
/// [`resolved_version`].
pub fn resolve_version(stdout: Vec<u8>) -> (version: Result<String, Failure>)
    ensures
        match version {
            Ok(text) => resolved_version(stdout@) == Ok::<Seq<char>, FailureView>(text@),
            Err(failure) => resolved_version(stdout@) == Err::<Seq<char>, FailureView>(failure@),
        },
{
    match text_from_utf8(stdout) {
        None => Err(Failure::NotText),
        Some(pkg_id) => match parse_version(pkg_id.as_str()) {
            Some(version) => Ok(version),
            None => Err(Failure::VersionNotFound { input: pkg_id }),
        },
    }
}

/// A version that was read out of an identifier is not empty and has no
/// white space at either end.
pub proof fn lemma_version_is_trimmed(text: Seq<char>)
    requires
        version_of(text) is Some,
    ensures
        version_of(text)->0.len() > 0,
        is_trimmed(version_of(text)->0),
{
    let hash = first_at(text, '#', 0);
    let end = first_at(text, '#', hash + 1);
    lemma_trim_is_trimmed(text.subrange(hash + 1, end));
}

/// A version that was read out of the query's output is not empty.
pub proof fn lemma_resolved_version_is_not_empty(stdout: Seq<u8>)
    requires
        resolved_version(stdout) is Ok,
    ensures
        resolved_version(stdout)->Ok_0.len() > 0,
{
}

/// An identifier without `#` names no version.
pub proof fn lemma_no_hash_no_version(text: Seq<char>)
    requires
        !text.contains('#'),
    ensures
        version_of(text) is None,
{
    lemma_first_at(text, '#', 0);
    let hash = first_at(text, '#', 0);
    if hash < text.len() {
        assert(text.contains(text[hash]));
    }
}

/// When the query's output is text without `#`, the failure carries that
/// text, and so does its message.
pub proof fn lemma_missing_hash_is_reported(stdout: Seq<u8>)
    requires
        valid_utf8(stdout),
        !decode_utf8(stdout).contains('#'),
    ensures
        resolved_version(stdout) == Err::<Seq<char>, FailureView>(
            FailureView::VersionNotFound { input: decode_utf8(stdout) },
        ),
        message_of(FailureView::VersionNotFound { input: decode_utf8(stdout) })
            == "Version not found in "@ + decode_utf8(stdout),
{
    lemma_no_hash_no_version(decode_utf8(stdout));
}

} // verus!
