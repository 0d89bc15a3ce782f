//! The deployment version: the short commit hash that tags a build.

use crate::text::{is_whitespace, lemma_trimmed_ends_visible, trim, trimmed};
use vstd::prelude::*;
use vstd::utf8::{decode_utf8, valid_utf8};

verus! {

/// The error `String::from_utf8` gives for bytes that are not UTF-8.
#[verifier::external_type_specification]
#[verifier::external_body]
pub struct ExFromUtf8Error(std::string::FromUtf8Error);

/// `String::from_utf8` succeeds exactly on valid UTF-8 and then holds the
/// decoded characters.
pub assume_specification[ String::from_utf8 ](vec: Vec<u8>) -> (r: Result<
    String,
    std::string::FromUtf8Error,
>)
    ensures
        r is Ok <==> valid_utf8(vec@),
        r matches Ok(s) ==> s@ == decode_utf8(vec@),
;

/// The version that the raw output `bytes` of the version command stands
/// for: its text without surrounding whitespace.
pub open spec fn sanitized(bytes: Seq<u8>) -> Seq<char> {
    trimmed(decode_utf8(bytes))
}

/// A sanitized version neither starts nor ends with whitespace; in
/// particular it carries no trailing line feed or carriage return.
pub proof fn lemma_sanitized_has_no_line_end(bytes: Seq<u8>)
    ensures
        sanitized(bytes).len() > 0 ==> {
            &&& sanitized(bytes).last() != '\n'
            &&& sanitized(bytes).last() != '\r'
            &&& !is_whitespace(sanitized(bytes).first())
            &&& !is_whitespace(sanitized(bytes).last())
        },
{
    lemma_trimmed_ends_visible(decode_utf8(bytes));
    assert(is_whitespace('\n'));
    assert(is_whitespace('\r'));
}

/// Removes surrounding whitespace, trailing line ends among it, from the
/// output of the version command.
pub fn sanitize_word(word: Vec<u8>) -> (r: String)
    requires
        valid_utf8(word@),
    ensures
        r@ == sanitized(word@),
{
    resolve_version(true, word).unwrap()
}

/// Turns the outcome of the version command into a version.  There is one
/// exactly when the command succeeded and printed valid UTF-8.
pub fn resolve_version(success: bool, output: Vec<u8>) -> (r: Option<String>)
    ensures
        r is Some <==> success && valid_utf8(output@),
        r matches Some(v) ==> v@ == sanitized(output@),
{
    if !success {
        return None;
    }
    match String::from_utf8(output) {
        Ok(text) => Some(trim(text.as_str())),
        Err(_) => None,
    }
}

} // verus!
