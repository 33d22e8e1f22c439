//! How protocol parameters travel inside URLs: as URL-safe base64 without
//! padding, over a JSON list for the attribute names and over plain UTF-8
//! for a single URL.

use crate::error::{Error, ErrorView};
use vstd::prelude::*;
use vstd::string::*;
use vstd::utf8::*;

verus! {

/// The text that `base64::encode_config` gives for `bytes` under
/// `base64::URL_SAFE_NO_PAD`.
pub uninterp spec fn base64url(bytes: Seq<u8>) -> Seq<char>;

/// The bytes that `base64::decode_config` gives for `text` under
/// `base64::URL_SAFE_NO_PAD`, or `None` where it gives an error.
pub uninterp spec fn base64url_decoded(text: Seq<char>) -> Option<Seq<u8>>;

/// The JSON text that `serde_json::to_vec` gives for a list of strings.
pub uninterp spec fn json_of_names(names: Seq<Seq<char>>) -> Seq<u8>;

/// The list of strings that `serde_json::from_slice` reads from `json`, or
/// the description of the error that it gives.
pub uninterp spec fn names_of_json(json: Seq<u8>) -> Result<Seq<Seq<char>>, Seq<char>>;

/// Calls `base64::encode_config` with `base64::URL_SAFE_NO_PAD`.
///
/// Claimed without proof: the result is the text named `base64url`, and
/// decoding that text under the same configuration gives the bytes back.
#[verifier::external_body]
fn base64_encode(bytes: &[u8]) -> (text: String)
    ensures
        text@ == base64url(bytes@),
        base64url_decoded(text@) == Some(bytes@),
{
    base64::encode_config(bytes, base64::URL_SAFE_NO_PAD)
}

/// Calls `base64::decode_config` with `base64::URL_SAFE_NO_PAD`.
///
/// Claimed without proof: the outcome is the one named `base64url_decoded`.
#[verifier::external_body]
fn base64_decode(text: &str) -> (r: Result<Vec<u8>, base64::DecodeError>)
    ensures
        match r {
            Ok(bytes) => base64url_decoded(text@) == Some(bytes@),
            Err(_) => base64url_decoded(text@) is None,
        },
{
    base64::decode_config(text, base64::URL_SAFE_NO_PAD)
}

/// Calls `serde_json::to_vec` on a list of strings; an error comes back as
/// its description.
///
/// Claimed without proof: the call succeeds (it fails only where a value
/// refuses to be serialised or a map has keys that are not strings, and a
/// list of strings has neither), the result is the text named
/// `json_of_names`, and reading that text gives the list back.
#[verifier::external_body]
fn json_encode_names(names: &Vec<String>) -> (r: Result<Vec<u8>, String>)
    ensures
        match r {
            Ok(json) => json@ == json_of_names(names.deep_view()) && names_of_json(json@) == Ok::<
                Seq<Seq<char>>,
                Seq<char>,
            >(names.deep_view()),
            Err(_) => false,
        },
{
    match serde_json::to_vec(names) {
        Ok(json) => Ok(json),
        Err(e) => Err(e.to_string()),
    }
}

/// Calls `serde_json::from_slice` for a list of strings; an error comes back
/// as its description.
///
/// Claimed without proof: the outcome is the one named `names_of_json`.
#[verifier::external_body]
fn json_decode_names(json: &[u8]) -> (r: Result<Vec<String>, String>)
    ensures
        match r {
            Ok(names) => names_of_json(json@) == Ok::<Seq<Seq<char>>, Seq<char>>(
                names.deep_view(),
            ),
            Err(e) => names_of_json(json@) == Err::<Seq<Seq<char>>, Seq<char>>(e@),
        },
{
    match serde_json::from_slice::<Vec<String>>(json) {
        Ok(names) => Ok(names),
        Err(e) => Err(e.to_string()),
    }
}

/// `core::str::from_utf8` succeeds exactly on valid UTF-8, and the text it
/// returns is made of the bytes it was given.
pub assume_specification<'a>[ core::str::from_utf8 ](v: &'a [u8]) -> (r: Result<
    &'a str,
    core::str::Utf8Error,
>)
    ensures
        match r {
            Ok(text) => valid_utf8(v@) && text.spec_bytes() == v@,
            Err(_) => !valid_utf8(v@),
        },
;

/// The URL segment that carries a list of attribute names.
pub open spec fn attributes_segment(names: Seq<Seq<char>>) -> Seq<char> {
    base64url(json_of_names(names))
}

/// The URL segment that carries a URL.
pub open spec fn url_segment(url: Seq<char>) -> Seq<char> {
    base64url(encode_utf8(url))
}

/// The list of attribute names that a URL segment carries, or why it carries
/// none.
pub open spec fn decoded_attributes(segment: Seq<char>) -> Result<Seq<Seq<char>>, ErrorView> {
    match base64url_decoded(segment) {
        None => Err(ErrorView::Decode),
        Some(json) => match names_of_json(json) {
            Ok(names) => Ok(names),
            Err(description) => Err(ErrorView::Json(description)),
        },
    }
}

/// The URL that a URL segment carries, or why it carries none.
pub open spec fn decoded_url(segment: Seq<char>) -> Result<Seq<char>, ErrorView> {
    match base64url_decoded(segment) {
        None => Err(ErrorView::Decode),
        Some(bytes) => if valid_utf8(bytes) {
            Ok(decode_utf8(bytes))
        } else {
            Err(ErrorView::Utf)
        },
    }
}

/// Encodes bytes as a URL segment. Decoding the segment gives the bytes back.
pub fn encode_segment(bytes: &[u8]) -> (segment: String)
    ensures
        segment@ == base64url(bytes@),
        base64url_decoded(segment@) == Some(bytes@),
{
    base64_encode(bytes)
}

/// Decodes a URL segment into the bytes it carries.
pub fn decode_segment(segment: &str) -> (r: Result<Vec<u8>, Error>)
    ensures
        match r {
            Ok(bytes) => base64url_decoded(segment@) == Some(bytes@),
            Err(e) => base64url_decoded(segment@) is None && e@ == ErrorView::Decode,
        },
{
    match base64_decode(segment) {
        Ok(bytes) => Ok(bytes),
        Err(e) => Err(Error::Decode(e)),
    }
}

/// Encodes a list of attribute names as a URL segment. Decoding the segment
/// gives the list back.
pub fn encode_attributes(names: &Vec<String>) -> (r: Result<String, Error>)
    ensures
        match r {
            Ok(segment) => segment@ == attributes_segment(names.deep_view())
                && decoded_attributes(segment@) == Ok::<Seq<Seq<char>>, ErrorView>(
                names.deep_view(),
            ),
            Err(_) => false,
        },
{
    match json_encode_names(names) {
        Ok(json) => Ok(encode_segment(json.as_slice())),
        Err(description) => Err(Error::Json(description)),
    }
}

/// Decodes a URL segment into the list of attribute names it carries.
pub fn decode_attributes(segment: &str) -> (r: Result<Vec<String>, Error>)
    ensures
        match r {
            Ok(names) => decoded_attributes(segment@) == Ok::<Seq<Seq<char>>, ErrorView>(
                names.deep_view(),
            ),
            Err(e) => decoded_attributes(segment@) == Err::<Seq<Seq<char>>, ErrorView>(e@),
        },
{
    let json = decode_segment(segment)?;
    match json_decode_names(json.as_slice()) {
        Ok(names) => Ok(names),
        Err(description) => Err(Error::Json(description)),
    }
}

/// Encodes a URL as a URL segment. Decoding the segment gives the URL back.
pub fn encode_url(url: &str) -> (segment: String)
    ensures
        segment@ == url_segment(url@),
        decoded_url(segment@) == Ok::<Seq<char>, ErrorView>(url@),
{
    proof {
        encode_utf8_valid_utf8(url@);
        encode_utf8_decode_utf8(url@);
    }
    encode_segment(url.as_bytes())
}

/// Decodes a URL segment into the URL it carries.
pub fn decode_url(segment: &str) -> (r: Result<String, Error>)
    ensures
        match r {
            Ok(url) => decoded_url(segment@) == Ok::<Seq<char>, ErrorView>(url@),
            Err(e) => decoded_url(segment@) == Err::<Seq<char>, ErrorView>(e@),
        },
{
    let bytes = decode_segment(segment)?;
    match core::str::from_utf8(bytes.as_slice()) {
        Ok(text) => {
            proof {
                encode_utf8_decode_utf8(text@);
            }
            Ok(text.to_owned())
        },
        Err(e) => Err(Error::Utf(e)),
    }
}

} // verus!
