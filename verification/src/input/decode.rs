//! Decoders that documents are compiled with.
//!
//! Bytes are decoded by `String::from_utf8_lossy`, HTML entities by the
//! `htmlescape` crate and URLs by the `url` crate. Nothing here is proved
//! about them: each function below states what its source documents, over
//! names for what it computes.

use vstd::prelude::*;
use vstd::utf8::{decode_utf8, valid_utf8};

verus! {

#[verifier::external_type_specification]
#[verifier::external_body]
pub struct ExUrl(url::Url);

#[verifier::external_type_specification]
#[verifier::external_body]
pub struct ExUrlParseError(url::ParseError);

#[verifier::external_type_specification]
#[verifier::external_body]
pub struct ExDecodeErr(htmlescape::DecodeErr);

/// The text that `bytes` decode to as UTF-8, with the replacement
/// character in place of each invalid sequence.
pub uninterp spec fn utf8_lossy(bytes: Seq<u8>) -> Seq<char>;

/// `text` with its HTML entities replaced by the characters that they
/// stand for, or nothing where an entity is malformed or unknown.
pub uninterp spec fn html_decoded(text: Seq<char>) -> Option<Seq<char>>;

/// The serialization that a parsed URL holds (`Url::as_str`).
pub uninterp spec fn url_text(url: url::Url) -> Seq<char>;

/// The serialization of the absolute URL that `input` parses to, or
/// nothing where it does not parse.
pub uninterp spec fn url_parsed(input: Seq<char>) -> Option<Seq<char>>;

/// The host of the URL with the given serialization, if it has one.
pub uninterp spec fn url_host(serialization: Seq<char>) -> Option<Seq<char>>;

/// Calls `String::from_utf8_lossy`. Valid UTF-8 decodes to the text that
/// it encodes.
#[verifier::external_body]
pub(crate) fn decode_lossy(bytes: &[u8]) -> (r: String)
    ensures
        r@ == utf8_lossy(bytes@),
        valid_utf8(bytes@) ==> r@ == decode_utf8(bytes@),
{
    String::from_utf8_lossy(bytes).into_owned()
}

/// Calls `htmlescape::decode_html`, which fails on a malformed or unknown
/// entity.
#[verifier::external_body]
pub(crate) fn decode_entities(text: &str) -> (r: Result<String, htmlescape::DecodeErr>)
    ensures
        match r {
            Ok(decoded) => html_decoded(text@) == Some(decoded@),
            Err(_) => html_decoded(text@) is None,
        },
{
    htmlescape::decode_html(text)
}

/// Calls `Url::parse`, which accepts absolute URLs only.
#[verifier::external_body]
pub(crate) fn parse_url(input: &str) -> (r: Result<url::Url, url::ParseError>)
    ensures
        match r {
            Ok(url) => url_parsed(input@) == Some(url_text(url)),
            Err(_) => url_parsed(input@) is None,
        },
{
    url::Url::parse(input)
}

/// Calls `Url::host_str`: the host part of the serialization, where the
/// URL has a host.
#[verifier::external_body]
pub(crate) fn host_of(url: &url::Url) -> (r: Option<String>)
    ensures
        match r {
            Some(host) => url_host(url_text(*url)) == Some(host@),
            None => url_host(url_text(*url)) is None,
        },
{
    url.host_str().map(String::from)
}

} // verus!
