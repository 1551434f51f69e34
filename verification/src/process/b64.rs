//! Bytes as base64 text and back, through the `base64` crate.

use vstd::prelude::*;
use vstd::utf8::{decode_utf8, valid_utf8};
use base64::engine::general_purpose::{STANDARD, URL_SAFE_NO_PAD};
use base64::{DecodeError, Engine};
use std::string::FromUtf8Error;
use crate::cli::base64_options::Base64Format;

verus! {

/// Why text could not be decoded.
#[derive(Debug, Clone, Copy, PartialEq, Eq, Structural)]
pub enum Base64Error {
    /// The text is not base64 in the chosen format.
    InvalidEncoding,
    /// The decoded bytes are not UTF-8.
    InvalidUtf8,
}

impl Base64Error {
    /// The text of `message`.
    pub open spec fn message_text(&self) -> &'static str {
        match self {
            Base64Error::InvalidEncoding => "invalid base64 text",
            Base64Error::InvalidUtf8 => "decoded bytes are not UTF-8",
        }
    }

    /// A short line for the user.
    pub fn message(&self) -> (text: &'static str)
        ensures
            text == self.message_text(),
    {
        match self {
            Base64Error::InvalidEncoding => "invalid base64 text",
            Base64Error::InvalidUtf8 => "decoded bytes are not UTF-8",
        }
    }
}

/// The base64 text of `input`, as `Engine::encode` gives it: in the URL-safe
/// alphabet without padding where `url_safe` holds, else in the standard
/// alphabet with padding.
pub uninterp spec fn base64_text(input: Seq<u8>, url_safe: bool) -> Seq<char>;

/// The bytes that `Engine::decode` reads from `text`, or `None` where it
/// refuses the text. The engines are those of `base64_text`.
pub uninterp spec fn base64_bytes(text: Seq<char>, url_safe: bool) -> Option<Seq<u8>>;

/// `text` without the whitespace at its two ends, as `str::trim` gives it.
pub uninterp spec fn trimmed(text: Seq<char>) -> Seq<char>;

/// The error of the `base64` crate. This library reads nothing of it.
#[verifier::external_type_specification]
#[verifier::external_body]
pub struct ExDecodeError(DecodeError);

/// The error of `String::from_utf8`. This library reads nothing of it.
#[verifier::external_type_specification]
#[verifier::external_body]
pub struct ExFromUtf8Error(FromUtf8Error);

/// `str::trim` depends on the characters of its argument alone.
pub assume_specification[ str::trim ](text: &str) -> (inner: &str)
    ensures
        inner@ == trimmed(text@),
;

/// `String::from_utf8` succeeds on exactly the byte strings that are UTF-8,
/// and then gives the text that they encode.
pub assume_specification[ String::from_utf8 ](bytes: Vec<u8>) -> (r: Result<String, FromUtf8Error>)
    ensures
        r is Ok <==> valid_utf8(bytes@),
        r matches Ok(text) ==> text@ == decode_utf8(bytes@),
;

/// Calls `Engine::encode` of `URL_SAFE_NO_PAD`. The text is a function of the
/// input alone, and the same engine decodes it to the input. An input too
/// long for the length of its text to fit in `usize` is left out.
#[verifier::external_body]
fn encode_url_safe(input: &[u8]) -> (text: String)
    requires
        input@.len() / 3 * 4 + 4 <= usize::MAX,
    ensures
        text@ == base64_text(input@, true),
        base64_bytes(text@, true) == Some(input@),
{
    URL_SAFE_NO_PAD.encode(input)
}

/// Calls `Engine::encode` of `STANDARD`. The text is a function of the input
/// alone, and the same engine decodes it to the input. An input too long for
/// the length of its text to fit in `usize` is left out.
#[verifier::external_body]
fn encode_standard(input: &[u8]) -> (text: String)
    requires
        input@.len() / 3 * 4 + 4 <= usize::MAX,
    ensures
        text@ == base64_text(input@, false),
        base64_bytes(text@, false) == Some(input@),
{
    STANDARD.encode(input)
}

/// Calls `Engine::decode` of `URL_SAFE_NO_PAD`. Whether it succeeds, and with
/// which bytes, is a function of the text alone.
#[verifier::external_body]
fn decode_url_safe(text: &str) -> (r: Result<Vec<u8>, DecodeError>)
    ensures
        match r {
            Ok(bytes) => base64_bytes(text@, true) == Some(bytes@),
            Err(_) => base64_bytes(text@, true) is None,
        },
{
    URL_SAFE_NO_PAD.decode(text)
}

/// Calls `Engine::decode` of `STANDARD`. Whether it succeeds, and with which
/// bytes, is a function of the text alone.
#[verifier::external_body]
fn decode_standard(text: &str) -> (r: Result<Vec<u8>, DecodeError>)
    ensures
        match r {
            Ok(bytes) => base64_bytes(text@, false) == Some(bytes@),
            Err(_) => base64_bytes(text@, false) is None,
        },
{
    STANDARD.decode(text)
}

/// Whether a format is the URL-safe one.
pub open spec fn is_url_safe(format: Base64Format) -> bool {
    format == Base64Format::UrlSafe
}

/// What decoding `bytes` as text gives: the text, if they are UTF-8.
pub open spec fn text_outcome(bytes: Seq<u8>) -> Result<Seq<char>, Base64Error> {
    if valid_utf8(bytes) {
        Ok(decode_utf8(bytes))
    } else {
        Err(Base64Error::InvalidUtf8)
    }
}

/// What decoding `input` gives: the text that its base64, without the
/// whitespace around it, encodes.
pub open spec fn decode_outcome(input: Seq<char>, format: Base64Format) -> Result<
    Seq<char>,
    Base64Error,
> {
    match base64_bytes(trimmed(input), is_url_safe(format)) {
        Some(bytes) => text_outcome(bytes),
        None => Err(Base64Error::InvalidEncoding),
    }
}

/// The base64 text of `input` in the given format. Decoding the text in the
/// same format gives `input` back.
pub fn process_encode(input: &[u8], format: &Base64Format) -> (text: String)
    requires
        input@.len() / 3 * 4 + 4 <= usize::MAX,
    ensures
        text@ == base64_text(input@, is_url_safe(*format)),
        base64_bytes(text@, is_url_safe(*format)) == Some(input@),
{
    match format {
        Base64Format::UrlSafe => encode_url_safe(input),
        Base64Format::Standard => encode_standard(input),
    }
}

/// The bytes that `text` encodes in the given format.
pub fn decode_bytes(text: &str, format: &Base64Format) -> (r: Result<Vec<u8>, Base64Error>)
    ensures
        match r {
            Ok(bytes) => base64_bytes(text@, is_url_safe(*format)) == Some(bytes@),
            Err(e) => base64_bytes(text@, is_url_safe(*format)) is None && e
                == Base64Error::InvalidEncoding,
        },
{
    let decoded = match format {
        Base64Format::UrlSafe => decode_url_safe(text),
        Base64Format::Standard => decode_standard(text),
    };
    match decoded {
        Ok(bytes) => Ok(bytes),
        Err(_) => Err(Base64Error::InvalidEncoding),
    }
}

/// `bytes` as text, if they are UTF-8.
pub fn text_of(bytes: Vec<u8>) -> (r: Result<String, Base64Error>)
    ensures
        match r {
            Ok(text) => text_outcome(bytes@) == Ok::<Seq<char>, Base64Error>(text@),
            Err(e) => text_outcome(bytes@) == Err::<Seq<char>, Base64Error>(e),
        },
{
    match String::from_utf8(bytes) {
        Ok(text) => Ok(text),
        Err(_) => Err(Base64Error::InvalidUtf8),
    }
}

/// Decodes base64 text that encodes text. Whitespace around `input` is
/// ignored.
pub fn process_decode(input: &str, format: &Base64Format) -> (r: Result<String, Base64Error>)
    ensures
        match r {
            Ok(text) => decode_outcome(input@, *format) == Ok::<Seq<char>, Base64Error>(text@),
            Err(e) => decode_outcome(input@, *format) == Err::<Seq<char>, Base64Error>(e),
        },
{
    let bytes = decode_bytes(input.trim(), format)?;
    text_of(bytes)
}

} // verus!
