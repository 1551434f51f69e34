//! Options of the `base64` commands.

use vstd::prelude::*;
use vstd::std_specs::convert::FromSpecImpl;
use std::str::FromStr;
use crate::cli::CliError;
use crate::utils::same_text;

verus! {

/// The `base64` commands.
#[derive(Debug)]
pub enum Base64Command {
    /// Encode bytes as text.
    Encode(Base64EncodeOptions),
    /// Decode text to bytes.
    Decode(Base64DecodeOptions),
}

/// What to encode, and how.
#[derive(Debug)]
pub struct Base64EncodeOptions {
    /// Where the bytes are read from; `-` is standard input.
    pub input: String,
    /// The alphabet to encode with.
    pub format: Base64Format,
}

/// What to decode, and how.
#[derive(Debug)]
pub struct Base64DecodeOptions {
    /// Where the text is read from; `-` is standard input.
    pub input: String,
    /// The alphabet that the text is in.
    pub format: Base64Format,
}

/// A base64 alphabet together with its padding rule.
#[derive(Debug, Clone, Copy, PartialEq, Eq, Structural)]
pub enum Base64Format {
    /// The URL-safe alphabet, without padding.
    UrlSafe,
    /// The standard alphabet, with padding.
    Standard,
}

/// The name by which a format is chosen on the command line.
pub open spec fn base64_format_name(format: Base64Format) -> Seq<char> {
    match format {
        Base64Format::UrlSafe => "url_safe"@,
        Base64Format::Standard => "standard"@,
    }
}

/// The format that `name` chooses, if any.
pub open spec fn base64_format_named(name: Seq<char>) -> Option<Base64Format> {
    if name == "url_safe"@ {
        Some(Base64Format::UrlSafe)
    } else if name == "standard"@ {
        Some(Base64Format::Standard)
    } else {
        None
    }
}

impl FromSpecImpl<Base64Format> for String {
    open spec fn obeys_from_spec() -> bool {
        false
    }

    open spec fn from_spec(format: Base64Format) -> Self {
        arbitrary()
    }
}

impl From<Base64Format> for String {
    fn from(format: Base64Format) -> (name: Self)
        ensures
            name@ == base64_format_name(format),
    {
        match format {
            Base64Format::UrlSafe => "url_safe".to_owned(),
            Base64Format::Standard => "standard".to_owned(),
        }
    }
}

/// Reads the name of a format. Names are matched exactly.
pub fn parser_base64_format(format: &str) -> (r: Result<Base64Format, CliError>)
    ensures
        match r {
            Ok(chosen) => base64_format_named(format@) == Some(chosen),
            Err(e) => base64_format_named(format@) is None && (e matches CliError::InvalidBase64Format {
                format: refused,
            } && refused@ == format@),
        },
{
    if same_text(format, "url_safe") {
        Ok(Base64Format::UrlSafe)
    } else if same_text(format, "standard") {
        Ok(Base64Format::Standard)
    } else {
        Err(CliError::InvalidBase64Format { format: format.to_owned() })
    }
}

impl FromStr for Base64Format {
    type Err = CliError;

    fn from_str(s: &str) -> (r: Result<Self, CliError>)
        ensures
            match r {
                Ok(chosen) => base64_format_named(s@) == Some(chosen),
                Err(e) => base64_format_named(s@) is None && (e matches CliError::InvalidBase64Format {
                    format: refused,
                } && refused@ == s@),
            },
    {
        parser_base64_format(s)
    }
}

/// The name of a format chooses that format.
pub proof fn lemma_base64_format_name_round_trip(format: Base64Format)
    ensures
        base64_format_named(base64_format_name(format)) == Some(format),
{
    reveal_strlit("url_safe");
    reveal_strlit("standard");
    assert("url_safe"@[0] != "standard"@[0]);
}

} // verus!
