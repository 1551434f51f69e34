//! Options of the `text` commands.

use vstd::prelude::*;
use vstd::std_specs::convert::FromSpecImpl;
use std::str::FromStr;
use crate::cli::CliError;
use crate::utils::same_text;

verus! {

/// The `text` commands.
#[derive(Debug)]
pub enum TextCommand {
    /// Sign a message with a private or shared key.
    Sign(TextSignOptions),
    /// Verify a signed message.
    Verify(TextVerifyOptions),
    /// Generate a new key.
    GenKey(TextGenKeyOptions),
}

/// What to sign, and with which key.
#[derive(Debug)]
pub struct TextSignOptions {
    /// Where the message is read from; `-` is standard input.
    pub input: String,
    /// Where the key is read from.
    pub key: String,
    /// The scheme of the key.
    pub format: TextSignFormat,
}

/// What to verify, and with which key.
#[derive(Debug)]
pub struct TextVerifyOptions {
    /// Where the message is read from; `-` is standard input.
    pub input: String,
    /// Where the key is read from.
    pub key: String,
    /// The scheme of the key.
    pub format: TextSignFormat,
    /// The signature, as text.
    pub signature: String,
}

/// Which key to generate, and where to put it.
#[derive(Debug)]
pub struct TextGenKeyOptions {
    /// The scheme of the key.
    pub format: TextSignFormat,
    /// The directory that receives the key files.
    pub output: String,
}

/// The scheme a key belongs to.
#[derive(Debug, Clone, Copy, PartialEq, Eq, Structural)]
pub enum TextSignFormat {
    /// Symmetric: a keyed hash under a shared 32-byte key.
    Blake3,
    /// Asymmetric: Ed25519 signatures.
    Ed25519,
}

/// The name by which a scheme is chosen on the command line.
pub open spec fn scheme_name(format: TextSignFormat) -> &'static str {
    match format {
        TextSignFormat::Blake3 => "blake3",
        TextSignFormat::Ed25519 => "ed25519",
    }
}

/// The scheme that `name` chooses, if any.
pub open spec fn scheme_named(name: Seq<char>) -> Option<TextSignFormat> {
    if name == "blake3"@ {
        Some(TextSignFormat::Blake3)
    } else if name == "ed25519"@ {
        Some(TextSignFormat::Ed25519)
    } else {
        None
    }
}

impl FromSpecImpl<TextSignFormat> for &'static str {
    open spec fn obeys_from_spec() -> bool {
        true
    }

    open spec fn from_spec(format: TextSignFormat) -> Self {
        scheme_name(format)
    }
}

impl From<TextSignFormat> for &'static str {
    fn from(format: TextSignFormat) -> (name: Self) {
        match format {
            TextSignFormat::Blake3 => "blake3",
            TextSignFormat::Ed25519 => "ed25519",
        }
    }
}

/// Reads the name of a scheme. Names are matched exactly.
pub fn parser_text_sign_format(format: &str) -> (r: Result<TextSignFormat, CliError>)
    ensures
        match r {
            Ok(scheme) => scheme_named(format@) == Some(scheme),
            Err(e) => scheme_named(format@) is None && e == CliError::InvalidScheme,
        },
{
    if same_text(format, "blake3") {
        Ok(TextSignFormat::Blake3)
    } else if same_text(format, "ed25519") {
        Ok(TextSignFormat::Ed25519)
    } else {
        Err(CliError::InvalidScheme)
    }
}

impl FromStr for TextSignFormat {
    type Err = CliError;

    fn from_str(s: &str) -> (r: Result<Self, CliError>)
        ensures
            match r {
                Ok(scheme) => scheme_named(s@) == Some(scheme),
                Err(e) => scheme_named(s@) is None && e == CliError::InvalidScheme,
            },
    {
        parser_text_sign_format(s)
    }
}

/// The name of a scheme chooses that scheme.
pub proof fn lemma_scheme_name_round_trip(format: TextSignFormat)
    ensures
        scheme_named(scheme_name(format)@) == Some(format),
{
    reveal_strlit("blake3");
    reveal_strlit("ed25519");
    assert("blake3"@.len() != "ed25519"@.len());
}

} // verus!
