//! Options of the `csv` command.

use vstd::prelude::*;
use vstd::std_specs::convert::FromSpecImpl;
use std::str::FromStr;
use crate::cli::CliError;
use crate::utils::same_text;

verus! {

/// What to convert, and into what.
#[derive(Debug)]
pub struct CsvOptions {
    /// Where the CSV is read from.
    pub input: String,
    /// Where the result is written.
    pub output: String,
    /// Whether the first record names the columns.
    pub header: bool,
    /// The character between fields.
    pub delimiter: char,
    /// The format of the result.
    pub format: OutputFormat,
}

/// A format that records can be written in.
#[derive(Debug, Clone, Copy, PartialEq, Eq, Structural)]
pub enum OutputFormat {
    Json,
    Yaml,
}

/// The name of a format, in lowercase.
pub open spec fn output_format_name(format: OutputFormat) -> &'static str {
    match format {
        OutputFormat::Json => "json",
        OutputFormat::Yaml => "yaml",
    }
}

impl FromSpecImpl<OutputFormat> for &'static str {
    open spec fn obeys_from_spec() -> bool {
        true
    }

    open spec fn from_spec(format: OutputFormat) -> Self {
        output_format_name(format)
    }
}

impl From<OutputFormat> for &'static str {
    fn from(format: OutputFormat) -> (name: Self) {
        match format {
            OutputFormat::Json => "json",
            OutputFormat::Yaml => "yaml",
        }
    }
}

/// `text` in lowercase, as `str::to_lowercase` gives it.
pub uninterp spec fn lowercase(text: Seq<char>) -> Seq<char>;

/// `str::to_lowercase` depends on the characters of its argument alone.
pub assume_specification[ str::to_lowercase ](text: &str) -> (lower: String)
    ensures
        lower@ == lowercase(text@),
;

/// The format that a name chooses once it is in lowercase, if any.
pub open spec fn output_format_named(lowered: Seq<char>) -> Option<OutputFormat> {
    if lowered == "json"@ {
        Some(OutputFormat::Json)
    } else if lowered == "yaml"@ {
        Some(OutputFormat::Yaml)
    } else {
        None
    }
}

/// Picks the format that `lowered` names. `given` is the name as the user
/// wrote it, for the error.
pub fn output_format_of(lowered: &str, given: &str) -> (r: Result<OutputFormat, CliError>)
    ensures
        match r {
            Ok(chosen) => output_format_named(lowered@) == Some(chosen),
            Err(e) => output_format_named(lowered@) is None && (e matches CliError::InvalidOutputFormat {
                format: refused,
            } && refused@ == given@),
        },
{
    if same_text(lowered, "json") {
        Ok(OutputFormat::Json)
    } else if same_text(lowered, "yaml") {
        Ok(OutputFormat::Yaml)
    } else {
        Err(CliError::InvalidOutputFormat { format: given.to_owned() })
    }
}

/// Reads the name of an output format, in any mix of upper and lower case.
pub fn parse_output_format(format: &str) -> (r: Result<OutputFormat, CliError>)
    ensures
        match r {
            Ok(chosen) => output_format_named(lowercase(format@)) == Some(chosen),
            Err(e) => output_format_named(lowercase(format@)) is None && (e matches CliError::InvalidOutputFormat {
                format: refused,
            } && refused@ == format@),
        },
{
    let lowered = format.to_lowercase();
    output_format_of(lowered.as_str(), format)
}

impl FromStr for OutputFormat {
    type Err = CliError;

    fn from_str(s: &str) -> (r: Result<Self, CliError>)
        ensures
            match r {
                Ok(chosen) => output_format_named(lowercase(s@)) == Some(chosen),
                Err(e) => output_format_named(lowercase(s@)) is None && (e matches CliError::InvalidOutputFormat {
                    format: refused,
                } && refused@ == s@),
            },
    {
        parse_output_format(s)
    }
}

/// The lowercase name of a format chooses that format.
pub proof fn lemma_output_format_name_chooses(format: OutputFormat)
    ensures
        output_format_named(output_format_name(format)@) == Some(format),
{
    reveal_strlit("json");
    reveal_strlit("yaml");
    assert("json"@[0] != "yaml"@[0]);
}

} // verus!
