//! The options of each command, as plain values, and the checks that each
//! argument passes before a command runs.

pub mod base64_options;
pub mod csv_options;
pub mod gen_pass_options;
pub mod http_options;
pub mod text_options;

use vstd::prelude::*;
use vstd::string::StringExecFns;
use crate::cli::base64_options::Base64Command;
use crate::cli::csv_options::CsvOptions;
use crate::cli::gen_pass_options::GenPassOptions;
use crate::cli::text_options::TextCommand;
use crate::utils::same_text;

verus! {

/// The command line as a whole.
#[derive(Debug)]
pub struct Cli {
    pub command: Commands,
}

/// One command with its options.
#[derive(Debug)]
pub enum Commands {
    /// Convert a CSV file.
    Csv(CsvOptions),
    /// Generate a password.
    GenPass(GenPassOptions),
    /// Encode or decode base64.
    Base64(Base64Command),
    /// Sign or verify text, or generate a key.
    Text(TextCommand),
}

/// Why an argument was refused.
#[derive(Debug, PartialEq, Eq)]
pub enum CliError {
    /// No file of this name exists.
    InputNotFound { path: String },
    /// No directory of this name exists.
    OutputNotDirectory { path: String },
    /// The name is that of no signing scheme.
    InvalidScheme,
    /// The name is that of no base64 alphabet.
    InvalidBase64Format { format: String },
    /// The name is that of no output format.
    InvalidOutputFormat { format: String },
}

impl CliError {
    /// The text of `message`.
    pub open spec fn message_text(&self) -> Seq<char> {
        match self {
            CliError::InputNotFound { path } => "Input file "@ + path@ + " not found"@,
            CliError::OutputNotDirectory { path } => "Output file "@ + path@ + " dose not exist"@,
            CliError::InvalidScheme => "Invalid text sign format"@,
            CliError::InvalidBase64Format { format } => "Invalid base64 format: "@ + format@,
            CliError::InvalidOutputFormat { format } => "Invalid output format: "@ + format@,
        }
    }

    /// A line for the user.
    pub fn message(&self) -> (text: String)
        ensures
            text@ == self.message_text(),
    {
        match self {
            CliError::InputNotFound { path } => {
                let mut text = "Input file ".to_owned();
                text.append(path.as_str());
                text.append(" not found");
                text
            },
            CliError::OutputNotDirectory { path } => {
                let mut text = "Output file ".to_owned();
                text.append(path.as_str());
                text.append(" dose not exist");
                text
            },
            CliError::InvalidScheme => "Invalid text sign format".to_owned(),
            CliError::InvalidBase64Format { format } => {
                let mut text = "Invalid base64 format: ".to_owned();
                text.append(format.as_str());
                text
            },
            CliError::InvalidOutputFormat { format } => {
                let mut text = "Invalid output format: ".to_owned();
                text.append(format.as_str());
                text
            },
        }
    }
}

/// Whether `path` is accepted as a source of input, given whether a file
/// exists there: `-` stands for standard input and is always accepted.
pub open spec fn input_accepted(path: Seq<char>, exists: bool) -> bool {
    path == "-"@ || exists
}

/// Accepts `path` as a source of input or refuses it. `exists` says whether
/// anything exists at `path` on disk; `-` is accepted without it.
pub fn verify_file(path: &str, exists: bool) -> (r: Result<String, CliError>)
    ensures
        match r {
            Ok(accepted) => input_accepted(path@, exists) && accepted@ == path@,
            Err(e) => !input_accepted(path@, exists) && (e matches CliError::InputNotFound {
                path: refused,
            } && refused@ == path@),
        },
{
    if same_text(path, "-") {
        return Ok(path.to_owned());
    }
    if !exists {
        return Err(CliError::InputNotFound { path: path.to_owned() });
    }
    Ok(path.to_owned())
}

/// Accepts `path` as an input file or refuses it. `exists` says whether
/// anything exists at `path` on disk.
pub fn verify_input_file(path: &str, exists: bool) -> (r: Result<String, CliError>)
    ensures
        match r {
            Ok(accepted) => exists && accepted@ == path@,
            Err(e) => !exists && (e matches CliError::InputNotFound { path: refused }
                && refused@ == path@),
        },
{
    if !exists {
        return Err(CliError::InputNotFound { path: path.to_owned() });
    }
    Ok(path.to_owned())
}

/// Accepts `path` as an output directory or refuses it. `exists` says whether
/// anything exists at `path` on disk, and `is_dir` whether that is a
/// directory.
pub fn verify_path(path: &str, exists: bool, is_dir: bool) -> (r: Result<String, CliError>)
    ensures
        match r {
            Ok(accepted) => exists && is_dir && accepted@ == path@,
            Err(e) => !(exists && is_dir) && (e matches CliError::OutputNotDirectory {
                path: refused,
            } && refused@ == path@),
        },
{
    if exists && is_dir {
        Ok(path.to_owned())
    } else {
        Err(CliError::OutputNotDirectory { path: path.to_owned() })
    }
}

} // verus!
