//! What the file server answers, once the file system has been asked.

use vstd::prelude::*;
use vstd::string::StringExecFns;

verus! {

/// What came of looking for a file.
#[derive(Debug)]
pub enum FileLookup {
    /// Nothing exists at the path. `shown` is the path as it is shown to the
    /// client.
    Missing { shown: String },
    /// The file exists and could not be read. `reason` is the error as text.
    Unreadable { reason: String },
    /// The file was read.
    Read { content: String },
}

/// Status of an answer with the file's content.
pub const OK: u16 = 200;

/// Status of the answer where nothing exists at the path.
pub const NOT_FOUND: u16 = 404;

/// Status of the answer where the file could not be read.
pub const INTERNAL_SERVER_ERROR: u16 = 500;

/// The status code of the answer to a lookup.
pub open spec fn response_status(lookup: FileLookup) -> u16 {
    match lookup {
        FileLookup::Missing { .. } => NOT_FOUND,
        FileLookup::Unreadable { .. } => INTERNAL_SERVER_ERROR,
        FileLookup::Read { .. } => OK,
    }
}

/// The body of the answer to a lookup.
pub open spec fn response_body(lookup: FileLookup) -> Seq<char> {
    match lookup {
        FileLookup::Missing { shown } => shown@ + " not found"@,
        FileLookup::Unreadable { reason } => "Failed to read file: "@ + reason@,
        FileLookup::Read { content } => content@,
    }
}

/// The status code and body that answer a lookup.
pub fn file_response(lookup: FileLookup) -> (response: (u16, String))
    ensures
        response.0 == response_status(lookup),
        response.1@ == response_body(lookup),
{
    match lookup {
        FileLookup::Missing { shown } => {
            let mut body = shown;
            body.append(" not found");
            (NOT_FOUND, body)
        },
        FileLookup::Unreadable { reason } => {
            let mut body = "Failed to read file: ".to_owned();
            body.append(reason.as_str());
            (INTERNAL_SERVER_ERROR, body)
        },
        FileLookup::Read { content } => (OK, content),
    }
}

} // verus!
