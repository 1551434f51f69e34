//! Options of the `http` commands.

use vstd::prelude::*;

verus! {

/// The `http` commands.
#[derive(Debug)]
pub enum HttpCommand {
    /// Serve a directory over HTTP.
    Serve(HttpServerOptions),
}

/// What to serve, and where.
#[derive(Debug)]
pub struct HttpServerOptions {
    /// Directory to serve.
    pub directory: String,
    /// Port to listen on.
    pub port: u16,
}

} // verus!
