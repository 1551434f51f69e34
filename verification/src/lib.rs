//! Signing, verifying and key generation for byte payloads under one of
//! several interchangeable schemes, with the command-line option types and
//! text helpers that sit around them.

pub mod cli;
pub mod process;
pub mod utils;
