//! Options of the `gen-pass` command.

use vstd::prelude::*;

verus! {

/// How long a password is to be, and which classes of characters it may not
/// draw from.
#[derive(Debug)]
pub struct GenPassOptions {
    /// Number of characters.
    pub length: usize,
    /// Leave out `A` to `Z`.
    pub no_uppercase: bool,
    /// Leave out the lowercase letters.
    pub no_lowercase: bool,
    /// Leave out `0` to `9`.
    pub no_numbers: bool,
    /// Leave out the symbols.
    pub no_symbols: bool,
}

} // verus!
