//! Random passwords over a chosen alphabet.

use vstd::prelude::*;
use vstd::string::StrSliceExecFns;
use vstd::string::StringExecFns;
use vstd::utf8::is_ascii_chars;
use crate::cli::gen_pass_options::GenPassOptions;
use rand::Rng;

verus! {

/// The uppercase letters.
pub const UPPERCASE: &'static str = "ABCDEFGHIJKLMNOPQRSTUVWXYZ";

/// The lowercase letters that passwords draw from. The letter `o` is not
/// among them.
pub const LOWERCASE: &'static str = "abcdefghijklmnpqrstuvwxyz";

/// The digits.
pub const NUMBERS: &'static str = "0123456789";

/// The symbols.
pub const SYMBOLS: &'static str = "@#$%^&*?";

/// The characters that a password under `options` draws from: each class that
/// is not switched off, in the order uppercase, lowercase, digits, symbols.
pub open spec fn alphabet(options: GenPassOptions) -> Seq<char> {
    (if options.no_uppercase { Seq::empty() } else { UPPERCASE@ })
    + (if options.no_lowercase { Seq::empty() } else { LOWERCASE@ })
    + (if options.no_numbers { Seq::empty() } else { NUMBERS@ })
    + (if options.no_symbols { Seq::empty() } else { SYMBOLS@ })
}

/// `String::push` appends one character.
pub assume_specification[ String::push ](s: &mut String, c: char)
    ensures
        final(s)@ == old(s)@.push(c),
;

/// Calls `Rng::gen_range` on the thread's generator for the range from 0 up
/// to, not including, `bound`. Which index comes back is left open; it lies in
/// the range. An empty range is not sampled. The call stops the process where
/// the operating system has no randomness to seed the generator with.
#[verifier::external_body]
fn random_index(bound: usize) -> (index: usize)
    requires
        bound > 0,
    ensures
        index < bound,
{
    rand::thread_rng().gen_range(0..bound)
}

/// The alphabet of `options` as a string.
pub fn alphabet_of(options: &GenPassOptions) -> (chars: String)
    ensures
        chars@ == alphabet(*options),
{
    let mut chars = String::new();
    if !options.no_uppercase {
        chars.append(UPPERCASE);
    }
    if !options.no_lowercase {
        chars.append(LOWERCASE);
    }
    if !options.no_numbers {
        chars.append(NUMBERS);
    }
    if !options.no_symbols {
        chars.append(SYMBOLS);
    }
    assert(chars@ =~= alphabet(*options));
    chars
}

/// Appends to `password` the character of `chars` at `index`.
pub fn push_nth(password: &mut String, chars: &str, index: usize)
    requires
        index < chars@.len(),
    ensures
        final(password)@ == old(password)@.push(chars@[index as int]),
{
    password.push(chars.get_char(index));
}

/// A password of `options.length` characters, each drawn at random from the
/// alphabet of `options`. Where the alphabet is empty only the empty password
/// can be asked for.
pub fn process_genpass(options: &GenPassOptions) -> (password: String)
    requires
        options.length == 0 || alphabet(*options).len() > 0,
    ensures
        password@.len() == options.length,
        forall|i: int|
            0 <= i < password@.len() ==> alphabet(*options).contains(#[trigger] password@[i]),
{
    let chars = alphabet_of(options);
    let count = chars.as_str().unicode_len();
    let mut password = String::new();
    let mut i: usize = 0;
    while i < options.length
        invariant
            i <= options.length,
            count == chars@.len(),
            chars@ == alphabet(*options),
            options.length == 0 || count > 0,
            password@.len() == i,
            forall|j: int|
                0 <= j < password@.len() ==> alphabet(*options).contains(#[trigger] password@[j]),
        decreases options.length - i,
    {
        push_nth(&mut password, chars.as_str(), random_index(count));
        i += 1;
    }
    password
}

/// How many characters each class adds to the alphabet. The alphabet is empty
/// exactly when every class is switched off.
pub proof fn lemma_alphabet_len(options: GenPassOptions)
    ensures
        alphabet(options).len() == (if options.no_uppercase { 0int } else { 26 })
            + (if options.no_lowercase { 0int } else { 25 })
            + (if options.no_numbers { 0int } else { 10 })
            + (if options.no_symbols { 0int } else { 8 }),
        alphabet(options).len() == 0 <==> options.no_uppercase && options.no_lowercase
            && options.no_numbers && options.no_symbols,
{
    reveal_strlit("ABCDEFGHIJKLMNOPQRSTUVWXYZ");
    reveal_strlit("abcdefghijklmnpqrstuvwxyz");
    reveal_strlit("0123456789");
    reveal_strlit("@#$%^&*?");
    assert(UPPERCASE@.len() == 26);
    assert(LOWERCASE@.len() == 25);
    assert(NUMBERS@.len() == 10);
    assert(SYMBOLS@.len() == 8);
}

/// Every character of every alphabet is an ASCII character.
pub proof fn lemma_alphabet_is_ascii(options: GenPassOptions)
    ensures
        is_ascii_chars(alphabet(options)),
{
    reveal_strlit("ABCDEFGHIJKLMNOPQRSTUVWXYZ");
    reveal_strlit("abcdefghijklmnpqrstuvwxyz");
    reveal_strlit("0123456789");
    reveal_strlit("@#$%^&*?");
    assert(is_ascii_chars(UPPERCASE@));
    assert(is_ascii_chars(LOWERCASE@));
    assert(is_ascii_chars(NUMBERS@));
    assert(is_ascii_chars(SYMBOLS@));
}

} // verus!
