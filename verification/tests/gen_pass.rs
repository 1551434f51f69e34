use rcli::cli::gen_pass_options::GenPassOptions;
use rcli::process::gen_pass::{alphabet_of, process_genpass, push_nth};

fn options(length: usize, upper: bool, lower: bool, numbers: bool, symbols: bool) -> GenPassOptions {
    GenPassOptions {
        length,
        no_uppercase: !upper,
        no_lowercase: !lower,
        no_numbers: !numbers,
        no_symbols: !symbols,
    }
}

#[test]
fn the_alphabet_holds_each_class_that_is_not_switched_off() {
    assert_eq!(
        alphabet_of(&options(16, true, true, true, true)),
        "ABCDEFGHIJKLMNOPQRSTUVWXYZabcdefghijklmnpqrstuvwxyz0123456789@#$%^&*?"
    );
    assert_eq!(alphabet_of(&options(16, true, false, false, false)), "ABCDEFGHIJKLMNOPQRSTUVWXYZ");
    assert_eq!(alphabet_of(&options(16, false, true, false, false)), "abcdefghijklmnpqrstuvwxyz");
    assert_eq!(alphabet_of(&options(16, false, false, true, true)), "0123456789@#$%^&*?");
    assert_eq!(alphabet_of(&options(16, false, false, false, false)), "");
}

#[test]
fn a_password_has_the_length_asked_for() {
    for length in [0usize, 1, 16, 32, 200] {
        let password = process_genpass(&options(length, true, true, true, true));
        assert_eq!(password.chars().count(), length);
    }
    assert_eq!(process_genpass(&options(0, false, false, false, false)), "");
}

#[test]
fn a_password_draws_from_its_alphabet_only() {
    let digits = process_genpass(&options(64, false, false, true, false));
    assert!(digits.chars().all(|c| c.is_ascii_digit()));
    let letters = process_genpass(&options(64, true, true, false, false));
    assert!(letters.chars().all(|c| c.is_ascii_alphabetic() && c != 'o'));
    let symbols = process_genpass(&options(64, false, false, false, true));
    assert!(symbols.chars().all(|c| "@#$%^&*?".contains(c)));
}

#[test]
fn passwords_are_not_all_alike() {
    let first = process_genpass(&options(64, true, true, true, true));
    let second = process_genpass(&options(64, true, true, true, true));
    assert_ne!(first, second);
    assert!(first.chars().any(|c| c != first.chars().next().unwrap()));
}

#[test]
fn the_character_at_the_drawn_index_is_appended() {
    let mut password = String::from("x");
    push_nth(&mut password, "abc", 2);
    push_nth(&mut password, "abc", 0);
    push_nth(&mut password, "h\u{e9}llo", 1);
    assert_eq!(password, "xca\u{e9}");
}
