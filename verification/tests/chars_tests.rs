//! Tests for character classification and base-form folding, checked
//! against a canonical-decomposition oracle built on
//! `unicode_normalization` directly.

use grac::{
    base_lower, ends_with_diphthong, is_greek_char, is_greek_letter, is_greek_word, is_vowel,
    to_uppercase_gr_bytes,
};
use unicode_normalization::char::decompose_canonical;

/// Return the normalized character: the first element of its canonical
/// decomposition.
fn oracle_base(ch: char) -> char {
    let mut base_char = None;
    decompose_canonical(ch, |c| {
        base_char.get_or_insert(c);
    });
    base_char.unwrap_or(ch)
}

/// Return the normalized lower character.
fn oracle_base_lower(ch: char) -> char {
    oracle_base(ch).to_lowercase().next().unwrap_or(ch)
}

fn dbg_test(ch: char, received: char, expected: char) {
    if received != expected {
        println!(
            "[DBG] Char: {}, Bytes: {:?}, received: {} ({:?}), expected: {} ({:?})",
            ch,
            ch.encode_utf8(&mut [0; 4]).as_bytes(),
            received,
            received.encode_utf8(&mut [0; 4]).as_bytes(),
            expected,
            expected.encode_utf8(&mut [0; 4]).as_bytes(),
        );
    }
}

#[test]
fn test_base_lower_greek_coptic() {
    for ch in '\u{0370}'..='\u{03FF}' {
        match ch {
            '\u{37E}' | '\u{387}' | '\u{3AA}' | '\u{3AB}' | '\u{3D3}' | '\u{3D4}' | '\u{370}'
            | '\u{372}' | '\u{374}' | '\u{376}' | '\u{37F}' | '\u{3CF}' | '\u{3D8}' | '\u{3DC}'
            | '\u{3DA}' | '\u{3DE}' | '\u{3E0}' | '\u{3E2}' | '\u{3E4}' | '\u{3E6}' | '\u{3E8}'
            | '\u{3EA}' | '\u{3EC}' | '\u{3EE}' | '\u{3F4}' | '\u{3F7}' | '\u{3F9}' | '\u{3FA}'
            | '\u{3FD}' | '\u{3FE}' | '\u{3FF}' => continue,
            _ => (),
        }
        let expected = oracle_base_lower(ch);
        let received = base_lower(ch);
        dbg_test(ch, received, expected);
        assert_eq!(received, expected);
    }
}

#[test]
fn test_base_lower_greek_extended() {
    for ch in '\u{1F00}'..='\u{1FFF}' {
        let expected = oracle_base_lower(ch);
        let received = base_lower(ch);
        dbg_test(ch, received, expected);
        assert_eq!(received, expected);
    }
}

#[test]
fn test_is_greek_word() {
    let greek_words = [
        "καλημέρα",
        // U+0027 ' APOSTROPHE
        "ὑπ\u{0027}",
        // U+2019 ’ RIGHT SINGLE QUOTATION MARK
        "ὑπ\u{2019}",
        // U+02BC ʼ MODIFIER LETTER APOSTROPHE
        // Note that this one is alphabetic!
        "ὑπ\u{02BC}",
    ];
    for word in greek_words {
        assert!(is_greek_word(word), "Expected {word} to be a greek word.");
    }
    assert!(!is_greek_word("hello"));
    assert!(is_greek_word("1808."));
}

#[test]
fn test_to_uppercase_gr_bytes() {
    let low = "αάβγδεέζηήθιίκλμνξοόπρσςτυύφχψωώ";
    let upp = "ΑΆΒΓΔΕΈΖΗΉΘΙΊΚΛΜΝΞΟΌΠΡΣΣΤΥΎΦΧΨΩΏ";
    for (lower, upper) in low.chars().zip(upp.chars()) {
        let l = lower.to_string().into_bytes();
        let u = upper.to_string().into_bytes();
        let res = to_uppercase_gr_bytes(l[0], l[1]);
        assert_eq!(res, (u[0], u[1]));
    }
}

#[test]
fn test_is_vowel_opt() {
    const VOWELS_LOWER: &str = "αειουωη";
    for code in 0x0370..=0x1FFF {
        if let Some(ch) = char::from_u32(code) {
            let base = base_lower(ch);
            if VOWELS_LOWER.contains(base) {
                assert!(is_vowel(ch));
            }
        }
    }
}

#[test]
fn test_ends_with_diphthong() {
    assert_eq!(ends_with_diphthong("Κάιν"), true);
    assert_eq!(ends_with_diphthong("πλάι"), true);
    assert_eq!(ends_with_diphthong("γάιδαρος"), false);
    assert_eq!(ends_with_diphthong("σόι"), true);
    assert_eq!(ends_with_diphthong(""), false);
}

#[test]
fn test_greek_ranges() {
    assert!(is_greek_char('α'));
    assert!(is_greek_char('ᾶ'));
    assert!(!is_greek_char('a'));
    assert!(is_greek_letter('Ω'));
    // The bare marks of the blocks are characters but not letters.
    assert!(is_greek_char('\u{0384}'));
    assert!(!is_greek_letter('\u{0384}'));
    assert!(!is_greek_letter('\u{1FBD}'));
}

#[test]
fn test_base_lower_samples() {
    assert_eq!(base_lower('Ά'), 'α');
    assert_eq!(base_lower('ᾷ'), 'α');
    assert_eq!(base_lower('Ὧ'), 'ω');
    assert_eq!(base_lower('ῥ'), 'ρ');
    assert_eq!(base_lower('ϊ'), 'ι');
    assert_eq!(base_lower('x'), 'x');
}
