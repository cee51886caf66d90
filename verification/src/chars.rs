//! Character classification for the two Greek Unicode blocks.

use vstd::prelude::*;
use vstd::string::StrSliceExecFns;

verus! {

/// The _Greek and Coptic_ block: U+0370 through U+03FF.
pub open spec fn spec_is_greek_and_coptic_char(c: char) -> bool {
    0x0370 <= c as u32 <= 0x03FF
}

/// The _Greek Extended_ block: U+1F00 through U+1FFF.
pub open spec fn spec_is_greek_extended_char(c: char) -> bool {
    0x1F00 <= c as u32 <= 0x1FFF
}

/// Check if a character is in the _Greek and Coptic_ range.
///
/// Includes the block's non alphabetic characters, such as the Greek
/// question mark and the ano teleia.
#[verifier::when_used_as_spec(spec_is_greek_and_coptic_char)]
pub fn is_greek_and_coptic_char(ch: char) -> (r: bool)
    ensures
        r == spec_is_greek_and_coptic_char(ch),
{
    let u = ch as u32;
    0x0370 <= u && u <= 0x03FF
}

/// Check if a character is in the _Greek Extended_ range.
///
/// Includes the block's non alphabetic characters, such as the bare
/// breathing and accent marks.
#[verifier::when_used_as_spec(spec_is_greek_extended_char)]
pub fn is_greek_extended_char(ch: char) -> (r: bool)
    ensures
        r == spec_is_greek_extended_char(ch),
{
    let u = ch as u32;
    0x1F00 <= u && u <= 0x1FFF
}

/// A character of either Greek block, alphabetic or not.
pub open spec fn spec_is_greek_char(c: char) -> bool {
    spec_is_greek_and_coptic_char(c) || spec_is_greek_extended_char(c)
}

/// Check if a character is in the _Greek and Coptic_ or the _Greek Extended_ range.
///
/// Includes non alphabetic characters.
///
/// For a version excluding non alphabetic characters, use [`is_greek_letter`].
#[verifier::when_used_as_spec(spec_is_greek_char)]
pub fn is_greek_char(ch: char) -> (r: bool)
    ensures
        r == spec_is_greek_char(ch),
{
    is_greek_and_coptic_char(ch) || is_greek_extended_char(ch)
}

/// The non alphabetic code points scattered through the two Greek blocks:
/// numeral signs, punctuation, and bare diacritic marks.
pub open spec fn spec_is_greek_nonletter_char(c: char) -> bool {
    c == '\u{375}' || c == '\u{37E}' || c == '\u{384}' || c == '\u{385}' || c == '\u{387}'
        || c == '\u{3F6}' || c == '\u{1FBD}' || c == '\u{1FBF}' || c == '\u{1FC0}'
        || c == '\u{1FC1}' || c == '\u{1FCD}' || c == '\u{1FCE}' || c == '\u{1FCF}'
        || c == '\u{1FDD}' || c == '\u{1FDE}' || c == '\u{1FDF}' || c == '\u{1FED}'
        || c == '\u{1FEE}' || c == '\u{1FEF}' || c == '\u{1FFD}' || c == '\u{1FFE}'
}

/// A letter of either Greek block: a Greek character that is not one of the
/// block's punctuation or bare mark code points.
pub open spec fn spec_is_greek_letter(c: char) -> bool {
    spec_is_greek_char(c) && !spec_is_greek_nonletter_char(c)
}

/// Check if a character is in the _Greek and Coptic_ or the _Greek Extended_ range.
///
/// Excludes non alphabetic characters.
///
/// For a version including non alphabetic characters, use [`is_greek_char`].
#[verifier::when_used_as_spec(spec_is_greek_letter)]
pub fn is_greek_letter(ch: char) -> (r: bool)
    ensures
        r == spec_is_greek_letter(ch),
{
    match ch {
        '\u{375}' | '\u{37E}' | '\u{384}' | '\u{385}' | '\u{387}' | '\u{3F6}' | '\u{1FBD}'
        | '\u{1FBF}' | '\u{1FC0}' | '\u{1FC1}' | '\u{1FCD}' | '\u{1FCE}' | '\u{1FCF}'
        | '\u{1FDD}' | '\u{1FDE}' | '\u{1FDF}' | '\u{1FED}' | '\u{1FEE}' | '\u{1FEF}'
        | '\u{1FFD}' | '\u{1FFE}' => false,
        _ => is_greek_char(ch),
    }
}


/// The lowercase base form of a character of the _Greek and Coptic_ block.
///
/// Does NOT normalize:  ';' | '\u{00B7}' | 'Ϊ' | 'Ϋ' | 'ϓ' | 'ϔ'
pub open spec fn spec_base_lower_gc(c: char) -> char {
    if 0x03B1 <= c as u32 <= 0x03C9 {
        c
    } else {
        match c {
            'ά' => 'α',
            'έ' => 'ε',
            'ί' => 'ι',
            'ή' => 'η',
            'ό' => 'ο',
            'ύ' => 'υ',
            'ώ' => 'ω',
            'Α' => 'α',
            'Β' => 'β',
            'Γ' => 'γ',
            'Δ' => 'δ',
            'Ε' => 'ε',
            'Ζ' => 'ζ',
            'Η' => 'η',
            'Θ' => 'θ',
            'Ι' => 'ι',
            'Κ' => 'κ',
            'Λ' => 'λ',
            'Μ' => 'μ',
            'Ν' => 'ν',
            'Ξ' => 'ξ',
            'Ο' => 'ο',
            'Π' => 'π',
            'Ρ' => 'ρ',
            'Σ' => 'σ',
            'Τ' => 'τ',
            'Υ' => 'υ',
            'Φ' => 'φ',
            'Χ' => 'χ',
            'Ψ' => 'ψ',
            'Ω' => 'ω',
            'Ά' => 'α',
            'Έ' => 'ε',
            'Ί' => 'ι',
            'Ή' => 'η',
            'Ό' => 'ο',
            'Ύ' => 'υ',
            'Ώ' => 'ω',
            'ϊ' | 'ΐ' => 'ι',
            'ϋ' | 'ΰ' => 'υ',
            'ʹ' => 'ʹ',
            '΅' => '¨',
            _ => c,
        }
    }
}

/// Normalize and cast to lowercase the _Greek and Coptic_ range.
fn base_lower_gc(ch: char) -> (r: char)
    ensures
        r == spec_base_lower_gc(ch),
{
    // Lowercase unaccented (U+03B1 through U+03C9) is the most frequent
    // case, so it is checked first.
    if 0x03B1 <= ch as u32 && ch as u32 <= 0x03C9 {
        ch
    } else {
        match ch {
            'ά' => 'α',
            'έ' => 'ε',
            'ί' => 'ι',
            'ή' => 'η',
            'ό' => 'ο',
            'ύ' => 'υ',
            'ώ' => 'ω',
            'Α' => 'α',
            'Β' => 'β',
            'Γ' => 'γ',
            'Δ' => 'δ',
            'Ε' => 'ε',
            'Ζ' => 'ζ',
            'Η' => 'η',
            'Θ' => 'θ',
            'Ι' => 'ι',
            'Κ' => 'κ',
            'Λ' => 'λ',
            'Μ' => 'μ',
            'Ν' => 'ν',
            'Ξ' => 'ξ',
            'Ο' => 'ο',
            'Π' => 'π',
            'Ρ' => 'ρ',
            'Σ' => 'σ',
            'Τ' => 'τ',
            'Υ' => 'υ',
            'Φ' => 'φ',
            'Χ' => 'χ',
            'Ψ' => 'ψ',
            'Ω' => 'ω',
            'Ά' => 'α',
            'Έ' => 'ε',
            'Ί' => 'ι',
            'Ή' => 'η',
            'Ό' => 'ο',
            'Ύ' => 'υ',
            'Ώ' => 'ω',
            'ϊ' | 'ΐ' => 'ι',
            'ϋ' | 'ΰ' => 'υ',
            'ʹ' => 'ʹ',
            '΅' => '¨',
            _ => ch,
        }
    }
}

/// The lowercase base form of a character of the _Greek Extended_ block.
pub open spec fn spec_base_lower_ge(c: char) -> char {
    match c {
            'ἀ' | 'ἁ' | 'ἂ' | 'ἃ' | 'ἄ' | 'ἅ' | 'ἆ' | 'ἇ' => 'α',
            'Ἀ' | 'Ἁ' | 'Ἂ' | 'Ἃ' | 'Ἄ' | 'Ἅ' | 'Ἆ' | 'Ἇ' => 'α',
            'ὰ' | 'ά' | 'ᾀ' | 'ᾁ' | 'ᾂ' | 'ᾃ' | 'ᾄ' | 'ᾅ' => 'α',
            'ᾆ' | 'ᾇ' | 'ᾈ' | 'ᾉ' | 'ᾊ' | 'ᾋ' | 'ᾌ' | 'ᾍ' => 'α',
            'ᾎ' | 'ᾏ' | 'ᾰ' | 'ᾱ' | 'ᾲ' | 'ᾳ' | 'ᾴ' | 'ᾶ' => 'α',
            'ᾷ' | 'Ᾰ' | 'Ᾱ' | 'Ὰ' | 'Ά' | 'ᾼ' => 'α',
            'ἐ' | 'ἑ' | 'ἒ' | 'ἓ' | 'ἔ' | 'ἕ' | 'Ἐ' | 'Ἑ' => 'ε',
            'Ἒ' | 'Ἓ' | 'Ἔ' | 'Ἕ' | 'ὲ' | 'έ' | 'Ὲ' | 'Έ' => 'ε',
            'ἠ' | 'ἡ' | 'ἢ' | 'ἣ' | 'ἤ' | 'ἥ' | 'ἦ' | 'ἧ' => 'η',
            'Ἠ' | 'Ἡ' | 'Ἢ' | 'Ἣ' | 'Ἤ' | 'Ἥ' | 'Ἦ' | 'Ἧ' => 'η',
            'ὴ' | 'ή' | 'ᾐ' | 'ᾑ' | 'ᾒ' | 'ᾓ' | 'ᾔ' | 'ᾕ' => 'η',
            'ᾖ' | 'ᾗ' | 'ᾘ' | 'ᾙ' | 'ᾚ' | 'ᾛ' | 'ᾜ' | 'ᾝ' => 'η',
            'ᾞ' | 'ᾟ' | 'ῂ' | 'ῃ' | 'ῄ' | 'ῆ' | 'ῇ' | 'Ὴ' => 'η',
            'Ή' | 'ῌ' => 'η',
            'ἰ' | 'ἱ' | 'ἲ' | 'ἳ' | 'ἴ' | 'ἵ' | 'ἶ' | 'ἷ' => 'ι',
            'Ἰ' | 'Ἱ' | 'Ἲ' | 'Ἳ' | 'Ἴ' | 'Ἵ' | 'Ἶ' | 'Ἷ' => 'ι',
            'ὶ' | 'ί' | 'ι' | 'ῐ' | 'ῑ' | 'ῒ' | 'ΐ' | 'ῖ' => 'ι',
            'ῗ' | 'Ῐ' | 'Ῑ' | 'Ὶ' | 'Ί' => 'ι',
            'ὀ' | 'ὁ' | 'ὂ' | 'ὃ' | 'ὄ' | 'ὅ' | 'Ὀ' | 'Ὁ' => 'ο',
            'Ὂ' | 'Ὃ' | 'Ὄ' | 'Ὅ' | 'ὸ' | 'ό' | 'Ὸ' | 'Ό' => 'ο',
            'ῤ' | 'ῥ' | 'Ῥ' => 'ρ',
            'ὐ' | 'ὑ' | 'ὒ' | 'ὓ' | 'ὔ' | 'ὕ' | 'ὖ' | 'ὗ' => 'υ',
            'Ὑ' | 'Ὓ' | 'Ὕ' | 'Ὗ' | 'ὺ' | 'ύ' | 'ῠ' | 'ῡ' => 'υ',
            'ῢ' | 'ΰ' | 'ῦ' | 'ῧ' | 'Ῠ' | 'Ῡ' | 'Ὺ' | 'Ύ' => 'υ',
            'ὠ' | 'ὡ' | 'ὢ' | 'ὣ' | 'ὤ' | 'ὥ' | 'ὦ' | 'ὧ' => 'ω',
            'Ὠ' | 'Ὡ' | 'Ὢ' | 'Ὣ' | 'Ὤ' | 'Ὥ' | 'Ὦ' | 'Ὧ' => 'ω',
            'ὼ' | 'ώ' | 'ᾠ' | 'ᾡ' | 'ᾢ' | 'ᾣ' | 'ᾤ' | 'ᾥ' => 'ω',
            'ᾦ' | 'ᾧ' | 'ᾨ' | 'ᾩ' | 'ᾪ' | 'ᾫ' | 'ᾬ' | 'ᾭ' => 'ω',
            'ᾮ' | 'ᾯ' | 'ῲ' | 'ῳ' | 'ῴ' | 'ῶ' | 'ῷ' | 'Ὼ' => 'ω',
            'Ώ' | 'ῼ' => 'ω',
            '`' => '`',
            '῁' | '῭' | '΅' => '¨',
            '´' => '´',
            '῍' | '῎' | '῏' => '᾿',
            '῝' | '῞' | '῟' => '῾',
        _ => c,
    }
}

/// Normalize and cast to lowercase the _Greek Extended_ range.
fn base_lower_ge(ch: char) -> (r: char)
    ensures
        r == spec_base_lower_ge(ch),
{
    match ch {
            'ἀ' | 'ἁ' | 'ἂ' | 'ἃ' | 'ἄ' | 'ἅ' | 'ἆ' | 'ἇ' => 'α',
            'Ἀ' | 'Ἁ' | 'Ἂ' | 'Ἃ' | 'Ἄ' | 'Ἅ' | 'Ἆ' | 'Ἇ' => 'α',
            'ὰ' | 'ά' | 'ᾀ' | 'ᾁ' | 'ᾂ' | 'ᾃ' | 'ᾄ' | 'ᾅ' => 'α',
            'ᾆ' | 'ᾇ' | 'ᾈ' | 'ᾉ' | 'ᾊ' | 'ᾋ' | 'ᾌ' | 'ᾍ' => 'α',
            'ᾎ' | 'ᾏ' | 'ᾰ' | 'ᾱ' | 'ᾲ' | 'ᾳ' | 'ᾴ' | 'ᾶ' => 'α',
            'ᾷ' | 'Ᾰ' | 'Ᾱ' | 'Ὰ' | 'Ά' | 'ᾼ' => 'α',
            'ἐ' | 'ἑ' | 'ἒ' | 'ἓ' | 'ἔ' | 'ἕ' | 'Ἐ' | 'Ἑ' => 'ε',
            'Ἒ' | 'Ἓ' | 'Ἔ' | 'Ἕ' | 'ὲ' | 'έ' | 'Ὲ' | 'Έ' => 'ε',
            'ἠ' | 'ἡ' | 'ἢ' | 'ἣ' | 'ἤ' | 'ἥ' | 'ἦ' | 'ἧ' => 'η',
            'Ἠ' | 'Ἡ' | 'Ἢ' | 'Ἣ' | 'Ἤ' | 'Ἥ' | 'Ἦ' | 'Ἧ' => 'η',
            'ὴ' | 'ή' | 'ᾐ' | 'ᾑ' | 'ᾒ' | 'ᾓ' | 'ᾔ' | 'ᾕ' => 'η',
            'ᾖ' | 'ᾗ' | 'ᾘ' | 'ᾙ' | 'ᾚ' | 'ᾛ' | 'ᾜ' | 'ᾝ' => 'η',
            'ᾞ' | 'ᾟ' | 'ῂ' | 'ῃ' | 'ῄ' | 'ῆ' | 'ῇ' | 'Ὴ' => 'η',
            'Ή' | 'ῌ' => 'η',
            'ἰ' | 'ἱ' | 'ἲ' | 'ἳ' | 'ἴ' | 'ἵ' | 'ἶ' | 'ἷ' => 'ι',
            'Ἰ' | 'Ἱ' | 'Ἲ' | 'Ἳ' | 'Ἴ' | 'Ἵ' | 'Ἶ' | 'Ἷ' => 'ι',
            'ὶ' | 'ί' | 'ι' | 'ῐ' | 'ῑ' | 'ῒ' | 'ΐ' | 'ῖ' => 'ι',
            'ῗ' | 'Ῐ' | 'Ῑ' | 'Ὶ' | 'Ί' => 'ι',
            'ὀ' | 'ὁ' | 'ὂ' | 'ὃ' | 'ὄ' | 'ὅ' | 'Ὀ' | 'Ὁ' => 'ο',
            'Ὂ' | 'Ὃ' | 'Ὄ' | 'Ὅ' | 'ὸ' | 'ό' | 'Ὸ' | 'Ό' => 'ο',
            'ῤ' | 'ῥ' | 'Ῥ' => 'ρ',
            'ὐ' | 'ὑ' | 'ὒ' | 'ὓ' | 'ὔ' | 'ὕ' | 'ὖ' | 'ὗ' => 'υ',
            'Ὑ' | 'Ὓ' | 'Ὕ' | 'Ὗ' | 'ὺ' | 'ύ' | 'ῠ' | 'ῡ' => 'υ',
            'ῢ' | 'ΰ' | 'ῦ' | 'ῧ' | 'Ῠ' | 'Ῡ' | 'Ὺ' | 'Ύ' => 'υ',
            'ὠ' | 'ὡ' | 'ὢ' | 'ὣ' | 'ὤ' | 'ὥ' | 'ὦ' | 'ὧ' => 'ω',
            'Ὠ' | 'Ὡ' | 'Ὢ' | 'Ὣ' | 'Ὤ' | 'Ὥ' | 'Ὦ' | 'Ὧ' => 'ω',
            'ὼ' | 'ώ' | 'ᾠ' | 'ᾡ' | 'ᾢ' | 'ᾣ' | 'ᾤ' | 'ᾥ' => 'ω',
            'ᾦ' | 'ᾧ' | 'ᾨ' | 'ᾩ' | 'ᾪ' | 'ᾫ' | 'ᾬ' | 'ᾭ' => 'ω',
            'ᾮ' | 'ᾯ' | 'ῲ' | 'ῳ' | 'ῴ' | 'ῶ' | 'ῷ' | 'Ὼ' => 'ω',
            'Ώ' | 'ῼ' => 'ω',
            '`' => '`',
            '῁' | '῭' | '΅' => '¨',
            '´' => '´',
            '῍' | '῎' | '῏' => '᾿',
            '῝' | '῞' | '῟' => '῾',
        _ => ch,
    }
}

/// The lowercase base form of a character: diacritics stripped and the
/// letter lowercased, for the two Greek blocks; any other character is
/// returned unchanged.
pub open spec fn spec_base_lower(c: char) -> char {
    if spec_is_greek_and_coptic_char(c) {
        spec_base_lower_gc(c)
    } else if spec_is_greek_extended_char(c) {
        spec_base_lower_ge(c)
    } else {
        c
    }
}

/// Return the normalized lower character.
#[verifier::when_used_as_spec(spec_base_lower)]
pub fn base_lower(ch: char) -> (r: char)
    ensures
        r == spec_base_lower(ch),
{
    if is_greek_and_coptic_char(ch) {
        base_lower_gc(ch)
    } else if is_greek_extended_char(ch) {
        base_lower_ge(ch)
    } else {
        ch
    }
}


/// The Unicode Alphabetic property of a character, as std reports it.
pub uninterp spec fn alphabetic_of(c: char) -> bool;

/// Relies on std's `char::is_alphabetic`: the Unicode Alphabetic
/// property, a function of the character alone.
#[verifier::external_body]
pub(crate) fn char_is_alphabetic(c: char) -> (r: bool)
    ensures
        r == alphabetic_of(c),
{
    c.is_alphabetic()
}

/// The White_Space property of a character, as std reports it.
pub uninterp spec fn whitespace_of(c: char) -> bool;

/// Relies on std's `char::is_whitespace`: the Unicode White_Space
/// property, a function of the character alone.
#[verifier::external_body]
pub(crate) fn char_is_whitespace(c: char) -> (r: bool)
    ensures
        r == whitespace_of(c),
{
    c.is_whitespace()
}

/// A word is Greek when each of its characters is a Greek character, the
/// modifier-letter apostrophe, or not alphabetic at all.
pub open spec fn spec_is_greek_word(w: Seq<char>) -> bool {
    forall|t: int| 0 <= t < w.len() ==> {
        let c = #[trigger] w[t];
        spec_is_greek_char(c) || c == '\u{02BC}' || !alphabetic_of(c)
    }
}

/// Check if a word is Greek.
///
/// Of the common characters that represent an apostrophe only the
/// modifier letter apostrophe is alphabetic, and since it can appear as a
/// possible (probably wrong) variant, it is accepted here.
pub fn is_greek_word(s: &str) -> (r: bool)
    ensures
        r == spec_is_greek_word(s@),
{
    let n = s.unicode_len();
    let mut i: usize = 0;
    while i < n
        invariant
            i <= n,
            n == s@.len(),
            forall|t: int| 0 <= t < i ==> {
                let c = #[trigger] s@[t];
                spec_is_greek_char(c) || c == '\u{02BC}' || !alphabetic_of(c)
            },
        decreases n - i,
    {
        let ch = s.get_char(i);
        // The order is important: is_greek_char is cheaper.
        if !(is_greek_char(ch) || ch == '\u{02BC}' || !char_is_alphabetic(ch)) {
            return false;
        }
        i = i + 1;
    }
    true
}

/// The consonant letters filtered out when looking at a word's vowels.
pub open spec fn spec_consonant_letters() -> Seq<char> {
    seq![
        'β', 'γ', 'δ', 'ζ', 'θ', 'κ', 'λ', 'μ', 'ν', 'ξ', 'π', 'ρ', 'σ', 'ς', 'τ', 'φ',
        'χ', 'ψ', 'Β', 'Γ', 'Δ', 'Ζ', 'Θ', 'Κ', 'Λ', 'Μ', 'Ν', 'Ξ', 'Π', 'Ρ', 'Σ', 'Τ',
        'Φ', 'Χ', 'Ψ',
    ]
}

fn consonant_letters() -> (r: Vec<char>)
    ensures
        r@ == spec_consonant_letters(),
{
    let r = vec![
        'β', 'γ', 'δ', 'ζ', 'θ', 'κ', 'λ', 'μ', 'ν', 'ξ', 'π', 'ρ', 'σ', 'ς', 'τ', 'φ',
        'χ', 'ψ', 'Β', 'Γ', 'Δ', 'Ζ', 'Θ', 'Κ', 'Λ', 'Μ', 'Ν', 'Ξ', 'Π', 'Ρ', 'Σ', 'Τ',
        'Φ', 'Χ', 'Ψ',
    ];
    proof {
        assert(r@ =~= spec_consonant_letters());
    }
    r
}

/// The vowels of a word: its characters with the consonant letters
/// removed.
pub open spec fn spec_extract_vowels(w: Seq<char>) -> Seq<char> {
    crate::strutil::spec_keep(w, spec_consonant_letters())
}

/// Extract vowels from an assumed well formed lowercase syllable.
fn extract_vowels(s: &str) -> (r: String)
    ensures
        r@ == spec_extract_vowels(s@),
{
    let cons = consonant_letters();
    crate::strutil::keep_chars(s, cons.as_slice())
}

/// An accented vowel and a plain iota or upsilon: a pair that reads as a
/// final diphthong.
pub open spec fn spec_is_final_diphthong_pair(a: char, b: char) -> bool {
    ((a == 'ό' || a == 'Ό' || a == 'έ' || a == 'Έ' || a == 'ά' || a == 'Ά') && (b == 'ι' || b
        == 'υ'))
}

/// The word's last two vowels form a final diphthong.
pub open spec fn spec_ends_with_diphthong(w: Seq<char>) -> bool {
    let vs = spec_extract_vowels(w);
    vs.len() >= 2 && spec_is_final_diphthong_pair(vs[vs.len() - 2], vs[vs.len() - 1])
}

/// Check if the word ends with a diphthong.
///
/// Trailing consonants do not matter: only the word's last two vowels
/// are considered.
pub fn ends_with_diphthong(s: &str) -> (r: bool)
    ensures
        r == spec_ends_with_diphthong(s@),
{
    let vowels = extract_vowels(s);
    let vref = vowels.as_str();
    let n = vref.unicode_len();
    if n < 2 {
        return false;
    }
    let a = vref.get_char(n - 2);
    let b = vref.get_char(n - 1);
    match (a, b) {
        ('ό', 'ι') | ('Ό', 'ι') | ('έ', 'ι') | ('Έ', 'ι') | ('ά', 'ι') | ('Ά', 'ι')
        | ('ό', 'υ') | ('Ό', 'υ') | ('έ', 'υ') | ('Έ', 'υ') | ('ά', 'υ') | ('Ά', 'υ') => true,
        _ => false,
    }
}

/// A byte pair that encodes a lowercase letter of the basic modern Greek
/// alphabet in UTF-8.
pub open spec fn spec_is_gr_lower_bytes(a: u8, b: u8) -> bool {
    (a == 206 && (177 <= b <= 191 || b == 172 || b == 173 || b == 174 || b == 175))
        || (a == 207 && (128 <= b <= 137 || b == 140 || b == 141 || b == 142))
}

/// The UTF-8 byte pair of the uppercase counterpart of a lowercase
/// modern Greek letter's byte pair.
pub open spec fn spec_to_uppercase_gr_bytes(a: u8, b: u8) -> (u8, u8) {
    if a == 206 {
        if b == 177 { (206u8, 145u8) }
        else if b == 172 { (206u8, 134u8) }
        else if b == 178 { (206u8, 146u8) }
        else if b == 179 { (206u8, 147u8) }
        else if b == 180 { (206u8, 148u8) }
        else if b == 181 { (206u8, 149u8) }
        else if b == 173 { (206u8, 136u8) }
        else if b == 182 { (206u8, 150u8) }
        else if b == 183 { (206u8, 151u8) }
        else if b == 174 { (206u8, 137u8) }
        else if b == 184 { (206u8, 152u8) }
        else if b == 185 { (206u8, 153u8) }
        else if b == 175 { (206u8, 138u8) }
        else if b == 186 { (206u8, 154u8) }
        else if b == 187 { (206u8, 155u8) }
        else if b == 188 { (206u8, 156u8) }
        else if b == 189 { (206u8, 157u8) }
        else if b == 190 { (206u8, 158u8) }
        else if b == 191 { (206u8, 159u8) }
        else { (a, b) }
    } else if a == 207 {
        if b == 140 { (206u8, 140u8) }
        else if b == 128 { (206u8, 160u8) }
        else if b == 129 { (206u8, 161u8) }
        else if b == 131 || b == 130 { (206u8, 163u8) }
        else if b == 132 { (206u8, 164u8) }
        else if b == 133 { (206u8, 165u8) }
        else if b == 141 { (206u8, 142u8) }
        else if b == 134 { (206u8, 166u8) }
        else if b == 135 { (206u8, 167u8) }
        else if b == 136 { (206u8, 168u8) }
        else if b == 137 { (206u8, 169u8) }
        else if b == 142 { (206u8, 143u8) }
        else { (a, b) }
    } else {
        (a, b)
    }
}

/// Uppercase a modern Greek letter given as its UTF-8 byte pair.
///
/// Expects valid modern Greek codepoints; the final sigma maps to the
/// ordinary capital sigma.
pub fn to_uppercase_gr_bytes(a: u8, b: u8) -> (r: (u8, u8))
    requires
        spec_is_gr_lower_bytes(a, b),
    ensures
        r == spec_to_uppercase_gr_bytes(a, b),
{
    match (a, b) {
        (206, 177) => (206, 145),
        (206, 172) => (206, 134),
        (206, 178) => (206, 146),
        (206, 179) => (206, 147),
        (206, 180) => (206, 148),
        (206, 181) => (206, 149),
        (206, 173) => (206, 136),
        (206, 182) => (206, 150),
        (206, 183) => (206, 151),
        (206, 174) => (206, 137),
        (206, 184) => (206, 152),
        (206, 185) => (206, 153),
        (206, 175) => (206, 138),
        (206, 186) => (206, 154),
        (206, 187) => (206, 155),
        (206, 188) => (206, 156),
        (206, 189) => (206, 157),
        (206, 190) => (206, 158),
        (206, 191) => (206, 159),
        (207, 140) => (206, 140),
        (207, 128) => (206, 160),
        (207, 129) => (206, 161),
        (207, 131) | (207, 130) => (206, 163),
        (207, 132) => (206, 164),
        (207, 133) => (206, 165),
        (207, 141) => (206, 142),
        (207, 134) => (206, 166),
        (207, 135) => (206, 167),
        (207, 136) => (206, 168),
        (207, 137) => (206, 169),
        (207, 142) => (206, 143),
        _ => (a, b),
    }
}

} // verus!
