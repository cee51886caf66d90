//! Greek text utilities: syllabification of Modern and Ancient Greek words,
//! diacritic manipulation, and polytonic to monotonic conversion.
//!
//! The syllabifiers are specified by a mathematical model of the boundary
//! scanner (`spec_syllabify_scan`, `spec_syllabify_auto`); the `lemma_`
//! functions state the library's laws over that model: the syllables of a
//! word always concatenate back to the word exactly, a non-empty word has
//! at least one syllable and no empty ones, always-merging never yields
//! more syllables than never-merging, and a vowel-less word comes back
//! whole.

mod accents;
mod chars;
pub mod constants;
mod laws;
mod monotonic;
mod norm;
mod rules;
mod scanner;
mod strutil;
mod syllabify;
mod synizesis;

pub use accents::Diacritic;
pub use accents::add_acute_at;
pub use accents::add_diacritic_to_char;
pub use accents::diacritic_pos;
pub use accents::has_acute;
pub use accents::has_any_diacritic;
pub use accents::has_diacritic;
pub use accents::has_diacritics;
pub use accents::has_diaeresis;
pub use accents::remove_acute;
pub use accents::remove_all_diacritics;
pub use accents::remove_diacritic_at;
pub use accents::remove_diacritics;

pub use chars::base_lower;
pub use chars::ends_with_diphthong;
pub use chars::is_greek_and_coptic_char;
pub use chars::is_greek_char;
pub use chars::is_greek_extended_char;
pub use chars::is_greek_letter;
pub use chars::is_greek_word;
pub use chars::to_uppercase_gr_bytes;

pub use monotonic::not_punct;
pub use monotonic::split_punctuation;
pub use monotonic::to_monotonic;

pub use rules::Variant;
pub use rules::is_diphthong;
pub use rules::is_vowel;

pub use syllabify::Merge;
pub use syllabify::Syllables;
pub use syllabify::spec_merge_at;
pub use syllabify::spec_syllabify_auto;
pub use syllabify::spec_syllabify_scan;
pub use syllabify::syllabify;
pub use syllabify::syllabify_gr;
pub use syllabify::syllabify_gr_ref;
pub use syllabify::syllabify_with_merge;

pub use laws::concat_seqs;
pub use laws::lemma_merge_monotone;
pub use laws::lemma_syllabify_auto_lossless;
pub use laws::lemma_syllabify_auto_no_vowel;
pub use laws::lemma_syllabify_auto_nonempty;
pub use laws::lemma_syllabify_empty;
pub use laws::lemma_syllabify_lossless;
pub use laws::lemma_syllabify_no_vowel;
pub use laws::lemma_syllabify_nonempty;
