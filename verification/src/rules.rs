//! Phonological rule data: vowel inventories, diphthong pair tables and
//! consonant-cluster pair tables for the two language variants, and the
//! candidate synizesis pair table.

use vstd::prelude::*;

use crate::chars::base_lower;
use crate::chars::is_greek_char;
use crate::chars::spec_base_lower;
use crate::chars::spec_is_greek_char;
use crate::norm::char_has_diaeresis;
use crate::norm::spec_char_has_diaeresis;

verus! {

/// The language variant a scan runs under: the Ancient Greek rule set or
/// the Modern Greek one. The scanner algorithm is shared; the variants
/// differ in their vowel inventory and their pair tables.
#[derive(Clone, Copy, PartialEq, Eq, Structural)]
pub enum Variant {
    Ancient,
    Modern,
}

/// A consonant letter of either Greek block, lowercase or uppercase.
pub open spec fn spec_is_consonant(c: char) -> bool {
    c == 'β' || c == 'γ' || c == 'δ' || c == 'ζ' || c == 'θ' || c == 'κ' || c == 'λ'
        || c == 'μ' || c == 'ν' || c == 'ξ' || c == 'π' || c == 'ρ' || c == 'σ' || c == 'ς'
        || c == 'τ' || c == 'φ' || c == 'χ' || c == 'ψ' || c == 'Β' || c == 'Γ' || c == 'Δ'
        || c == 'Ζ' || c == 'Θ' || c == 'Κ' || c == 'Λ' || c == 'Μ' || c == 'Ν' || c == 'Ξ'
        || c == 'Π' || c == 'Ρ' || c == 'Σ' || c == 'Τ' || c == 'Φ' || c == 'Χ' || c == 'Ψ'
}

fn is_consonant(ch: char) -> (r: bool)
    ensures
        r == spec_is_consonant(ch),
{
    match ch {
        'β' | 'γ' | 'δ' | 'ζ' | 'θ' | 'κ' | 'λ' | 'μ' | 'ν' | 'ξ' |
        'π' | 'ρ' | 'σ' | 'ς' | 'τ' | 'φ' | 'χ' | 'ψ' |
        'Β' | 'Γ' | 'Δ' | 'Ζ' | 'Θ' | 'Κ' | 'Λ' | 'Μ' | 'Ν' | 'Ξ' |
        'Π' | 'Ρ' | 'Σ' | 'Τ' | 'Φ' | 'Χ' | 'Ψ' => true,
        _ => false,
    }
}

/// A vowel under the Modern Greek rule set: within the two Greek blocks,
/// everything that is not a consonant letter counts as a vowel.
///
/// Note that this can also return true for characters that do not
/// normalize to a vowel, mainly characters of the Greek blocks that the
/// scanner does not otherwise care about.
pub open spec fn spec_is_vowel(c: char) -> bool {
    if 0x0370 <= c as u32 <= 0x03FF {
        !spec_is_consonant(c)
    } else if 0x1F00 <= c as u32 <= 0x1FFF {
        !(c == 'ῤ' || c == 'ῥ' || c == 'Ῥ')
    } else {
        false
    }
}

/// Return true if ch normalizes to a vowel.
#[verifier::when_used_as_spec(spec_is_vowel)]
pub fn is_vowel(ch: char) -> (r: bool)
    ensures
        r == spec_is_vowel(ch),
{
    let u = ch as u32;
    if 0x0370 <= u && u <= 0x03FF {
        !is_consonant(ch)
    } else if 0x1F00 <= u && u <= 0x1FFF {
        !(ch == 'ῤ' || ch == 'ῥ' || ch == 'Ῥ')
    } else {
        false
    }
}

/// A combining mark that continues a nucleus under the Ancient rule set:
/// the acute accent, the long-vowel (macron) marker, and the rough
/// breathing. Ancient vowel-quantity orthography can place such a bare
/// mark between letters that must not split the nucleus.
pub open spec fn spec_is_nucleus_mark(c: char) -> bool {
    c == '\u{0301}' || c == '\u{0304}' || c == '\u{0314}'
}

fn is_nucleus_mark(ch: char) -> (r: bool)
    ensures
        r == spec_is_nucleus_mark(ch),
{
    ch == '\u{0301}' || ch == '\u{0304}' || ch == '\u{0314}'
}

/// A vowel under the Ancient Greek rule set: a Greek character whose
/// lowercase base form belongs to the seven-vowel inventory, or one of the
/// nucleus-continuing marks.
pub open spec fn spec_is_vowel_gr(c: char) -> bool {
    (spec_is_greek_char(c) && {
        let b = spec_base_lower(c);
        b == 'α' || b == 'ε' || b == 'η' || b == 'ι' || b == 'ο' || b == 'υ' || b == 'ω'
    }) || spec_is_nucleus_mark(c)
}

fn is_vowel_gr(ch: char) -> (r: bool)
    ensures
        r == spec_is_vowel_gr(ch),
{
    if is_greek_char(ch) {
        let b = base_lower(ch);
        match b {
            'α' | 'ε' | 'η' | 'ι' | 'ο' | 'υ' | 'ω' => true,
            _ => is_nucleus_mark(ch),
        }
    } else {
        is_nucleus_mark(ch)
    }
}

/// A vowel under the given variant's rule set.
pub open spec fn spec_is_vowel_v(var: Variant, c: char) -> bool {
    match var {
        Variant::Modern => spec_is_vowel(c),
        Variant::Ancient => spec_is_vowel_gr(c),
    }
}

pub(crate) fn is_vowel_v(var: Variant, ch: char) -> (r: bool)
    ensures
        r == spec_is_vowel_v(var, ch),
{
    match var {
        Variant::Modern => is_vowel(ch),
        Variant::Ancient => is_vowel_gr(ch),
    }
}

/// The diphthong pair table, shared by both variants: the classic eight
/// vowel pairs, compared on lowercase base forms.
pub open spec fn spec_is_diphthong_pair(a: char, b: char) -> bool {
    (a == 'α' && b == 'ι') || (a == 'ε' && b == 'ι') || (a == 'ο' && b == 'ι')
        || (a == 'α' && b == 'υ') || (a == 'ε' && b == 'υ') || (a == 'ο' && b == 'υ')
        || (a == 'η' && b == 'υ') || (a == 'υ' && b == 'ι')
}

fn is_diphthong_pair(a: char, b: char) -> (r: bool)
    ensures
        r == spec_is_diphthong_pair(a, b),
{
    match (a, b) {
        ('α', 'ι') | ('ε', 'ι') | ('ο', 'ι') | ('α', 'υ') | ('ε', 'υ') | ('ο', 'υ')
        | ('η', 'υ') | ('υ', 'ι') => true,
        _ => false,
    }
}

/// An ordinary diphthong under the Modern rule set: the base-lowered pair
/// is in the diphthong table and the second character carries no
/// diaeresis.
pub open spec fn spec_is_diphthong_chars(a: char, b: char) -> bool {
    spec_is_diphthong_pair(spec_base_lower(a), spec_base_lower(b))
        && !spec_char_has_diaeresis(b)
}

/// Return true if the two characters form a diphthong.
pub(crate) fn is_diphthong_chars(a: char, b: char) -> (r: bool)
    ensures
        r == spec_is_diphthong_chars(a, b),
{
    is_diphthong_pair(base_lower(a), base_lower(b)) && !char_has_diaeresis(b)
}

/// Check if the pair of characters forms a diphthong.
///
/// True only for a slice of exactly two characters whose base-lowered
/// pair is in the diphthong table, the second free of diaeresis.
pub fn is_diphthong(chs: &[char]) -> (r: bool)
    ensures
        r == (chs@.len() == 2 && spec_is_diphthong_chars(chs@[0], chs@[1])),
{
    if chs.len() == 2 {
        is_diphthong_chars(chs[0], chs[1])
    } else {
        false
    }
}

/// A diphthong under the Ancient rule set: an ordinary diphthong, or a
/// vowel followed by a nucleus-continuing mark.
pub open spec fn spec_is_diphthong_gr(a: char, b: char) -> bool {
    spec_is_nucleus_mark(b) || spec_is_diphthong_chars(a, b)
}

fn is_diphthong_gr(a: char, b: char) -> (r: bool)
    ensures
        r == spec_is_diphthong_gr(a, b),
{
    is_nucleus_mark(b) || is_diphthong_chars(a, b)
}

/// A diphthong under the given variant's rule set.
pub open spec fn spec_is_diphthong_v(var: Variant, a: char, b: char) -> bool {
    match var {
        Variant::Modern => spec_is_diphthong_chars(a, b),
        Variant::Ancient => spec_is_diphthong_gr(a, b),
    }
}

pub(crate) fn is_diphthong_v(var: Variant, a: char, b: char) -> (r: bool)
    ensures
        r == spec_is_diphthong_v(var, a, b),
{
    match var {
        Variant::Modern => is_diphthong_chars(a, b),
        Variant::Ancient => is_diphthong_gr(a, b),
    }
}

/// The candidate synizesis pair table, matched on the exact characters
/// (accents included, no base folding).
///
/// For completion it contains archaic versions (for example with a
/// diaeresis on the second character), and the pair types for ai, oi and
/// ui; the extra (upsilon, accented iota) pair deals with the overlap of
/// the ou diphthong with a following iota.
pub open spec fn spec_is_candidate_pair(a: char, b: char) -> bool {
    (a == 'α' && b == 'η') || (a == 'ά' && b == 'η') || (a == 'α' && b == 'ϊ')
        || (a == 'α' && b == 'ΐ') || (a == 'ά' && b == 'ι') || (a == 'ά' && b == 'ϊ')
        || (a == 'ο' && b == 'η') || (a == 'ό' && b == 'η') || (a == 'ο' && b == 'ϊ')
        || (a == 'ο' && b == 'ΐ') || (a == 'ό' && b == 'ι') || (a == 'ό' && b == 'ϊ')
        || (a == 'υ' && b == 'η') || (a == 'ύ' && b == 'η') || (a == 'υ' && b == 'ϊ')
        || (a == 'υ' && b == 'ΐ') || (a == 'ύ' && b == 'ι') || (a == 'ύ' && b == 'ϊ')
        || (a == 'υ' && b == 'ί')
}

pub(crate) fn is_candidate_pair(a: char, b: char) -> (r: bool)
    ensures
        r == spec_is_candidate_pair(a, b),
{
    match (a, b) {
        ('α', 'η') | ('ά', 'η') | ('α', 'ϊ') | ('α', 'ΐ') | ('ά', 'ι') | ('ά', 'ϊ')
        | ('ο', 'η') | ('ό', 'η') | ('ο', 'ϊ') | ('ο', 'ΐ') | ('ό', 'ι') | ('ό', 'ϊ')
        | ('υ', 'η') | ('ύ', 'η') | ('υ', 'ϊ') | ('υ', 'ΐ') | ('ύ', 'ι') | ('ύ', 'ϊ')
        | ('υ', 'ί') => true,
        _ => false,
    }
}

/// The Modern Greek onset cluster table: 45 consonant pairs, compared on
/// lowercase base forms. It widens the Ancient table with loanword-driven
/// clusters such as the voiced digraphs and the modern assimilations.
pub open spec fn spec_is_cluster_pair_el(a: char, b: char) -> bool {
    (a == 'β' && (b == 'δ' || b == 'λ' || b == 'ρ' || b == 'γ'))
        || (a == 'γ' && (b == 'κ' || b == 'λ' || b == 'ν' || b == 'ρ'))
        || (a == 'δ' && b == 'ρ')
        || (a == 'θ' && (b == 'λ' || b == 'ν' || b == 'ρ'))
        || (a == 'κ' && (b == 'λ' || b == 'ν' || b == 'ρ' || b == 'τ'))
        || (a == 'μ' && (b == 'ν' || b == 'π'))
        || (a == 'ν' && b == 'τ')
        || (a == 'π' && (b == 'λ' || b == 'ν' || b == 'ρ' || b == 'τ'))
        || (a == 'σ' && (b == 'β' || b == 'θ' || b == 'κ' || b == 'τ' || b == 'φ'
            || b == 'χ' || b == 'μ' || b == 'π'))
        || (a == 'τ' && (b == 'μ' || b == 'ρ' || b == 'ζ' || b == 'σ' || b == 'λ'))
        || (a == 'φ' && (b == 'θ' || b == 'λ' || b == 'ρ' || b == 'τ'))
        || (a == 'χ' && (b == 'λ' || b == 'ρ' || b == 'θ' || b == 'τ' || b == 'ν'))
}

fn is_cluster_pair_el(a: char, b: char) -> (r: bool)
    ensures
        r == spec_is_cluster_pair_el(a, b),
{
    match (a, b) {
        ('β', 'δ') | ('β', 'λ') | ('β', 'ρ') | ('β', 'γ')
        | ('γ', 'κ') | ('γ', 'λ') | ('γ', 'ν') | ('γ', 'ρ')
        | ('δ', 'ρ')
        | ('θ', 'λ') | ('θ', 'ν') | ('θ', 'ρ')
        | ('κ', 'λ') | ('κ', 'ν') | ('κ', 'ρ') | ('κ', 'τ')
        | ('μ', 'ν') | ('μ', 'π')
        | ('ν', 'τ')
        | ('π', 'λ') | ('π', 'ν') | ('π', 'ρ') | ('π', 'τ')
        | ('σ', 'β') | ('σ', 'θ') | ('σ', 'κ') | ('σ', 'τ') | ('σ', 'φ')
        | ('σ', 'χ') | ('σ', 'μ') | ('σ', 'π')
        | ('τ', 'μ') | ('τ', 'ρ') | ('τ', 'ζ') | ('τ', 'σ') | ('τ', 'λ')
        | ('φ', 'θ') | ('φ', 'λ') | ('φ', 'ρ') | ('φ', 'τ')
        | ('χ', 'λ') | ('χ', 'ρ') | ('χ', 'θ') | ('χ', 'τ') | ('χ', 'ν') => true,
        _ => false,
    }
}

/// The Ancient Greek onset cluster table: 33 consonant pairs, the Modern
/// table without the loanword-driven additions.
pub open spec fn spec_is_cluster_pair_gr(a: char, b: char) -> bool {
    (a == 'β' && (b == 'λ' || b == 'ρ'))
        || (a == 'γ' && (b == 'λ' || b == 'ν' || b == 'ρ'))
        || (a == 'δ' && b == 'ρ')
        || (a == 'θ' && (b == 'λ' || b == 'ν' || b == 'ρ'))
        || (a == 'κ' && (b == 'λ' || b == 'ν' || b == 'ρ' || b == 'τ'))
        || (a == 'μ' && b == 'ν')
        || (a == 'π' && (b == 'λ' || b == 'ν' || b == 'ρ' || b == 'τ'))
        || (a == 'σ' && (b == 'θ' || b == 'κ' || b == 'τ' || b == 'φ' || b == 'χ'
            || b == 'μ' || b == 'π'))
        || (a == 'τ' && (b == 'μ' || b == 'ρ'))
        || (a == 'φ' && (b == 'θ' || b == 'λ' || b == 'ρ'))
        || (a == 'χ' && (b == 'λ' || b == 'ρ' || b == 'θ'))
}

fn is_cluster_pair_gr(a: char, b: char) -> (r: bool)
    ensures
        r == spec_is_cluster_pair_gr(a, b),
{
    match (a, b) {
        ('β', 'λ') | ('β', 'ρ')
        | ('γ', 'λ') | ('γ', 'ν') | ('γ', 'ρ')
        | ('δ', 'ρ')
        | ('θ', 'λ') | ('θ', 'ν') | ('θ', 'ρ')
        | ('κ', 'λ') | ('κ', 'ν') | ('κ', 'ρ') | ('κ', 'τ')
        | ('μ', 'ν')
        | ('π', 'λ') | ('π', 'ν') | ('π', 'ρ') | ('π', 'τ')
        | ('σ', 'θ') | ('σ', 'κ') | ('σ', 'τ') | ('σ', 'φ') | ('σ', 'χ')
        | ('σ', 'μ') | ('σ', 'π')
        | ('τ', 'μ') | ('τ', 'ρ')
        | ('φ', 'θ') | ('φ', 'λ') | ('φ', 'ρ')
        | ('χ', 'λ') | ('χ', 'ρ') | ('χ', 'θ') => true,
        _ => false,
    }
}

/// A valid onset cluster under the given variant: the base-lowered pair is
/// in the variant's cluster table.
pub open spec fn spec_is_consonant_cluster_v(var: Variant, a: char, b: char) -> bool {
    match var {
        Variant::Modern => spec_is_cluster_pair_el(spec_base_lower(a), spec_base_lower(b)),
        Variant::Ancient => spec_is_cluster_pair_gr(spec_base_lower(a), spec_base_lower(b)),
    }
}

pub(crate) fn is_consonant_cluster_v(var: Variant, a: char, b: char) -> (r: bool)
    ensures
        r == spec_is_consonant_cluster_v(var, a, b),
{
    match var {
        Variant::Modern => is_cluster_pair_el(base_lower(a), base_lower(b)),
        Variant::Ancient => is_cluster_pair_gr(base_lower(a), base_lower(b)),
    }
}

} // verus!
