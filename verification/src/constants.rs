//! Constant tables of the library: apostrophe characters and the
//! accented-monosyllable word lists, capitalized variants included.

use vstd::prelude::*;

use crate::strutil::strs_view;

verus! {

/// Characters used to indicate abbreviation or elision in Greek words.
///
/// Note that this does not include the dot or ellipsis, because, unlike
/// those, apostrophes can only omit one letter. Besides the three main
/// characters described by the Unicode consortium it lists the wrong
/// variants seen in practice: koronis, psili, the left single quotation
/// mark, the acute accent and the Greek tonos.
pub open spec fn spec_apostrophes() -> Seq<char> {
    seq!['\u{0027}', '\u{2019}', '\u{02BC}', '\u{1FBD}', '\u{1FBF}', '\u{2018}',
        '\u{00B4}', '\u{0384}']
}

/// Characters used to indicate abbreviation or elision in Greek words.
pub fn apostrophes() -> (r: Vec<char>)
    ensures
        r@ == spec_apostrophes(),
{
    let r = vec!['\u{0027}', '\u{2019}', '\u{02BC}', '\u{1FBD}', '\u{1FBF}', '\u{2018}',
        '\u{00B4}', '\u{0384}'];
    proof {
        assert(r@ =~= spec_apostrophes());
    }
    r
}

/// Correctly accented monosyllables. Does not contain pronouns.
pub open spec fn spec_monosyllable_accented() -> Seq<Seq<char>> {
    seq!["ή"@, "Ή"@, "πού"@, "Πού"@, "πώς"@, "Πώς"@, "είς"@, "Είς"@, "έν"@, "Έν"@, "έξ"@, "Έξ"@]
}

/// Correctly accented monosyllables. Does not contain pronouns.
pub fn monosyllable_accented() -> (r: Vec<&'static str>)
    ensures
        strs_view(r@) == spec_monosyllable_accented(),
{
    let r = vec!["ή", "Ή", "πού", "Πού", "πώς", "Πώς", "είς", "Είς", "έν", "Έν", "έξ", "Έξ"];
    proof {
        assert(strs_view(r@) =~= spec_monosyllable_accented());
    }
    r
}

/// Correctly accented monosyllables, including (accented versions of) pronouns.
pub open spec fn spec_monosyllable_accented_with_pronouns() -> Seq<Seq<char>> {
    seq!["ή"@, "Ή"@, "πού"@, "Πού"@, "πώς"@, "Πώς"@, "είς"@, "Είς"@, "έν"@, "Έν"@, "έξ"@, "Έξ"@, "μού"@, "Μού"@, "μάς"@, "Μάς"@, "τού"@, "Τού"@, "τής"@, "Τής"@, "τούς"@, "Τούς"@, "τών"@, "Τών"@, "σού"@, "Σού"@, "σάς"@, "Σάς"@]
}

/// Correctly accented monosyllables, including (accented versions of) pronouns.
pub fn monosyllable_accented_with_pronouns() -> (r: Vec<&'static str>)
    ensures
        strs_view(r@) == spec_monosyllable_accented_with_pronouns(),
{
    let r = vec!["ή", "Ή", "πού", "Πού", "πώς", "Πώς", "είς", "Είς", "έν", "Έν", "έξ", "Έξ", "μού", "Μού", "μάς", "Μάς", "τού", "Τού", "τής", "Τής", "τούς", "Τούς", "τών", "Τών", "σού", "Σού", "σάς", "Σάς"];
    proof {
        assert(strs_view(r@) =~= spec_monosyllable_accented_with_pronouns());
    }
    r
}

/// Monosyllables whose polytonic accent conflicts with the syllabification logic and is removed.
pub open spec fn spec_monosyl_remove_accent() -> Seq<Seq<char>> {
    seq!["πιό"@, "Πιό"@, "πιά"@, "Πιά"@, "μιά"@, "Μιά"@, "μιάς"@, "Μιάς"@, "γιά"@, "Γιά"@, "γειά"@, "Γειά"@, "πιώ"@, "Πιώ"@, "πίεις"@, "Πίεις"@, "πίη"@, "Πίη"@, "πιή"@, "Πιή"@, "πίει"@, "Πίει"@, "πιεί"@, "Πιεί"@, "πίης"@, "Πίης"@, "πιής"@, "Πιής"@, "πιούν"@, "Πιούν"@, "πιές"@, "Πιές"@]
}

/// Monosyllables whose polytonic accent conflicts with the syllabification logic and is removed.
pub fn monosyl_remove_accent() -> (r: Vec<&'static str>)
    ensures
        strs_view(r@) == spec_monosyl_remove_accent(),
{
    let r = vec!["πιό", "Πιό", "πιά", "Πιά", "μιά", "Μιά", "μιάς", "Μιάς", "γιά", "Γιά", "γειά", "Γειά", "πιώ", "Πιώ", "πίεις", "Πίεις", "πίη", "Πίη", "πιή", "Πιή", "πίει", "Πίει", "πιεί", "Πιεί", "πίης", "Πίης", "πιής", "Πιής", "πιούν", "Πιούν", "πιές", "Πιές"];
    proof {
        assert(strs_view(r@) =~= spec_monosyl_remove_accent());
    }
    r
}

/// Words with multiple accepted pronunciations: accent not on the last syllable, with possible synizesis at the last syllable.
pub open spec fn spec_multiple_pronunciation() -> Seq<Seq<char>> {
    seq!["άδεια"@, "Άδεια"@, "άδειας"@, "Άδειας"@, "άδειες"@, "Άδειες"@, "ακρίβεια"@, "Ακρίβεια"@, "ακρίβειας"@, "Ακρίβειας"@, "ακρίβειες"@, "Ακρίβειες"@, "άγιος"@, "Άγιος"@, "άγιου"@, "Άγιου"@, "άγιο"@, "Άγιο"@, "άγιε"@, "Άγιε"@, "άγιοι"@, "Άγιοι"@, "άγιων"@, "Άγιων"@, "άγιους"@, "Άγιους"@, "άγια"@, "Άγια"@, "άγιας"@, "Άγιας"@, "άγιες"@, "Άγιες"@, "έννοια"@, "Έννοια"@, "έννοιας"@, "Έννοιας"@, "έννοιες"@, "Έννοιες"@, "ήπια"@, "Ήπια"@, "ήπιε"@, "Ήπιε"@, "ήπιες"@, "Ήπιες"@, "ίδιος"@, "Ίδιος"@, "ίδιο"@, "Ίδιο"@, "ίδιε"@, "Ίδιε"@, "ίδιοι"@, "Ίδιοι"@, "ίδια"@, "Ίδια"@, "ήλιου"@, "Ήλιου"@, "ήλιο"@, "Ήλιο"@, "μύριοι"@, "Μύριοι"@, "μύριων"@, "Μύριων"@, "μύριους"@, "Μύριους"@, "μύριες"@, "Μύριες"@, "μύρια"@, "Μύρια"@, "αρχοντολόγια"@, "Αρχοντολόγια"@, "πλάγια"@, "Πλάγια"@, "φυλάκια"@, "Φυλάκια"@, "ουράνια"@, "Ουράνια"@]
}

/// Words with multiple accepted pronunciations: accent not on the last syllable, with possible synizesis at the last syllable.
pub fn multiple_pronunciation() -> (r: Vec<&'static str>)
    ensures
        strs_view(r@) == spec_multiple_pronunciation(),
{
    let r = vec!["άδεια", "Άδεια", "άδειας", "Άδειας", "άδειες", "Άδειες", "ακρίβεια", "Ακρίβεια", "ακρίβειας", "Ακρίβειας", "ακρίβειες", "Ακρίβειες", "άγιος", "Άγιος", "άγιου", "Άγιου", "άγιο", "Άγιο", "άγιε", "Άγιε", "άγιοι", "Άγιοι", "άγιων", "Άγιων", "άγιους", "Άγιους", "άγια", "Άγια", "άγιας", "Άγιας", "άγιες", "Άγιες", "έννοια", "Έννοια", "έννοιας", "Έννοιας", "έννοιες", "Έννοιες", "ήπια", "Ήπια", "ήπιε", "Ήπιε", "ήπιες", "Ήπιες", "ίδιος", "Ίδιος", "ίδιο", "Ίδιο", "ίδιε", "Ίδιε", "ίδιοι", "Ίδιοι", "ίδια", "Ίδια", "ήλιου", "Ήλιου", "ήλιο", "Ήλιο", "μύριοι", "Μύριοι", "μύριων", "Μύριων", "μύριους", "Μύριους", "μύριες", "Μύριες", "μύρια", "Μύρια", "αρχοντολόγια", "Αρχοντολόγια", "πλάγια", "Πλάγια", "φυλάκια", "Φυλάκια", "ουράνια", "Ουράνια"];
    proof {
        assert(strs_view(r@) =~= spec_multiple_pronunciation());
    }
    r
}

} // verus!
