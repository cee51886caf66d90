//! Polytonic to monotonic conversion: per-word accent rewriting driven by
//! the syllabifier, with punctuation kept in place.

use vstd::prelude::*;
use vstd::string::StrSliceExecFns;
use vstd::string::StringExecFns;

use crate::accents::Diacritic;
use crate::accents::has_acute;
use crate::accents::remove_acute;
use crate::accents::remove_diacritic_at;
use crate::accents::spec_has_diacritic;
use crate::accents::spec_remove_diacritic_at;
use crate::accents::spec_remove_diacritics;
use crate::chars::alphabetic_of;
use crate::chars::char_is_alphabetic;
use crate::chars::char_is_whitespace;
use crate::chars::ends_with_diphthong;
use crate::chars::is_greek_letter;
use crate::chars::is_greek_word;
use crate::chars::spec_ends_with_diphthong;
use crate::chars::spec_is_greek_letter;
use crate::chars::spec_is_greek_word;
use crate::chars::whitespace_of;
use crate::constants::apostrophes;
use crate::constants::monosyl_remove_accent;
use crate::constants::monosyllable_accented;
use crate::constants::spec_apostrophes;
use crate::constants::spec_monosyl_remove_accent;
use crate::constants::spec_monosyllable_accented;
use crate::laws::concat_seqs;
use crate::laws::lemma_concat_cons;
use crate::norm::nfc_of;
use crate::norm::nfc_str;
use crate::norm::nfd_of;
use crate::norm::nfd_str;
use crate::strutil::char_to_string;
use crate::strutil::contains_char;
use crate::strutil::str_eq;
use crate::strutil::str_list_contains;
use crate::strutil::strs_view;
use crate::syllabify::spec_syllabify_auto;
use crate::syllabify::syllabify;

verus! {

/// A character that carries text rather than punctuation: a Greek letter,
/// or any alphabetic character other than the modifier-letter apostrophe.
pub open spec fn spec_not_punct(c: char) -> bool {
    spec_is_greek_letter(c) || (c != '\u{02BC}' && alphabetic_of(c))
}

/// Check that a character is not punctuation.
pub fn not_punct(ch: char) -> (r: bool)
    ensures
        r == spec_not_punct(ch),
{
    is_greek_letter(ch) || (ch != '\u{02BC}' && char_is_alphabetic(ch))
}

/// The position of the first non-punctuation character, or -1.
pub open spec fn spec_first_np(w: Seq<char>) -> int
    decreases w.len(),
{
    if w.len() == 0 {
        -1
    } else if spec_not_punct(w[0]) {
        0
    } else {
        let r = spec_first_np(w.drop_first());
        if r < 0 {
            -1
        } else {
            r + 1
        }
    }
}

/// One past the position of the last non-punctuation character, or 0.
pub open spec fn spec_last_np_end(w: Seq<char>) -> int
    decreases w.len(),
{
    if w.len() == 0 {
        0
    } else if spec_not_punct(w.last()) {
        w.len() as int
    } else {
        spec_last_np_end(w.drop_last())
    }
}

/// What splitting punctuation yields: left punctuation, core, right
/// punctuation; a word without any text character is all left
/// punctuation.
pub open spec fn spec_split_punctuation(w: Seq<char>) -> (Seq<char>, Seq<char>, Seq<char>) {
    let a = spec_first_np(w);
    if a < 0 {
        (w, Seq::empty(), Seq::empty())
    } else {
        let b = spec_last_np_end(w);
        (w.subrange(0, a), w.subrange(a, b), w.subrange(b, w.len() as int))
    }
}

/// Split a string into (left punctuation, core, right punctuation).
///
/// Leaves punctuation inside the core untouched.
pub fn split_punctuation<'a>(s: &'a str) -> (r: (&'a str, &'a str, &'a str))
    ensures
        ({
            let t = spec_split_punctuation(s@);
            r.0@ == t.0 && r.1@ == t.1 && r.2@ == t.2
        }),
{
    let n = s.unicode_len();
    proof {
        assert(s@.subrange(0, n as int) =~= s@);
    }
    let mut i: usize = 0;
    let mut found: bool = false;
    while i < n && !found
        invariant
            i <= n,
            n == s@.len(),
            !found ==> spec_first_np(s@) == ({
                let r = spec_first_np(s@.subrange(i as int, n as int));
                if r < 0 {
                    -1int
                } else {
                    r + i
                }
            }),
            found ==> 0 <= spec_first_np(s@) == i < n && spec_not_punct(s@[i as int]),
        decreases n - i + (if found {
            0int
        } else {
            1int
        }),
    {
        let ghost suf = s@.subrange(i as int, n as int);
        proof {
            assert(suf[0] == s@[i as int]);
            assert(suf.drop_first() =~= s@.subrange(i + 1, n as int));
        }
        if not_punct(s.get_char(i)) {
            found = true;
        } else {
            i = i + 1;
        }
    }
    if !found {
        proof {
            assert(s@.subrange(i as int, n as int) =~= Seq::<char>::empty());
            assert(spec_first_np(s@) == -1);
            reveal_strlit("");
            assert(""@ =~= Seq::<char>::empty());
        }
        // If there are no text characters, treat the word as left
        // punctuation.
        return (s, "", "");
    }
    let a = i;
    // Since some index holds a text character, there must be a last one.
    let mut j: usize = n;
    proof {
        assert(spec_last_np_end(s@) == spec_last_np_end(s@.subrange(0, j as int)));
    }
    while j > 0
        invariant
            j <= n,
            n == s@.len(),
            a < n,
            spec_not_punct(s@[a as int]),
            0 <= spec_first_np(s@) == a,
            spec_last_np_end(s@) == spec_last_np_end(s@.subrange(0, j as int)),
            forall|t: int| j <= t < n ==> !spec_not_punct(#[trigger] s@[t]),
        decreases j,
    {
        j = j - 1;
        let ghost pre = s@.subrange(0, j + 1);
        proof {
            assert(pre.last() == s@[j as int]);
            assert(pre.drop_last() =~= s@.subrange(0, j as int));
        }
        if not_punct(s.get_char(j)) {
            proof {
                assert(spec_last_np_end(pre) == j + 1);
                if a > j {
                    assert(!spec_not_punct(s@[a as int]));
                }
            }
            let b = j + 1;
            return (s.substring_char(0, a), s.substring_char(a, b), s.substring_char(b, n));
        }
        proof {
            assert(spec_last_np_end(pre) == spec_last_np_end(s@.subrange(0, j as int)));
        }
    }
    proof {
        assert(!spec_not_punct(s@[a as int]));
        reveal_strlit("");
        assert(""@ =~= Seq::<char>::empty());
    }
    (s, "", "")
}

/// The polytonic word forms that are rewritten as a whole: sometimes the
/// polytonic spelling decides the monotonic one, and sometimes, due to
/// synizesis, the word with replaced acute accents does not exist.
pub open spec fn spec_special_case(w: Seq<char>) -> Option<Seq<char>> {
    if w == "\u{03C0}\u{03BF}\u{1F7A}"@ {
        Some("\u{03C0}\u{03BF}\u{03C5}"@)
    } else if w == "\u{03A0}\u{03BF}\u{1F7A}"@ {
        Some("\u{03A0}\u{03BF}\u{03C5}"@)
    } else if w == "\u{03C0}\u{1F7C}\u{03C2}"@ {
        Some("\u{03C0}\u{03C9}\u{03C2}"@)
    } else if w == "\u{03A0}\u{1F7C}\u{03C2}"@ {
        Some("\u{03A0}\u{03C9}\u{03C2}"@)
    } else if w == "\u{03C0}\u{03BF}\u{03B9}\u{1F78}\u{03C2}"@ {
        Some("\u{03C0}\u{03BF}\u{03B9}\u{03BF}\u{03C2}"@)
    } else if w == "\u{03A0}\u{03BF}\u{03B9}\u{1F78}\u{03C2}"@ {
        Some("\u{03A0}\u{03BF}\u{03B9}\u{03BF}\u{03C2}"@)
    } else if w == "\u{03C0}\u{03BF}\u{03B9}\u{1F70}"@ {
        Some("\u{03C0}\u{03BF}\u{03B9}\u{03B1}"@)
    } else if w == "\u{03A0}\u{03BF}\u{03B9}\u{1F70}"@ {
        Some("\u{03A0}\u{03BF}\u{03B9}\u{03B1}"@)
    } else {
        None
    }
}

/// Look a word up among the special cases.
fn special_cases(s: &str) -> (r: Option<&'static str>)
    ensures
        match r {
            Some(x) => spec_special_case(s@) == Some(x@),
            None => spec_special_case(s@) is None,
        },
{
    if str_eq(s, "\u{03C0}\u{03BF}\u{1F7A}") {
        Some("\u{03C0}\u{03BF}\u{03C5}")
    } else if str_eq(s, "\u{03A0}\u{03BF}\u{1F7A}") {
        Some("\u{03A0}\u{03BF}\u{03C5}")
    } else if str_eq(s, "\u{03C0}\u{1F7C}\u{03C2}") {
        Some("\u{03C0}\u{03C9}\u{03C2}")
    } else if str_eq(s, "\u{03A0}\u{1F7C}\u{03C2}") {
        Some("\u{03A0}\u{03C9}\u{03C2}")
    } else if str_eq(s, "\u{03C0}\u{03BF}\u{03B9}\u{1F78}\u{03C2}") {
        Some("\u{03C0}\u{03BF}\u{03B9}\u{03BF}\u{03C2}")
    } else if str_eq(s, "\u{03A0}\u{03BF}\u{03B9}\u{1F78}\u{03C2}") {
        Some("\u{03A0}\u{03BF}\u{03B9}\u{03BF}\u{03C2}")
    } else if str_eq(s, "\u{03C0}\u{03BF}\u{03B9}\u{1F70}") {
        Some("\u{03C0}\u{03BF}\u{03B9}\u{03B1}")
    } else if str_eq(s, "\u{03A0}\u{03BF}\u{03B9}\u{1F70}") {
        Some("\u{03A0}\u{03BF}\u{03B9}\u{03B1}")
    } else {
        None
    }
}

/// One pass over a decomposed word: drop the iota subscript and the two
/// breathings, and turn grave and circumflex into acute.
pub open spec fn spec_acute_fold(s: Seq<char>) -> Seq<char>
    decreases s.len(),
{
    if s.len() == 0 {
        Seq::empty()
    } else {
        let rest = spec_acute_fold(s.drop_last());
        let c = s.last();
        if c == '\u{0345}' || c == '\u{0314}' || c == '\u{0313}' {
            rest
        } else if c == '\u{0300}' || c == '\u{0342}' {
            rest.push('\u{0301}')
        } else {
            rest.push(c)
        }
    }
}

/// What converting to acute yields: decompose, rewrite the marks,
/// recompose.
pub open spec fn spec_convert_to_acute(w: Seq<char>) -> Seq<char> {
    nfc_of(spec_acute_fold(nfd_of(w)))
}

/// Remove ancient diacritics and convert grave and circumflex to acute
/// in a single pass.
fn convert_to_acute(s: &str) -> (r: String)
    ensures
        r@ == spec_convert_to_acute(s@),
{
    let nfd = nfd_str(s);
    let nfd_ref = nfd.as_str();
    let n = nfd_ref.unicode_len();
    let mut acc = String::new();
    let mut i: usize = 0;
    proof {
        assert(nfd_ref@.subrange(0, 0) =~= Seq::<char>::empty());
        assert(spec_acute_fold(nfd_ref@.subrange(0, 0)) =~= Seq::<char>::empty());
    }
    while i < n
        invariant
            i <= n,
            n == nfd_of(s@).len(),
            nfd_ref@ == nfd_of(s@),
            acc@ == spec_acute_fold(nfd_of(s@).subrange(0, i as int)),
        decreases n - i,
    {
        let ch = nfd_ref.get_char(i);
        let ghost pre = nfd_ref@.subrange(0, i + 1);
        proof {
            assert(pre.drop_last() =~= nfd_ref@.subrange(0, i as int));
            assert(pre.last() == nfd_ref@[i as int]);
        }
        if ch == Diacritic::IOTA_SUBSCRIPT || ch == Diacritic::ROUGH || ch == Diacritic::SMOOTH {
            proof {
                assert(spec_acute_fold(pre) == spec_acute_fold(pre.drop_last()));
            }
        } else if ch == Diacritic::GRAVE || ch == Diacritic::CIRCUMFLEX {
            let acute = char_to_string(Diacritic::ACUTE);
            acc.append(acute.as_str());
            proof {
                assert(acc@ =~= spec_acute_fold(pre.drop_last()).push('\u{0301}'));
                assert(spec_acute_fold(pre) == spec_acute_fold(pre.drop_last()).push('\u{0301}'));
            }
        } else {
            let piece = nfd_ref.substring_char(i, i + 1);
            acc.append(piece);
            proof {
                assert(acc@ =~= spec_acute_fold(pre.drop_last()).push(pre.last()));
                assert(spec_acute_fold(pre) == spec_acute_fold(pre.drop_last()).push(pre.last()));
            }
        }
        i = i + 1;
    }
    proof {
        assert(nfd_ref@.subrange(0, n as int) =~= nfd_of(s@));
    }
    nfc_str(acc.as_str())
}

/// The wrongly written diaeresis sequences: after an accented vowel the
/// diaeresis is superfluous.
pub open spec fn spec_diaereses_wrong() -> Seq<Seq<char>> {
    seq![
        "άϊ"@, "Άϊ"@, "άϋ"@, "Άϋ"@, "έϊ"@, "Έϊ"@, "έϋ"@, "Έϋ"@, "όϊ"@, "Όϊ"@, "όϋ"@,
        "Όϋ"@, "ούϊ"@, "Ούϊ"@,
    ]
}

/// The corrected counterparts, in the same order.
pub open spec fn spec_diaereses_correct() -> Seq<Seq<char>> {
    seq![
        "άι"@, "Άι"@, "άυ"@, "Άυ"@, "έι"@, "Έι"@, "έυ"@, "Έυ"@, "όι"@, "Όι"@, "όυ"@,
        "Όυ"@, "ούι"@, "Ούι"@,
    ]
}

fn diaereses_wrong() -> (r: Vec<&'static str>)
    ensures
        strs_view(r@) == spec_diaereses_wrong(),
{
    let r = vec![
        "άϊ", "Άϊ", "άϋ", "Άϋ", "έϊ", "Έϊ", "έϋ", "Έϋ", "όϊ", "Όϊ", "όϋ", "Όϋ", "ούϊ",
        "Ούϊ",
    ];
    proof {
        assert(strs_view(r@) =~= spec_diaereses_wrong());
    }
    r
}

fn diaereses_correct() -> (r: Vec<&'static str>)
    ensures
        strs_view(r@) == spec_diaereses_correct(),
{
    let r = vec![
        "άι", "Άι", "άυ", "Άυ", "έι", "Έι", "έυ", "Έυ", "όι", "Όι", "όυ", "Όυ", "ούι",
        "Ούι",
    ];
    proof {
        assert(strs_view(r@) =~= spec_diaereses_correct());
    }
    r
}

/// What `aho_corasick`'s automaton yields when every occurrence of a
/// pattern in the haystack is replaced by the corresponding replacement:
/// a function of the haystack and the two tables alone.
pub uninterp spec fn replace_all_of(
    h: Seq<char>,
    pats: Seq<Seq<char>>,
    reps: Seq<Seq<char>>,
) -> Seq<char>;

/// Relies on `aho_corasick::AhoCorasick::replace_all` with the crate's
/// default match semantics: deterministic in the haystack, the patterns
/// and the replacements.
#[verifier::external_body]
fn replace_all_ac(h: &str, pats: &Vec<&str>, reps: &Vec<&str>) -> (r: String)
    requires
        pats@.len() == reps@.len(),
    ensures
        r@ == replace_all_of(h@, strs_view(pats@), strs_view(reps@)),
{
    match aho_corasick::AhoCorasick::new(pats.iter().copied()) {
        Ok(ac) => ac.replace_all(h, reps.as_slice()),
        Err(_) => h.to_string(),
    }
}

/// What removing superfluous diaereses yields.
pub open spec fn spec_remove_superfluous_diaereses(w: Seq<char>) -> Seq<char> {
    replace_all_of(w, spec_diaereses_wrong(), spec_diaereses_correct())
}

/// Replace wrongly written diaeresis sequences over a whole text.
fn remove_superfluous_diaereses(s: &str) -> (r: String)
    ensures
        r@ == spec_remove_superfluous_diaereses(s@),
{
    let wrong = diaereses_wrong();
    let correct = diaereses_correct();
    proof {
        assert(wrong@.len() == strs_view(wrong@).len());
        assert(correct@.len() == strs_view(correct@).len());
    }
    replace_all_ac(s, &wrong, &correct)
}

/// What converting one word to monotonic Greek yields.
///
/// A non-Greek word is left unchanged. Otherwise the core between the
/// punctuation is rewritten: a special-cased form wholesale; any other
/// form gets its ancient marks converted to acute, then loses the acute
/// again if it is a monosyllable that should carry none, a listed
/// katharevousa form, or a word with acute accents on its last two
/// syllables (the second of which is then dropped).
pub open spec fn spec_to_monotonic_word(w: Seq<char>) -> Seq<char> {
    if !spec_is_greek_word(w) {
        w
    } else {
        let t = spec_split_punctuation(w);
        let left = t.0;
        let core = t.1;
        let right = t.2;
        match spec_special_case(core) {
            Some(rep) => left + rep + right,
            None => {
                let out = spec_convert_to_acute(core);
                let ends_abbrev = right.len() > 0 && spec_apostrophes().contains(right[0]);
                let syls = spec_syllabify_auto(out);
                let out2 = if syls.len() == 1 {
                    if !spec_monosyllable_accented().contains(syls[0]) && !ends_abbrev
                        && !spec_ends_with_diphthong(out) {
                        spec_remove_diacritics(out, seq!['\u{0301}'])
                    } else {
                        out
                    }
                } else if syls.len() >= 2 {
                    if spec_monosyl_remove_accent().contains(out) {
                        spec_remove_diacritics(out, seq!['\u{0301}'])
                    } else if spec_has_diacritic(syls[syls.len() - 2], '\u{0301}')
                        && spec_has_diacritic(syls[syls.len() - 1], '\u{0301}') {
                        spec_remove_diacritic_at(out, 1, '\u{0301}')
                    } else {
                        out
                    }
                } else {
                    out
                };
                left + out2 + right
            },
        }
    }
}

/// Convert a string representing a word to monotonic Greek.
fn to_monotonic_word(s: &str) -> (r: String)
    ensures
        r@ == spec_to_monotonic_word(s@),
{
    // Do not remove accents if the word is not greek.
    if !is_greek_word(s) {
        return s.to_owned();
    }
    let (left_punct, core, right_punct) = split_punctuation(s);
    match special_cases(core) {
        Some(rep) => {
            let mut res = String::from_str(left_punct);
            res.append(rep);
            res.append(right_punct);
            res
        },
        None => {
            let mut out = convert_to_acute(core);
            let aps = apostrophes();
            let ends_with_abbreviation = right_punct.unicode_len() > 0 && contains_char(
                aps.as_slice(),
                right_punct.get_char(0),
            );
            let sy = syllabify(out.as_str());
            let len = sy.len();
            if len == 1 {
                // To remove the acute, the word should not be in the
                // excluded list, not end in an abbreviation mark, and not
                // end in a diphthong.
                let mono = monosyllable_accented();
                if !str_list_contains(mono.as_slice(), sy.get(0)) && !ends_with_abbreviation
                    && !ends_with_diphthong(out.as_str()) {
                    out = remove_acute(out.as_str());
                }
            } else if len >= 2 {
                let listed = monosyl_remove_accent();
                if str_list_contains(listed.as_slice(), out.as_str()) {
                    out = remove_acute(out.as_str());
                } else if has_acute(sy.get(len - 2)) && has_acute(sy.get(len - 1)) {
                    out = remove_diacritic_at(out.as_str(), 1, Diacritic::ACUTE);
                }
            }
            let mut res = String::from_str(left_punct);
            res.append(out.as_str());
            res.append(right_punct);
            res
        },
    }
}

/// A character on which the text is cut into word segments: hyphens (and
/// faulty variations) and whitespace.
pub open spec fn spec_is_separator(c: char) -> bool {
    c == '-' || c == '\u{2014}' || whitespace_of(c)
}

fn is_separator(ch: char) -> (r: bool)
    ensures
        r == spec_is_separator(ch),
{
    ch == '-' || ch == '\u{2014}' || char_is_whitespace(ch)
}

/// The position of the first separator, or -1.
pub open spec fn spec_first_sep(w: Seq<char>) -> int
    decreases w.len(),
{
    if w.len() == 0 {
        -1
    } else if spec_is_separator(w[0]) {
        0
    } else {
        let r = spec_first_sep(w.drop_first());
        if r < 0 {
            -1
        } else {
            r + 1
        }
    }
}

/// The word segments of a text, separators kept at the end of their
/// segment.
pub open spec fn spec_segments(w: Seq<char>) -> Seq<Seq<char>>
    decreases w.len(),
{
    if w.len() == 0 {
        Seq::empty()
    } else {
        let i = spec_first_sep(w);
        if i < 0 || i >= w.len() {
            seq![w]
        } else {
            seq![w.subrange(0, i + 1)] + spec_segments(w.subrange(i + 1, w.len() as int))
        }
    }
}

/// The text's segments converted one by one and joined back.
pub open spec fn spec_monotonic_core(w: Seq<char>) -> Seq<char> {
    concat_seqs(spec_segments(w).map_values(|g: Seq<char>| spec_to_monotonic_word(g)))
}

/// What converting a text to monotonic Greek yields: each word segment
/// converted, then superfluous diaereses removed over the whole result.
pub open spec fn spec_to_monotonic(w: Seq<char>) -> Seq<char> {
    spec_remove_superfluous_diaereses(spec_monotonic_core(w))
}

/// Convert text from polytonic to monotonic Greek.
///
/// Leaves non greek words unchanged.
pub fn to_monotonic(s: &str) -> (r: String)
    ensures
        r@ == spec_to_monotonic(s@),
{
    let n = s.unicode_len();
    let mut acc = String::new();
    let mut pos: usize = 0;
    let ghost f = |g: Seq<char>| spec_to_monotonic_word(g);
    proof {
        assert(s@.subrange(0, n as int) =~= s@);
        assert(concat_seqs(Seq::<Seq<char>>::empty()) =~= Seq::<char>::empty());
    }
    while pos < n
        invariant
            pos <= n,
            n == s@.len(),
            f == (|g: Seq<char>| spec_to_monotonic_word(g)),
            spec_monotonic_core(s@) == acc@ + concat_seqs(
                spec_segments(s@.subrange(pos as int, n as int)).map_values(f),
            ),
        decreases n - pos,
    {
        let ghost suf = s@.subrange(pos as int, n as int);
        // Find the end of the current segment: one past the first
        // separator, or the end of the text.
        let mut j: usize = pos;
        let mut sep_found: bool = false;
        while j < n && !sep_found
            invariant
                pos <= j <= n,
                n == s@.len(),
                suf == s@.subrange(pos as int, n as int),
                !sep_found ==> spec_first_sep(suf) == ({
                    let r = spec_first_sep(s@.subrange(j as int, n as int));
                    if r < 0 {
                        -1int
                    } else {
                        r + j - pos
                    }
                }),
                sep_found ==> pos <= j < n && spec_first_sep(suf) == j - pos
                    && spec_is_separator(s@[j as int]),
            decreases n - j + (if sep_found {
                0int
            } else {
                1int
            }),
        {
            let ghost sufj = s@.subrange(j as int, n as int);
            proof {
                assert(sufj[0] == s@[j as int]);
                assert(sufj.drop_first() =~= s@.subrange(j + 1, n as int));
            }
            if is_separator(s.get_char(j)) {
                sep_found = true;
            } else {
                j = j + 1;
            }
        }
        let end: usize = if sep_found {
            j + 1
        } else {
            proof {
                assert(s@.subrange(j as int, n as int) =~= Seq::<char>::empty());
            }
            n
        };
        let segment = s.substring_char(pos, end);
        let word = to_monotonic_word(segment);
        acc.append(word.as_str());
        proof {
            let rest = s@.subrange(end as int, n as int);
            assert(segment@ =~= suf.subrange(0, end - pos));
            assert(rest =~= suf.subrange(end - pos, suf.len() as int));
            assert(spec_segments(suf) == seq![segment@] + spec_segments(rest));
            assert(spec_segments(suf).map_values(f) =~= seq![f(segment@)] + spec_segments(
                rest,
            ).map_values(f));
            lemma_concat_cons(f(segment@), spec_segments(rest).map_values(f));
        }
        pos = end;
    }
    proof {
        assert(s@.subrange(pos as int, n as int) =~= Seq::<char>::empty());
        assert(spec_monotonic_core(s@) =~= acc@);
    }
    remove_superfluous_diaereses(acc.as_str())
}

} // verus!
