//! Diacritic queries and manipulation: presence tests, removal, and
//! placement at a syllable position counted from the word's end.

use vstd::prelude::*;
use vstd::string::StrSliceExecFns;
use vstd::string::StringExecFns;

use crate::laws::concat_seqs;
use crate::norm::nfc_of;
use crate::norm::nfc_str;
use crate::norm::nfd_of;
use crate::norm::nfd_str;
use crate::rules::is_vowel;
use crate::rules::spec_is_vowel;
use crate::strutil::char_to_string;
use crate::strutil::contains_char;
use crate::strutil::keep_chars;
use crate::strutil::spec_keep;
use crate::syllabify::Syllables;
use crate::syllabify::spec_syllabify_auto;
use crate::syllabify::syllabify;

verus! {

/// The combining diacritical marks of Greek orthography.
pub struct Diacritic;

impl Diacritic {
    /// U+0301: oxia (acute accent).
    pub const ACUTE: char = '\u{0301}';

    /// U+0300: varia (grave accent).
    pub const GRAVE: char = '\u{0300}';

    /// U+0342: perispomeni (circumflex).
    pub const CIRCUMFLEX: char = '\u{0342}';

    /// U+0345: ypogegrammeni (iota subscript).
    pub const IOTA_SUBSCRIPT: char = '\u{0345}';

    /// U+0308: dialytika (diaeresis).
    pub const DIAERESIS: char = '\u{0308}';

    /// U+0313: psili (smooth breathing).
    pub const SMOOTH: char = '\u{0313}';

    /// U+0314: dasia (rough breathing).
    pub const ROUGH: char = '\u{0314}';
}

/// All seven combining diacritics, in a fixed order.
pub open spec fn spec_all_diacritics() -> Seq<char> {
    seq!['\u{0301}', '\u{0300}', '\u{0342}', '\u{0345}', '\u{0308}', '\u{0313}', '\u{0314}']
}

fn all_diacritics() -> (r: Vec<char>)
    ensures
        r@ == spec_all_diacritics(),
{
    let r = vec![
        Diacritic::ACUTE,
        Diacritic::GRAVE,
        Diacritic::CIRCUMFLEX,
        Diacritic::IOTA_SUBSCRIPT,
        Diacritic::DIAERESIS,
        Diacritic::SMOOTH,
        Diacritic::ROUGH,
    ];
    proof {
        assert(r@ =~= spec_all_diacritics());
    }
    r
}

/// The word's canonical decomposition contains this mark.
pub open spec fn spec_has_diacritic(w: Seq<char>, d: char) -> bool {
    nfd_of(w).contains(d)
}

/// Check if the word contains the given diacritic.
pub fn has_diacritic(word: &str, diacritic: char) -> (r: bool)
    ensures
        r == spec_has_diacritic(word@, diacritic),
{
    let nfd = nfd_str(word);
    let nfd_ref = nfd.as_str();
    let n = nfd_ref.unicode_len();
    let mut i: usize = 0;
    while i < n
        invariant
            i <= n,
            n == nfd_of(word@).len(),
            nfd_ref@ == nfd_of(word@),
            forall|t: int| 0 <= t < i ==> nfd_of(word@)[t] != diacritic,
        decreases n - i,
    {
        if nfd_ref.get_char(i) == diacritic {
            return true;
        }
        i = i + 1;
    }
    false
}

/// Check if the word contains a diaeresis.
pub fn has_diaeresis(word: &str) -> (r: bool)
    ensures
        r == spec_has_diacritic(word@, '\u{0308}'),
{
    has_diacritic(word, Diacritic::DIAERESIS)
}

/// Check if the word contains an acute accent.
pub fn has_acute(word: &str) -> (r: bool)
    ensures
        r == spec_has_diacritic(word@, '\u{0301}'),
{
    has_diacritic(word, Diacritic::ACUTE)
}

/// The word's canonical decomposition contains one of these marks.
pub open spec fn spec_has_diacritics(w: Seq<char>, ds: Seq<char>) -> bool {
    exists|t: int| 0 <= t < nfd_of(w).len() && ds.contains(#[trigger] nfd_of(w)[t])
}

/// Check if the word has any of the given diacritics.
pub fn has_diacritics(word: &str, diacritics: &[char]) -> (r: bool)
    ensures
        r == spec_has_diacritics(word@, diacritics@),
{
    let nfd = nfd_str(word);
    let nfd_ref = nfd.as_str();
    let n = nfd_ref.unicode_len();
    let mut i: usize = 0;
    while i < n
        invariant
            i <= n,
            n == nfd_of(word@).len(),
            nfd_ref@ == nfd_of(word@),
            forall|t: int| 0 <= t < i ==> !diacritics@.contains(#[trigger] nfd_of(word@)[t]),
        decreases n - i,
    {
        if contains_char(diacritics, nfd_ref.get_char(i)) {
            return true;
        }
        i = i + 1;
    }
    false
}

/// Check if the word has any diacritic at all.
pub fn has_any_diacritic(word: &str) -> (r: bool)
    ensures
        r == spec_has_diacritics(word@, spec_all_diacritics()),
{
    let ds = all_diacritics();
    has_diacritics(word, ds.as_slice())
}

/// What removing diacritics yields: decompose, drop the given marks,
/// recompose.
pub open spec fn spec_remove_diacritics(w: Seq<char>, ds: Seq<char>) -> Seq<char> {
    nfc_of(spec_keep(nfd_of(w), ds))
}

/// Remove the given diacritics from a word.
pub fn remove_diacritics(s: &str, diacritics: &[char]) -> (r: String)
    ensures
        r@ == spec_remove_diacritics(s@, diacritics@),
{
    let nfd = nfd_str(s);
    let kept = keep_chars(nfd.as_str(), diacritics);
    nfc_str(kept.as_str())
}

/// Remove all diacritics from a word.
pub fn remove_all_diacritics(s: &str) -> (r: String)
    ensures
        r@ == spec_remove_diacritics(s@, spec_all_diacritics()),
{
    let ds = all_diacritics();
    remove_diacritics(s, ds.as_slice())
}

/// Remove the acute accent from a word.
pub fn remove_acute(s: &str) -> (r: String)
    ensures
        r@ == spec_remove_diacritics(s@, seq!['\u{0301}']),
{
    let ds = vec![Diacritic::ACUTE];
    proof {
        assert(ds@ =~= seq!['\u{0301}']);
    }
    remove_diacritics(s, ds.as_slice())
}

/// The 1-based syllable positions, counted from the word's end starting
/// at `k`, whose syllable carries the mark.
pub open spec fn spec_positions_from(syls: Seq<Seq<char>>, d: char, k: int) -> Seq<int>
    decreases syls.len() - k + 1,
{
    if k < 1 || k > syls.len() {
        Seq::empty()
    } else {
        let here: Seq<int> = if spec_has_diacritic(syls[syls.len() - k], d) {
            seq![k]
        } else {
            Seq::empty()
        };
        here + spec_positions_from(syls, d, k + 1)
    }
}

/// The syllable positions where the given diacritic is found, 1-based
/// from the end of the word, in increasing order.
pub open spec fn spec_diacritic_pos(w: Seq<char>, d: char) -> Seq<int> {
    spec_positions_from(spec_syllabify_auto(w), d, 1)
}

/// Return syllable positions where the given diacritic is found.
///
/// The syllable position starts at one and is counted from the end of
/// the word.
pub fn diacritic_pos(s: &str, diacritic: char) -> (r: Vec<usize>)
    ensures
        r@.map_values(|u: usize| u as int) == spec_diacritic_pos(s@, diacritic),
{
    let ghost syls = spec_syllabify_auto(s@);
    let sy = syllabify(s);
    let len = sy.len();
    let mut out: Vec<usize> = Vec::new();
    let mut j: usize = 0;
    proof {
        assert(out@.map_values(|u: usize| u as int) =~= Seq::<int>::empty());
    }
    while j < len
        invariant
            j <= len,
            len == syls.len(),
            sy@ == syls,
            spec_positions_from(syls, diacritic, 1) == out@.map_values(|u: usize| u as int)
                + spec_positions_from(syls, diacritic, j + 1),
        decreases len - j,
    {
        let k = j + 1;
        let syl = sy.get(len - k);
        let ghost prev = out@;
        if has_diacritic(syl, diacritic) {
            out.push(k);
            proof {
                assert(out@.map_values(|u: usize| u as int) =~= prev.map_values(
                    |u: usize| u as int,
                ).push(k as int));
            }
        }
        proof {
            assert(spec_positions_from(syls, diacritic, k as int) == (if spec_has_diacritic(
                syls[syls.len() - k],
                diacritic,
            ) {
                seq![k as int]
            } else {
                Seq::<int>::empty()
            }) + spec_positions_from(syls, diacritic, k + 1));
            assert(spec_positions_from(syls, diacritic, 1) =~= out@.map_values(
                |u: usize| u as int,
            ) + spec_positions_from(syls, diacritic, k + 1));
        }
        j = k;
    }
    proof {
        assert(spec_positions_from(syls, diacritic, j + 1) =~= Seq::<int>::empty());
        assert(out@.map_values(|u: usize| u as int) =~= spec_positions_from(syls, diacritic, 1));
    }
    out
}

/// Join syllables back into one word, with the syllable at `idx`
/// replaced.
fn join_with_replacement(sy: &Syllables, idx: usize, replacement: &str) -> (r: String)
    requires
        idx < sy@.len(),
    ensures
        r@ == concat_seqs(sy@.update(idx as int, replacement@)),
{
    let ghost target = sy@.update(idx as int, replacement@);
    let len = sy.len();
    let mut acc = String::new();
    let mut j: usize = 0;
    proof {
        assert(concat_seqs(target.subrange(0, 0)) =~= Seq::<char>::empty());
    }
    while j < len
        invariant
            j <= len,
            len == sy@.len(),
            idx < sy@.len(),
            target == sy@.update(idx as int, replacement@),
            replacement@ == target[idx as int],
            acc@ == concat_seqs(target.subrange(0, j as int)),
        decreases len - j,
    {
        if j == idx {
            acc.append(replacement);
        } else {
            acc.append(sy.get(j));
        }
        proof {
            let pre = target.subrange(0, j + 1);
            assert(pre.drop_last() =~= target.subrange(0, j as int));
            assert(pre.last() == target[j as int]);
            assert(concat_seqs(pre) == concat_seqs(pre.drop_last()) + pre.last());
        }
        j = j + 1;
    }
    proof {
        assert(target.subrange(0, len as int) =~= target);
    }
    acc
}

/// What removing a diacritic at a syllable position yields: the word
/// unchanged when the position is out of bounds, else the word with that
/// syllable's diacritic removed.
pub open spec fn spec_remove_diacritic_at(w: Seq<char>, pos: int, d: char) -> Seq<char> {
    let syls = spec_syllabify_auto(w);
    if pos == 0 || pos > syls.len() {
        w
    } else {
        let idx = syls.len() - pos;
        concat_seqs(syls.update(idx as int, spec_remove_diacritics(syls[idx as int], seq![d])))
    }
}

/// Remove a diacritic at the given syllable position.
///
/// The syllable position starts at one and is counted from the end of
/// the word; an out-of-bounds position leaves the word unchanged.
pub fn remove_diacritic_at(s: &str, pos: usize, diacritic: char) -> (r: String)
    ensures
        r@ == spec_remove_diacritic_at(s@, pos as int, diacritic),
{
    let sy = syllabify(s);
    let len = sy.len();
    if pos == 0 || pos > len {
        s.to_owned()
    } else {
        let idx = len - pos;
        let ds = vec![diacritic];
        proof {
            assert(ds@ =~= seq![diacritic]);
        }
        let replaced = remove_diacritics(sy.get(idx), ds.as_slice());
        join_with_replacement(&sy, idx, replaced.as_str())
    }
}

/// What recomposing a character with a combining mark yields: the first
/// character of the NFC of the two, or the character itself when the
/// composition is empty.
pub open spec fn spec_add_diacritic_to_char(ch: char, d: char) -> char {
    if nfc_of(seq![ch, d]).len() > 0 {
        nfc_of(seq![ch, d])[0]
    } else {
        ch
    }
}

/// Compose a diacritic onto a character.
pub fn add_diacritic_to_char(ch: char, diacritic: char) -> (r: char)
    ensures
        r == spec_add_diacritic_to_char(ch, diacritic),
{
    let mut two = char_to_string(ch);
    let dstr = char_to_string(diacritic);
    two.append(dstr.as_str());
    proof {
        assert(two@ =~= seq![ch, diacritic]);
    }
    let composed = nfc_str(two.as_str());
    let composed_ref = composed.as_str();
    if composed_ref.unicode_len() > 0 {
        composed_ref.get_char(0)
    } else {
        ch
    }
}

/// The position of the last vowel of a character sequence, or -1 when it
/// has none.
pub open spec fn spec_last_vowel_idx(cs: Seq<char>) -> int
    decreases cs.len(),
{
    if cs.len() == 0 {
        -1
    } else if spec_is_vowel(cs.last()) {
        cs.len() - 1
    } else {
        spec_last_vowel_idx(cs.drop_last())
    }
}

/// What adding a mark to a syllable yields: the mark composed onto the
/// syllable's last vowel, or the syllable unchanged when it has no vowel.
pub open spec fn spec_add_diacritic_at_syllable(cs: Seq<char>, d: char) -> Seq<char> {
    let t = spec_last_vowel_idx(cs);
    if t < 0 {
        cs
    } else {
        cs.update(t, spec_add_diacritic_to_char(cs[t], d))
    }
}

/// Find the last vowel of a string, scanning from the end.
fn last_vowel_idx(s: &str, n: usize) -> (r: Option<usize>)
    requires
        n == s@.len(),
    ensures
        match r {
            Some(t) => t as int == spec_last_vowel_idx(s@) && t < n,
            None => spec_last_vowel_idx(s@) == -1,
        },
{
    proof {
        assert(s@.subrange(0, n as int) =~= s@);
    }
    let mut j: usize = n;
    while j > 0
        invariant
            j <= n,
            n == s@.len(),
            spec_last_vowel_idx(s@) == spec_last_vowel_idx(s@.subrange(0, j as int)),
        decreases j,
    {
        j = j - 1;
        let ghost pre = s@.subrange(0, j + 1);
        proof {
            assert(pre.last() == s@[j as int]);
            assert(pre.drop_last() =~= s@.subrange(0, j as int));
        }
        if is_vowel(s.get_char(j)) {
            proof {
                assert(spec_last_vowel_idx(pre) == j as int);
            }
            return Some(j);
        }
        proof {
            assert(spec_last_vowel_idx(pre) == spec_last_vowel_idx(s@.subrange(0, j as int)));
        }
    }
    proof {
        assert(s@.subrange(0, 0) =~= Seq::<char>::empty());
    }
    None
}

/// Add a diacritic to the first vowel from the end of a syllable.
fn add_diacritic_at_syllable(syllable: &str, diacritic: char) -> (r: String)
    ensures
        r@ == spec_add_diacritic_at_syllable(syllable@, diacritic),
{
    let n = syllable.unicode_len();
    match last_vowel_idx(syllable, n) {
        Some(t) => {
            let newch = add_diacritic_to_char(syllable.get_char(t), diacritic);
            let mut acc = String::from_str(syllable.substring_char(0, t));
            let newstr = char_to_string(newch);
            acc.append(newstr.as_str());
            acc.append(syllable.substring_char(t + 1, n));
            proof {
                assert(acc@ =~= syllable@.update(
                    t as int,
                    spec_add_diacritic_to_char(syllable@[t as int], diacritic),
                ));
            }
            acc
        },
        None => syllable.to_owned(),
    }
}

/// What adding a diacritic at a syllable position yields.
pub open spec fn spec_add_diacritic_at(w: Seq<char>, pos: int, d: char) -> Seq<char> {
    let syls = spec_syllabify_auto(w);
    if pos == 0 || pos > syls.len() {
        w
    } else {
        let idx = syls.len() - pos;
        concat_seqs(syls.update(idx as int, spec_add_diacritic_at_syllable(syls[idx as int], d)))
    }
}

/// Add a diacritic at the given syllable position, on the syllable's
/// last vowel.
fn add_diacritic_at(s: &str, pos: usize, diacritic: char) -> (r: String)
    ensures
        r@ == spec_add_diacritic_at(s@, pos as int, diacritic),
{
    let sy = syllabify(s);
    let len = sy.len();
    if pos == 0 || pos > len {
        s.to_owned()
    } else {
        let idx = len - pos;
        let replaced = add_diacritic_at_syllable(sy.get(idx), diacritic);
        join_with_replacement(&sy, idx, replaced.as_str())
    }
}

/// Add an acute accent at the given syllable position.
///
/// The syllable position starts at one and is counted from the end of
/// the word; an out-of-bounds position leaves the word unchanged.
pub fn add_acute_at(s: &str, pos: usize) -> (r: String)
    ensures
        r@ == spec_add_diacritic_at(s@, pos as int, '\u{0301}'),
{
    add_diacritic_at(s, pos, Diacritic::ACUTE)
}

} // verus!
