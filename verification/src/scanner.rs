//! The syllable boundary scanner: a three-state machine that walks a word's
//! characters from last to first and emits syllable boundaries.
//!
//! The model of a scan is `spec_scan`: from a position `i` (the characters
//! `[0, i)` remain), a state, the exclusive end `to` of the syllable
//! currently forming, and the 1-based count `k` of the syllable being
//! formed (counted from the word's end), it yields the remaining syllable
//! ranges in emission order (rightmost first), the leftover prefix flushed
//! last. Two executable scanners are proved against it: a recursive one
//! that mirrors the model literally, and the production loop.

use vstd::prelude::*;

use crate::rules::Variant;
use crate::rules::is_candidate_pair;
use crate::rules::is_consonant_cluster_v;
use crate::rules::is_diphthong_v;
use crate::rules::is_vowel_v;
use crate::rules::spec_is_candidate_pair;
use crate::rules::spec_is_consonant_cluster_v;
use crate::rules::spec_is_diphthong_v;
use crate::rules::spec_is_vowel_v;
use crate::syllabify::Merge;
use crate::syllabify::spec_merge_at;

verus! {

/// The scanner's state: before the first vowel of the current syllable is
/// seen, inside its nucleus, or inside its onset.
#[derive(Clone, Copy, PartialEq, Eq, Structural)]
pub enum ScanState {
    Start,
    FoundVowel,
    FoundConsonant,
}

/// One step of the scanner at position `p`: the state after processing
/// `w[p]`, and the start of the syllable boundary it emits, if any.
///
/// Positions `p + 1` and `p + 2` are only consulted in states the scanner
/// reaches after having consumed those characters, so a run started at the
/// word's end never reads past it.
pub open spec fn spec_step(
    w: Seq<char>,
    var: Variant,
    m: Merge,
    p: int,
    st: ScanState,
    to: int,
    k: int,
) -> (ScanState, Option<int>) {
    let ch = w[p];
    let vowel = spec_is_vowel_v(var, ch);
    match st {
        ScanState::Start => {
            if vowel {
                (ScanState::FoundVowel, None)
            } else {
                (ScanState::Start, None)
            }
        },
        ScanState::FoundVowel => {
            if vowel {
                let nx = w[p + 1];
                let icd = spec_is_candidate_pair(ch, nx);
                if spec_merge_at(m, k) && (icd || ch == 'ι' || ch == 'υ' || ch == 'η'
                    || ch == 'ϊ') {
                    if icd && !spec_merge_at(m, k + 1) {
                        // The pair would merge here but the syllable after
                        // this one must not: emit the part after the iota.
                        (ScanState::FoundVowel, Some(p + 1))
                    } else {
                        // Keep extending: synizesis.
                        (ScanState::FoundVowel, None)
                    }
                } else if !icd && spec_is_diphthong_v(var, ch, nx) {
                    if p + 2 < w.len() && w[p + 2] == 'ι' && to > p + 2 {
                        // Three-vowel overlap: the diphthong-extended window
                        // would span past an iota two positions back; emit
                        // the boundary right after that iota instead.
                        (ScanState::FoundVowel, Some(p + 2))
                    } else {
                        // Keep extending: ordinary diphthong.
                        (ScanState::FoundVowel, None)
                    }
                } else {
                    // The nucleus is complete.
                    (ScanState::FoundVowel, Some(p + 1))
                }
            } else {
                (ScanState::FoundConsonant, None)
            }
        },
        ScanState::FoundConsonant => {
            let nx = w[p + 1];
            if vowel {
                // A new nucleus starts: emit the syllable built so far.
                (ScanState::FoundVowel, Some(p + 1))
            } else if !spec_is_consonant_cluster_v(var, ch, nx) {
                // The onset cannot be extended: the rejected consonant
                // becomes the coda-start of the next syllable backward.
                (ScanState::Start, Some(p + 1))
            } else {
                (ScanState::FoundConsonant, None)
            }
        },
    }
}

/// The syllable ranges a scan emits from position `i` down, in emission
/// order (rightmost syllable first), ending with the flushed prefix
/// `[0, to)` if it is non-empty.
pub open spec fn spec_scan(
    w: Seq<char>,
    var: Variant,
    m: Merge,
    i: int,
    st: ScanState,
    to: int,
    k: int,
) -> Seq<(int, int)>
    decreases i,
{
    if i <= 0 {
        if to > 0 {
            seq![(0int, to)]
        } else {
            Seq::empty()
        }
    } else {
        let p = i - 1;
        let s = spec_step(w, var, m, p, st, to, k);
        match s.1 {
            Some(fr) => seq![(fr, to)] + spec_scan(w, var, m, p, s.0, fr, k + 1),
            None => spec_scan(w, var, m, p, s.0, to, k),
        }
    }
}

/// The scanner's data invariant: the end of the syllable being formed lies
/// beyond every unprocessed character, and one consumed character beyond
/// that once the state has left `Start`.
pub open spec fn scan_inv(w: Seq<char>, i: int, st: ScanState, to: int) -> bool {
    &&& 0 <= i
    &&& to <= w.len()
    &&& if st == ScanState::Start {
        to >= i
    } else {
        to >= i + 1
    }
}

/// A sequence of ranges in emission order exactly tiles `[lo, hi)`: each
/// range is non-empty, ends where the previously emitted one began, and
/// the earliest one starts at `lo`.
pub open spec fn ranges_tile(rs: Seq<(int, int)>, lo: int, hi: int) -> bool
    decreases rs.len(),
{
    if rs.len() == 0 {
        lo == hi
    } else {
        rs[0].1 == hi && lo <= rs[0].0 < hi && ranges_tile(rs.drop_first(), lo, rs[0].0)
    }
}

/// What a scan emits tiles the interval from the word's start to the
/// current syllable end: the ranges are non-empty, contiguous and cover
/// `[0, to)` exactly.
pub proof fn lemma_scan_tile(
    w: Seq<char>,
    var: Variant,
    m: Merge,
    i: int,
    st: ScanState,
    to: int,
    k: int,
)
    requires
        scan_inv(w, i, st, to),
    ensures
        ranges_tile(spec_scan(w, var, m, i, st, to, k), 0, to),
    decreases i,
{
    if i <= 0 {
        if to > 0 {
            let rs = spec_scan(w, var, m, i, st, to, k);
            assert(rs.drop_first() =~= Seq::empty());
            assert(ranges_tile(rs.drop_first(), 0, 0));
        }
    } else {
        let p = i - 1;
        let s = spec_step(w, var, m, p, st, to, k);
        match s.1 {
            Some(fr) => {
                assert(p + 1 <= fr <= p + 2 && fr < to);
                assert(scan_inv(w, p, s.0, fr));
                lemma_scan_tile(w, var, m, p, s.0, fr, k + 1);
                let rs = spec_scan(w, var, m, i, st, to, k);
                assert(rs.drop_first() =~= spec_scan(w, var, m, p, s.0, fr, k + 1));
                assert(rs[0] == (fr, to));
            },
            None => {
                assert(scan_inv(w, p, s.0, to));
                lemma_scan_tile(w, var, m, p, s.0, to, k);
            },
        }
    }
}

/// Every range of a tiling sequence is a non-empty subrange of `[lo, hi)`.
pub proof fn lemma_tile_elements(rs: Seq<(int, int)>, lo: int, hi: int)
    requires
        ranges_tile(rs, lo, hi),
    ensures
        forall|j: int| 0 <= j < rs.len() ==> {
            let rj = #[trigger] rs[j];
            lo <= rj.0 < rj.1 <= hi
        },
    decreases rs.len(),
{
    if rs.len() > 0 {
        lemma_tile_elements(rs.drop_first(), lo, rs[0].0);
        assert forall|j: int| 0 <= j < rs.len() implies {
            let rj = #[trigger] rs[j];
            lo <= rj.0 < rj.1 <= hi
        } by {
            if j > 0 {
                assert(rs[j] == rs.drop_first()[j - 1]);
            }
        }
    }
}

/// In a word with no vowel the scanner never leaves `Start` and emits no
/// boundary: the whole remaining prefix is flushed as one piece.
pub proof fn lemma_scan_no_vowel(
    w: Seq<char>,
    var: Variant,
    m: Merge,
    i: int,
    to: int,
    k: int,
)
    requires
        0 <= i,
        forall|p: int| 0 <= p < i ==> !spec_is_vowel_v(var, w[p]),
    ensures
        spec_scan(w, var, m, i, ScanState::Start, to, k) == if to > 0 {
            seq![(0int, to)]
        } else {
            Seq::<(int, int)>::empty()
        },
    decreases i,
{
    if i > 0 {
        lemma_scan_no_vowel(w, var, m, i - 1, to, k);
    }
}

/// Emitting more boundaries never shortens the scan's output: scanning
/// under the always-merge policy yields at most as many syllables as
/// scanning under the never-merge policy, from any pair of aligned
/// configurations whose never-merge syllable end does not lie beyond the
/// always-merge one.
pub proof fn lemma_scan_merge_monotone(
    w: Seq<char>,
    var: Variant,
    i: int,
    st: ScanState,
    to_e: int,
    to_n: int,
    k_e: int,
    k_n: int,
)
    requires
        scan_inv(w, i, st, to_e),
        scan_inv(w, i, st, to_n),
        to_n <= to_e,
    ensures
        spec_scan(w, var, Merge::Every, i, st, to_e, k_e).len() <= spec_scan(
            w,
            var,
            Merge::Never,
            i,
            st,
            to_n,
            k_n,
        ).len() + if to_n < to_e {
            1int
        } else {
            0int
        },
    decreases i,
{
    if i <= 0 {
    } else {
        let p = i - 1;
        let se = spec_step(w, var, Merge::Every, p, st, to_e, k_e);
        let sn = spec_step(w, var, Merge::Never, p, st, to_n, k_n);
        assert(se.0 == sn.0);
        let st2 = se.0;
        match (se.1, sn.1) {
            (Some(fe), Some(fn_)) => {
                assert(fe == fn_);
                lemma_scan_merge_monotone(w, var, p, st2, fe, fn_, k_e + 1, k_n + 1);
            },
            (Some(fe), None) => {
                // Only the three-vowel overlap can make the always-merge
                // run emit alone, and there the never-merge run's syllable
                // already ends at that iota.
                assert(to_n == fe);
                lemma_scan_merge_monotone(w, var, p, st2, fe, to_n, k_e + 1, k_n);
            },
            (None, Some(fn_)) => {
                lemma_scan_merge_monotone(w, var, p, st2, to_e, fn_, k_e, k_n + 1);
            },
            (None, None) => {
                lemma_scan_merge_monotone(w, var, p, st2, to_e, to_n, k_e, k_n);
            },
        }
    }
}

/// Map a vector of index ranges to its mathematical form.
pub open spec fn ranges_as_int(rs: Seq<(usize, usize)>) -> Seq<(int, int)> {
    rs.map_values(|r: (usize, usize)| (r.0 as int, r.1 as int))
}

/// One executable step of the scanner, agreeing with `spec_step`.
fn step(
    v: &Vec<char>,
    var: Variant,
    m: &Merge,
    p: usize,
    st: ScanState,
    to: usize,
    k: u128,
) -> (r: (ScanState, Option<usize>))
    requires
        p < v@.len(),
        to <= v@.len(),
        to >= p + 1,
        st != ScanState::Start ==> p + 1 < v@.len() && to >= p + 2,
        k < u128::MAX,
    ensures
        ({
            let s = spec_step(v@, var, *m, p as int, st, to as int, k as int);
            &&& r.0 == s.0
            &&& match r.1 {
                Some(fr) => s.1 == Some(fr as int) && p < fr < to,
                None => s.1 is None,
            }
            &&& (r.0 != ScanState::Start ==> match r.1 {
                Some(fr) => fr >= p + 1,
                None => to >= p + 1,
            })
        }),
{
    let ch = v[p];
    let vowel = is_vowel_v(var, ch);
    match st {
        ScanState::Start => {
            if vowel {
                (ScanState::FoundVowel, None)
            } else {
                (ScanState::Start, None)
            }
        },
        ScanState::FoundVowel => {
            if vowel {
                let nx = v[p + 1];
                let icd = is_candidate_pair(ch, nx);
                if m.to_bool(k) && (icd || ch == 'ι' || ch == 'υ' || ch == 'η' || ch == 'ϊ') {
                    if icd && !m.to_bool(k + 1) {
                        (ScanState::FoundVowel, Some(p + 1))
                    } else {
                        (ScanState::FoundVowel, None)
                    }
                } else if !icd && is_diphthong_v(var, ch, nx) {
                    if p + 2 < v.len() && v[p + 2] == 'ι' && to > p + 2 {
                        (ScanState::FoundVowel, Some(p + 2))
                    } else {
                        (ScanState::FoundVowel, None)
                    }
                } else {
                    (ScanState::FoundVowel, Some(p + 1))
                }
            } else {
                (ScanState::FoundConsonant, None)
            }
        },
        ScanState::FoundConsonant => {
            let nx = v[p + 1];
            if vowel {
                (ScanState::FoundVowel, Some(p + 1))
            } else if !is_consonant_cluster_v(var, ch, nx) {
                (ScanState::Start, Some(p + 1))
            } else {
                (ScanState::FoundConsonant, None)
            }
        },
    }
}

/// The production scanner: a single backward pass over the characters,
/// emitting ranges as it goes and flushing the remaining prefix.
pub(crate) fn scan_ranges(v: &Vec<char>, var: Variant, m: &Merge) -> (out: Vec<(usize, usize)>)
    ensures
        ranges_as_int(out@) == spec_scan(
            v@,
            var,
            *m,
            v@.len() as int,
            ScanState::Start,
            v@.len() as int,
            1,
        ),
{
    let n = v.len();
    let mut out: Vec<(usize, usize)> = Vec::new();
    let mut st = ScanState::Start;
    let mut to: usize = n;
    let mut k: u128 = 1;
    let mut i: usize = n;
    while i > 0
        invariant
            n == v@.len(),
            i <= n,
            to <= n,
            scan_inv(v@, i as int, st, to as int),
            1 <= k,
            k as int <= n - i + 1,
            spec_scan(v@, var, *m, n as int, ScanState::Start, n as int, 1) == ranges_as_int(
                out@,
            ) + spec_scan(v@, var, *m, i as int, st, to as int, k as int),
        decreases i,
    {
        let p = i - 1;
        let (st2, dumped) = step(v, var, m, p, st, to, k);
        match dumped {
            Some(fr) => {
                out.push((fr, to));
                assert(ranges_as_int(out@) =~= ranges_as_int(out@.drop_last()).push(
                    (fr as int, to as int),
                ));
                to = fr;
                k = k + 1;
            },
            None => {},
        }
        st = st2;
        i = p;
        assert(spec_scan(v@, var, *m, n as int, ScanState::Start, n as int, 1) =~= ranges_as_int(
            out@,
        ) + spec_scan(v@, var, *m, i as int, st, to as int, k as int));
    }
    if to > 0 {
        out.push((0, to));
    }
    assert(ranges_as_int(out@) =~= spec_scan(
        v@,
        var,
        *m,
        n as int,
        ScanState::Start,
        n as int,
        1,
    ));
    out
}

/// The reference scanner: a direct recursive rendering of `spec_scan`,
/// kept deliberately simple so the production pass above can be checked
/// against an independent implementation of the same model.
pub(crate) fn scan_ranges_ref_from(
    v: &Vec<char>,
    var: Variant,
    m: &Merge,
    i: usize,
    st: ScanState,
    to: usize,
    k: u128,
) -> (out: Vec<(usize, usize)>)
    requires
        i <= v@.len(),
        v@.len() <= usize::MAX,
        to <= v@.len(),
        scan_inv(v@, i as int, st, to as int),
        k as int <= v@.len() - i + 1,
        1 <= k,
    ensures
        ranges_as_int(out@) == spec_scan(v@, var, *m, i as int, st, to as int, k as int),
    decreases i,
{
    proof {
        assert(k < u128::MAX);
    }
    if i == 0 {
        let mut out: Vec<(usize, usize)> = Vec::new();
        if to > 0 {
            out.push((0, to));
        }
        assert(ranges_as_int(out@) =~= spec_scan(v@, var, *m, 0, st, to as int, k as int));
        out
    } else {
        let p = i - 1;
        let (st2, dumped) = step(v, var, m, p, st, to, k);
        match dumped {
            Some(fr) => {
                let mut out: Vec<(usize, usize)> = Vec::new();
                out.push((fr, to));
                let mut rest = scan_ranges_ref_from(v, var, m, p, st2, fr, k + 1);
                out.append(&mut rest);
                assert(ranges_as_int(out@) =~= seq![(fr as int, to as int)] + spec_scan(
                    v@,
                    var,
                    *m,
                    p as int,
                    st2,
                    fr as int,
                    (k + 1) as int,
                ));
                out
            },
            None => scan_ranges_ref_from(v, var, m, p, st2, to, k),
        }
    }
}

/// Run the reference scanner over a whole word.
pub(crate) fn scan_ranges_ref(v: &Vec<char>, var: Variant, m: &Merge) -> (out: Vec<
    (usize, usize),
>)
    ensures
        ranges_as_int(out@) == spec_scan(
            v@,
            var,
            *m,
            v@.len() as int,
            ScanState::Start,
            v@.len() as int,
            1,
        ),
{
    let n = v.len();
    scan_ranges_ref_from(v, var, m, n, ScanState::Start, n, 1)
}

} // verus!
