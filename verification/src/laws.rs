//! The library's laws: lossless partition, non-emptiness, merge
//! monotonicity and the degenerate single-syllable case, stated over the
//! specification functions that the public entry points' contracts use.

use vstd::prelude::*;

use crate::rules::Variant;
use crate::rules::spec_is_vowel_v;
use crate::scanner::ScanState;
use crate::scanner::lemma_scan_merge_monotone;
use crate::scanner::lemma_scan_no_vowel;
use crate::scanner::lemma_scan_tile;
use crate::scanner::ranges_tile;
use crate::scanner::scan_inv;
use crate::scanner::spec_scan;
use crate::syllabify::Merge;
use crate::syllabify::spec_split_ranges;
use crate::syllabify::spec_syllabify_auto;
use crate::syllabify::spec_syllabify_scan;
use crate::syllabify::spec_valid_splits;
use crate::synizesis::spec_lookup_synizesis;

verus! {

/// The concatenation of a sequence of character sequences, in order.
pub open spec fn concat_seqs(ss: Seq<Seq<char>>) -> Seq<char>
    decreases ss.len(),
{
    if ss.len() == 0 {
        Seq::empty()
    } else {
        concat_seqs(ss.drop_last()) + ss.last()
    }
}

/// Concatenation peels its first element off the front.
pub proof fn lemma_concat_cons(x: Seq<char>, rest: Seq<Seq<char>>)
    ensures
        concat_seqs(seq![x] + rest) == x + concat_seqs(rest),
    decreases rest.len(),
{
    if rest.len() == 0 {
        assert((seq![x] + rest) =~= seq![x]);
        assert(seq![x].drop_last() =~= Seq::<Seq<char>>::empty());
        assert(concat_seqs(Seq::<Seq<char>>::empty()) =~= Seq::<char>::empty());
        assert(concat_seqs(seq![x]) == concat_seqs(seq![x].drop_last()) + seq![x].last());
        assert(concat_seqs(seq![x] + rest) =~= x + concat_seqs(rest));
    } else {
        let whole = seq![x] + rest;
        assert(whole.drop_last() =~= seq![x] + rest.drop_last());
        assert(whole.last() == rest.last());
        lemma_concat_cons(x, rest.drop_last());
        assert(concat_seqs(whole) == concat_seqs(seq![x] + rest.drop_last()) + rest.last());
        assert(concat_seqs(rest) == concat_seqs(rest.drop_last()) + rest.last());
        assert(x + concat_seqs(rest.drop_last()) + rest.last() =~= x + concat_seqs(rest));
    }
}

/// Ranges in left-to-right order that exactly cover `[lo, hi)`, peeled
/// from the right.
pub open spec fn ranges_cover(rs: Seq<(int, int)>, lo: int, hi: int) -> bool
    decreases rs.len(),
{
    if rs.len() == 0 {
        lo == hi
    } else {
        rs.last().1 == hi && lo <= rs.last().0 < hi && ranges_cover(
            rs.drop_last(),
            lo,
            rs.last().0,
        )
    }
}

/// Ranges that tile an interval in emission order cover it when read
/// left to right.
proof fn lemma_tile_reverse_cover(rs: Seq<(int, int)>, lo: int, hi: int)
    requires
        ranges_tile(rs, lo, hi),
    ensures
        ranges_cover(rs.reverse(), lo, hi),
    decreases rs.len(),
{
    if rs.len() > 0 {
        lemma_tile_reverse_cover(rs.drop_first(), lo, rs[0].0);
        assert(rs.reverse().last() == rs[0]);
        assert(rs.reverse().drop_last() =~= rs.drop_first().reverse());
    }
}

/// Reading the covering ranges back out of the word and concatenating
/// them reproduces the covered interval.
proof fn lemma_cover_concat(w: Seq<char>, rs: Seq<(int, int)>, lo: int, hi: int)
    requires
        ranges_cover(rs, lo, hi),
        0 <= lo <= hi <= w.len(),
    ensures
        concat_seqs(rs.map_values(|r: (int, int)| w.subrange(r.0, r.1))) == w.subrange(lo, hi),
    decreases rs.len(),
{
    let f = |r: (int, int)| w.subrange(r.0, r.1);
    if rs.len() == 0 {
        assert(rs.map_values(f).len() == 0);
        assert(concat_seqs(rs.map_values(f)) =~= w.subrange(lo, hi));
    } else {
        let mid = rs.last().0;
        lemma_cover_elements(rs, lo, hi);
        lemma_cover_concat(w, rs.drop_last(), lo, mid);
        assert(rs.map_values(f).drop_last() =~= rs.drop_last().map_values(f));
        assert(rs.map_values(f).last() == w.subrange(mid, hi));
        assert(concat_seqs(rs.map_values(f)) == w.subrange(lo, mid) + w.subrange(mid, hi));
        assert(w.subrange(lo, mid) + w.subrange(mid, hi) =~= w.subrange(lo, hi));
    }
}

/// Every covering range is a non-empty subrange of `[lo, hi)`.
proof fn lemma_cover_elements(rs: Seq<(int, int)>, lo: int, hi: int)
    requires
        ranges_cover(rs, lo, hi),
    ensures
        forall|j: int| 0 <= j < rs.len() ==> {
            let rj = #[trigger] rs[j];
            lo <= rj.0 < rj.1 <= hi
        },
        lo <= hi,
    decreases rs.len(),
{
    if rs.len() > 0 {
        lemma_cover_elements(rs.drop_last(), lo, rs.last().0);
        assert forall|j: int| 0 <= j < rs.len() implies {
            let rj = #[trigger] rs[j];
            lo <= rj.0 < rj.1 <= hi
        } by {
            if j < rs.len() - 1 {
                assert(rs[j] == rs.drop_last()[j]);
            }
        }
    }
}

/// The scanner's ranges for a whole word cover it left to right.
proof fn lemma_scan_ranges_cover(w: Seq<char>, var: Variant, m: Merge)
    ensures
        ranges_cover(
            crate::syllabify::spec_syllable_ranges(w, var, m),
            0,
            w.len() as int,
        ),
{
    let n = w.len() as int;
    lemma_scan_tile(w, var, m, n, ScanState::Start, n, 1);
    lemma_tile_reverse_cover(spec_scan(w, var, m, n, ScanState::Start, n, 1), 0, n);
}

/// Lossless partition, scanner paths: for every word, variant and merge
/// policy, concatenating the syllables reproduces the word exactly.
pub proof fn lemma_syllabify_lossless(w: Seq<char>, var: Variant, m: Merge)
    ensures
        concat_seqs(spec_syllabify_scan(w, var, m)) == w,
{
    let rs = crate::syllabify::spec_syllable_ranges(w, var, m);
    lemma_scan_ranges_cover(w, var, m);
    lemma_cover_concat(w, rs, 0, w.len() as int);
    assert(w.subrange(0, w.len() as int) =~= w);
}

/// Non-emptiness, scanner paths: a non-empty word has at least one
/// syllable, and every syllable is non-empty.
pub proof fn lemma_syllabify_nonempty(w: Seq<char>, var: Variant, m: Merge)
    ensures
        w.len() > 0 ==> spec_syllabify_scan(w, var, m).len() >= 1,
        forall|j: int| 0 <= j < spec_syllabify_scan(w, var, m).len()
            ==> #[trigger] spec_syllabify_scan(w, var, m)[j].len() > 0,
{
    let rs = crate::syllabify::spec_syllable_ranges(w, var, m);
    let syls = spec_syllabify_scan(w, var, m);
    lemma_scan_ranges_cover(w, var, m);
    lemma_cover_elements(rs, 0, w.len() as int);
    if w.len() > 0 {
        assert(rs.len() > 0);
    }
    assert forall|j: int| 0 <= j < syls.len() implies #[trigger] syls[j].len() > 0 by {
        assert(syls[j] == w.subrange(rs[j].0, rs[j].1));
    }
}

/// The empty word has no syllables, on every path.
pub proof fn lemma_syllabify_empty(var: Variant, m: Merge)
    ensures
        spec_syllabify_scan(Seq::<char>::empty(), var, m).len() == 0,
        spec_syllabify_auto(Seq::<char>::empty()).len() == 0,
{
    let w = Seq::<char>::empty();
    let rs = crate::syllabify::spec_syllable_ranges(w, var, m);
    lemma_scan_ranges_cover(w, var, m);
    lemma_cover_elements(rs, 0, 0);
    if rs.len() > 0 {
        assert(rs[rs.len() - 1] == rs.last());
    }
    lemma_scan_ranges_cover(w, Variant::Modern, Merge::Never);
    let rsn = crate::syllabify::spec_syllable_ranges(w, Variant::Modern, Merge::Never);
    lemma_cover_elements(rsn, 0, 0);
    if rsn.len() > 0 {
        assert(rsn[rsn.len() - 1] == rsn.last());
    }
    match spec_lookup_synizesis(w) {
        Some(bs) => {
            assert(!spec_valid_splits(bs, 0));
        },
        None => {},
    }
}

/// A word with no vowel at all comes back as one syllable equal to the
/// whole input: the scanner never leaves its initial state.
pub proof fn lemma_syllabify_no_vowel(w: Seq<char>, var: Variant, m: Merge)
    requires
        w.len() > 0,
        forall|p: int| 0 <= p < w.len() ==> !spec_is_vowel_v(var, #[trigger] w[p]),
    ensures
        spec_syllabify_scan(w, var, m) == seq![w],
{
    let n = w.len() as int;
    lemma_scan_no_vowel(w, var, m, n, n, 1);
    let em = spec_scan(w, var, m, n, ScanState::Start, n, 1);
    assert(em == seq![(0int, n)]);
    assert(em.reverse() =~= seq![(0int, n)]);
    let syls = spec_syllabify_scan(w, var, m);
    assert(syls.len() == 1);
    assert(syls[0] == w.subrange(0, n));
    assert(w.subrange(0, n) =~= w);
    assert(syls =~= seq![w]);
}

/// A word with no vowel at all comes back as one syllable on the
/// automatic path too: it is never a lexicon key, and the scanner never
/// leaves its initial state.
pub proof fn lemma_syllabify_auto_no_vowel(w: Seq<char>)
    requires
        w.len() > 0,
        forall|p: int| 0 <= p < w.len() ==> !crate::rules::spec_is_vowel(#[trigger] w[p]),
    ensures
        spec_syllabify_auto(w) == seq![w],
{
    crate::synizesis::lemma_lexicon_needs_vowel(w);
    assert forall|p: int| 0 <= p < w.len() implies !spec_is_vowel_v(
        Variant::Modern,
        #[trigger] w[p],
    ) by {}
    lemma_syllabify_no_vowel(w, Variant::Modern, Merge::Never);
}

/// Merge monotonicity: always merging yields at most as many syllables
/// as never merging, for every word.
pub proof fn lemma_merge_monotone(w: Seq<char>)
    ensures
        spec_syllabify_scan(w, Variant::Modern, Merge::Every).len() <= spec_syllabify_scan(
            w,
            Variant::Modern,
            Merge::Never,
        ).len(),
{
    let n = w.len() as int;
    lemma_scan_merge_monotone(w, Variant::Modern, n, ScanState::Start, n, n, 1, 1);
}

/// Lossless partition, automatic path: the lexicon's precomputed
/// syllables also concatenate back to the word exactly.
pub proof fn lemma_syllabify_auto_lossless(w: Seq<char>)
    ensures
        concat_seqs(spec_syllabify_auto(w)) == w,
{
    match spec_lookup_synizesis(w) {
        Some(bs) => {
            if spec_valid_splits(bs, w.len() as int) {
                lemma_split_cover(bs, w.len() as int);
                lemma_cover_concat(w, spec_split_ranges(bs, w.len() as int), 0, w.len() as int);
                assert(w.subrange(0, w.len() as int) =~= w);
            } else {
                lemma_syllabify_lossless(w, Variant::Modern, Merge::Never);
            }
        },
        None => {
            lemma_syllabify_lossless(w, Variant::Modern, Merge::Never);
        },
    }
}

/// Non-emptiness, automatic path.
pub proof fn lemma_syllabify_auto_nonempty(w: Seq<char>)
    ensures
        w.len() > 0 ==> spec_syllabify_auto(w).len() >= 1,
        forall|j: int| 0 <= j < spec_syllabify_auto(w).len()
            ==> #[trigger] spec_syllabify_auto(w)[j].len() > 0,
{
    let syls = spec_syllabify_auto(w);
    match spec_lookup_synizesis(w) {
        Some(bs) => {
            if spec_valid_splits(bs, w.len() as int) {
                let rs = spec_split_ranges(bs, w.len() as int);
                lemma_split_cover(bs, w.len() as int);
                lemma_cover_elements(rs, 0, w.len() as int);
                assert forall|j: int| 0 <= j < syls.len() implies #[trigger] syls[j].len() > 0 by {
                    assert(syls[j] == w.subrange(rs[j].0, rs[j].1));
                }
            } else {
                lemma_syllabify_nonempty(w, Variant::Modern, Merge::Never);
            }
        },
        None => {
            lemma_syllabify_nonempty(w, Variant::Modern, Merge::Never);
        },
    }
}

/// In a strictly increasing list every earlier element lies below the
/// last one.
proof fn lemma_increasing_below_last(bs: Seq<usize>)
    requires
        bs.len() > 0,
        forall|j: int| 0 < j < bs.len() ==> #[trigger] bs[j - 1] < bs[j],
    ensures
        forall|j: int| 0 <= j < bs.len() - 1 ==> #[trigger] bs[j] < bs.last(),
    decreases bs.len(),
{
    if bs.len() > 1 {
        let d = bs.drop_last();
        assert forall|j: int| 0 < j < d.len() implies #[trigger] d[j - 1] < d[j] by {
            assert(d[j - 1] == bs[j - 1]);
            assert(d[j] == bs[j]);
        }
        lemma_increasing_below_last(d);
        assert forall|j: int| 0 <= j < bs.len() - 1 implies #[trigger] bs[j] < bs.last() by {
            assert(bs[bs.len() - 2] < bs[bs.len() - 1]);
            if j < bs.len() - 2 {
                assert(d[j] == bs[j]);
                assert(d[j] < d.last());
                assert(d.last() == bs[bs.len() - 2]);
            }
        }
    }
}

/// Valid split points cover the whole word left to right.
proof fn lemma_split_cover(bs: Seq<usize>, n: int)
    requires
        spec_valid_splits(bs, n),
    ensures
        ranges_cover(spec_split_ranges(bs, n), 0, n),
    decreases bs.len(),
{
    let rs = spec_split_ranges(bs, n);
    if bs.len() == 0 {
        assert(rs.last() == (0int, n));
        assert(rs.drop_last() =~= Seq::<(int, int)>::empty());
        assert(ranges_cover(rs.drop_last(), 0, 0));
        assert(ranges_cover(rs, 0, n));
    } else {
        let m = bs.last() as int;
        assert(rs.last() == (m, n));
        lemma_increasing_below_last(bs);
        assert forall|j: int| 0 <= j < bs.drop_last().len() implies 0 < #[trigger] bs.drop_last()[j]
            < m by {
            assert(bs.drop_last()[j] == bs[j]);
        }
        assert forall|j: int| 0 < j < bs.drop_last().len() implies #[trigger] bs.drop_last()[j - 1]
            < bs.drop_last()[j] by {
            assert(bs.drop_last()[j - 1] == bs[j - 1]);
            assert(bs.drop_last()[j] == bs[j]);
        }
        lemma_split_cover(bs.drop_last(), m);
        assert(rs.drop_last() =~= spec_split_ranges(bs.drop_last(), m));
        assert(bs.last() == bs[bs.len() - 1]);
        assert(0 < bs[bs.len() - 1] < n);
        assert(ranges_cover(rs, 0, n));
    }
}

} // verus!
