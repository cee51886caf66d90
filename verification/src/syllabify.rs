//! Syllabification of Greek words: the public entry points, the merge
//! policy, and the borrowed-substring result type.

use vstd::prelude::*;
use vstd::string::StrSliceExecFns;

use crate::rules::Variant;
use crate::scanner::ScanState;
use crate::scanner::lemma_scan_tile;
use crate::scanner::lemma_tile_elements;
use crate::scanner::ranges_as_int;
use crate::scanner::scan_ranges;
use crate::scanner::scan_ranges_ref;
use crate::scanner::spec_scan;
use crate::strutil::lemma_strs_view_push;
pub use crate::strutil::strs_view;

verus! {

/// Locations to merge syllables at vowels.
///
/// With `Merge::Indices`, merging occurs at the given syllable indices,
/// 1-indexed counting from the end of the word. In case of multiple
/// indices, they refer to the syllable positions after the desired
/// merging takes place.
#[derive(Debug, Clone)]
pub enum Merge {
    Every,
    Never,
    Indices(Vec<usize>),
}

/// Whether the policy asks for a merge at the 1-based syllable index `k`,
/// counted from the end of the word.
pub open spec fn spec_merge_at(m: Merge, k: int) -> bool {
    match m {
        Merge::Every => true,
        Merge::Never => false,
        Merge::Indices(v) => exists|j: int| 0 <= j < v@.len() && (#[trigger] v@[j]) as int == k,
    }
}

impl Merge {
    /// Build an index-based merge policy from a slice of 1-based syllable
    /// indices counted from the end of the word.
    pub fn from_indices(indices: &[usize]) -> (r: Self)
        ensures
            r matches Merge::Indices(v) && v@ == indices@,
    {
        Self::Indices(vstd::slice::slice_to_vec(indices))
    }

    /// Resolve the policy at one syllable index.
    pub(crate) fn to_bool(&self, idx_syllable: u128) -> (r: bool)
        ensures
            r == spec_merge_at(*self, idx_syllable as int),
    {
        match self {
            Merge::Every => true,
            Merge::Never => false,
            Merge::Indices(idxs) => {
                proof {
                    assert(spec_merge_at(*self, idx_syllable as int) == (exists|t: int|
                        0 <= t < idxs@.len() && (#[trigger] idxs@[t]) as int
                            == idx_syllable as int));
                }
                let mut j: usize = 0;
                while j < idxs.len()
                    invariant
                        *self matches Merge::Indices(vv) && vv@ == idxs@,
                        j <= idxs@.len(),
                        forall|t: int| 0 <= t < j ==> idxs@[t] as int != idx_syllable as int,
                    decreases idxs@.len() - j,
                {
                    if idxs[j] as u128 == idx_syllable {
                        proof {
                            let t = j as int;
                            assert(0 <= t < idxs@.len() && idxs@[t] as int
                                == idx_syllable as int);
                        }
                        return true;
                    }
                    j = j + 1;
                }
                false
            },
        }
    }
}

/// An ordered sequence of borrowed substrings of a word, left to right.
/// Its view is the sequence of the syllables' character sequences.
#[derive(Debug, PartialEq, Eq)]
pub struct Syllables<'a> {
    inner: Vec<&'a str>,
}

impl<'a> View for Syllables<'a> {
    type V = Seq<Seq<char>>;

    closed spec fn view(&self) -> Seq<Seq<char>> {
        strs_view(self.inner@)
    }
}

impl<'a> Syllables<'a> {
    /// The syllables as a slice of borrowed substrings.
    pub fn as_slice(&self) -> (r: &[&'a str])
        ensures
            r@.len() == self@.len(),
            forall|j: int| 0 <= j < r@.len() ==> (#[trigger] r@[j])@ == self@[j],
    {
        let r = self.inner.as_slice();
        assert forall|j: int| 0 <= j < r@.len() implies (#[trigger] r@[j])@ == self@[j] by {
            assert(self@[j] == strs_view(self.inner@)[j]);
        }
        r
    }

    /// The number of syllables.
    pub fn len(&self) -> (n: usize)
        ensures
            n == self@.len(),
    {
        self.inner.len()
    }

    /// The syllable at position `i`, counted from the word's start.
    pub fn get(&self, i: usize) -> (r: &'a str)
        requires
            i < self@.len(),
        ensures
            r@ == self@[i as int],
    {
        self.inner[i]
    }
}

/// The characters of a string, in order.
pub(crate) fn str_chars(s: &str) -> (v: Vec<char>)
    ensures
        v@ == s@,
{
    let n = s.unicode_len();
    let mut v: Vec<char> = Vec::new();
    let mut i: usize = 0;
    while i < n
        invariant
            i <= n,
            n == s@.len(),
            v@ == s@.subrange(0, i as int),
        decreases n - i,
    {
        v.push(s.get_char(i));
        assert(v@ =~= s@.subrange(0, i + 1));
        i = i + 1;
    }
    assert(v@ =~= s@);
    v
}

/// The ranges of the syllables of `w` under the given variant and policy,
/// leftmost first.
pub open spec fn spec_syllable_ranges(w: Seq<char>, var: Variant, m: Merge) -> Seq<(int, int)> {
    spec_scan(w, var, m, w.len() as int, ScanState::Start, w.len() as int, 1).reverse()
}

/// The syllables of `w` under the given variant and policy: the scanner's
/// ranges read back as subsequences of the word, leftmost first.
pub open spec fn spec_syllabify_scan(w: Seq<char>, var: Variant, m: Merge) -> Seq<Seq<char>> {
    spec_syllable_ranges(w, var, m).map_values(|r: (int, int)| w.subrange(r.0, r.1))
}

/// Reverse a vector of ranges.
fn reverse_ranges(rs: &Vec<(usize, usize)>) -> (out: Vec<(usize, usize)>)
    ensures
        out@ == rs@.reverse(),
{
    let mut out: Vec<(usize, usize)> = Vec::new();
    let mut j: usize = rs.len();
    while j > 0
        invariant
            j <= rs@.len(),
            out@ == rs@.subrange(j as int, rs@.len() as int).reverse(),
        decreases j,
    {
        j = j - 1;
        out.push(rs[j]);
        assert(out@ =~= rs@.subrange(j as int, rs@.len() as int).reverse());
    }
    assert(out@ =~= rs@.reverse());
    out
}

/// Slice the word back out along emitted ranges: `em` is the scanner's
/// output in emission order; the result is the syllables leftmost first.
fn ranges_to_syllables<'a>(s: &'a str, em: Vec<(usize, usize)>, n: usize) -> (r: Syllables<'a>)
    requires
        n == s@.len(),
        forall|j: int| 0 <= j < em@.len() ==> {
            let rj = #[trigger] ranges_as_int(em@)[j];
            0 <= rj.0 < rj.1 <= n
        },
    ensures
        r@ == ranges_as_int(em@).reverse().map_values(
            |rr: (int, int)| s@.subrange(rr.0, rr.1),
        ),
{
    let ghost target = ranges_as_int(em@).reverse().map_values(
        |rr: (int, int)| s@.subrange(rr.0, rr.1),
    );
    let rev = reverse_ranges(&em);
    proof {
        assert(ranges_as_int(rev@) =~= ranges_as_int(em@).reverse());
    }
    let mut inner: Vec<&'a str> = Vec::new();
    let mut j: usize = 0;
    while j < rev.len()
        invariant
            j <= rev@.len(),
            n == s@.len(),
            ranges_as_int(rev@) == ranges_as_int(em@).reverse(),
            target == ranges_as_int(em@).reverse().map_values(
                |rr: (int, int)| s@.subrange(rr.0, rr.1),
            ),
            forall|t: int| 0 <= t < rev@.len() ==> {
                let rt = #[trigger] ranges_as_int(rev@)[t];
                0 <= rt.0 < rt.1 <= n
            },
            strs_view(inner@) == target.subrange(0, j as int),
        decreases rev@.len() - j,
    {
        let (fr, to) = rev[j];
        proof {
            assert(rev@[j as int] == (fr, to));
            assert(ranges_as_int(rev@)[j as int] == (fr as int, to as int));
            assert(target[j as int] == s@.subrange(fr as int, to as int));
        }
        let piece = s.substring_char(fr, to);
        let ghost prev = inner@;
        inner.push(piece);
        proof {
            lemma_strs_view_push(prev, piece);
            assert(strs_view(inner@) =~= target.subrange(0, j + 1));
        }
        j = j + 1;
    }
    let r = Syllables { inner };
    proof {
        assert(r@ =~= target);
    }
    r
}

/// Establish that the emitted ranges of a whole-word scan are in bounds.
proof fn lemma_emitted_ranges_valid(w: Seq<char>, var: Variant, m: Merge)
    ensures
        forall|j: int| 0 <= j < spec_scan(
            w,
            var,
            m,
            w.len() as int,
            ScanState::Start,
            w.len() as int,
            1,
        ).len() ==> {
            let rj = #[trigger] spec_scan(
                w,
                var,
                m,
                w.len() as int,
                ScanState::Start,
                w.len() as int,
                1,
            )[j];
            0 <= rj.0 < rj.1 <= w.len()
        },
{
    let rs = spec_scan(w, var, m, w.len() as int, ScanState::Start, w.len() as int, 1);
    lemma_scan_tile(w, var, m, w.len() as int, ScanState::Start, w.len() as int, 1);
    lemma_tile_elements(rs, 0, w.len() as int);
}

/// Scan one word and slice it into syllables.
fn syllabify_scan<'a>(s: &'a str, var: Variant, merge: &Merge) -> (r: Syllables<'a>)
    ensures
        r@ == spec_syllabify_scan(s@, var, *merge),
{
    let v = str_chars(s);
    let n = v.len();
    let em = scan_ranges(&v, var, merge);
    proof {
        lemma_emitted_ranges_valid(s@, var, *merge);
    }
    ranges_to_syllables(s, em, n)
}

/// Scan one word with the reference scanner and slice it into syllables.
fn syllabify_scan_ref<'a>(s: &'a str, var: Variant, merge: &Merge) -> (r: Syllables<'a>)
    ensures
        r@ == spec_syllabify_scan(s@, var, *merge),
{
    let v = str_chars(s);
    let n = v.len();
    let em = scan_ranges_ref(&v, var, merge);
    proof {
        lemma_emitted_ranges_valid(s@, var, *merge);
    }
    ranges_to_syllables(s, em, n)
}

/// Well-formed syllable split points for a word of `n` characters:
/// strictly increasing positions strictly between the word's ends.
pub open spec fn spec_valid_splits(bs: Seq<usize>, n: int) -> bool {
    &&& forall|j: int| 0 <= j < bs.len() ==> 0 < #[trigger] bs[j] < n
    &&& forall|j: int| 0 < j < bs.len() ==> #[trigger] bs[j - 1] < bs[j]
    &&& n > 0
}

/// The ranges a list of split points cuts `[0, n)` into.
pub open spec fn spec_split_ranges(bs: Seq<usize>, n: int) -> Seq<(int, int)> {
    Seq::new(
        bs.len() + 1,
        |j: int|
            (
                if j == 0 {
                    0int
                } else {
                    bs[j - 1] as int
                },
                if j < bs.len() {
                    bs[j] as int
                } else {
                    n
                },
            ),
    )
}

/// The syllables the lexicon's split points give for a word.
pub open spec fn spec_split_syllables(w: Seq<char>, bs: Seq<usize>) -> Seq<Seq<char>> {
    spec_split_ranges(bs, w.len() as int).map_values(|r: (int, int)| w.subrange(r.0, r.1))
}

/// What the automatic Modern Greek entry point returns: the lexicon's
/// precomputed syllables for a known irregular word form, the scanner's
/// result under the never-merge policy otherwise.
pub open spec fn spec_syllabify_auto(w: Seq<char>) -> Seq<Seq<char>> {
    match crate::synizesis::spec_lookup_synizesis(w) {
        Some(bs) => if spec_valid_splits(bs, w.len() as int) {
            spec_split_syllables(w, bs)
        } else {
            spec_syllabify_scan(w, Variant::Modern, Merge::Never)
        },
        None => spec_syllabify_scan(w, Variant::Modern, Merge::Never),
    }
}

/// Check that split points are strictly increasing and interior.
fn valid_splits(bs: &Vec<usize>, n: usize) -> (r: bool)
    ensures
        r == spec_valid_splits(bs@, n as int),
{
    if n == 0 {
        return false;
    }
    let mut j: usize = 0;
    while j < bs.len()
        invariant
            j <= bs@.len(),
            n > 0,
            forall|t: int| 0 <= t < j ==> 0 < #[trigger] bs@[t] < n,
            forall|t: int| 0 < t < j ==> #[trigger] bs@[t - 1] < bs@[t],
        decreases bs@.len() - j,
    {
        if bs[j] == 0 || bs[j] >= n {
            return false;
        }
        if j > 0 && bs[j - 1] >= bs[j] {
            return false;
        }
        j = j + 1;
    }
    true
}

/// Cut a word along the lexicon's split points.
fn split_syllables<'a>(s: &'a str, bs: &Vec<usize>, n: usize) -> (r: Syllables<'a>)
    requires
        n == s@.len(),
        spec_valid_splits(bs@, n as int),
    ensures
        r@ == spec_split_syllables(s@, bs@),
{
    let ghost target = spec_split_syllables(s@, bs@);
    let mut inner: Vec<&'a str> = Vec::new();
    let mut prev: usize = 0;
    let mut j: usize = 0;
    while j < bs.len()
        invariant
            j <= bs@.len(),
            n == s@.len(),
            spec_valid_splits(bs@, n as int),
            target == spec_split_syllables(s@, bs@),
            prev == if j == 0 {
                0int
            } else {
                bs@[j - 1] as int
            },
            prev <= n,
            strs_view(inner@) == target.subrange(0, j as int),
        decreases bs@.len() - j,
    {
        let b = bs[j];
        proof {
            assert(spec_split_ranges(bs@, n as int)[j as int] == (prev as int, b as int));
            assert(target[j as int] == s@.subrange(prev as int, b as int));
        }
        let piece = s.substring_char(prev, b);
        let ghost prev_inner = inner@;
        inner.push(piece);
        proof {
            lemma_strs_view_push(prev_inner, piece);
            assert(strs_view(inner@) =~= target.subrange(0, j + 1));
        }
        prev = b;
        j = j + 1;
    }
    proof {
        assert(spec_split_ranges(bs@, n as int)[bs@.len() as int] == (prev as int, n as int));
        assert(target[bs@.len() as int] == s@.subrange(prev as int, n as int));
    }
    let piece = s.substring_char(prev, n);
    let ghost prev_inner = inner@;
    inner.push(piece);
    proof {
        lemma_strs_view_push(prev_inner, piece);
        assert(strs_view(inner@) =~= target);
    }
    Syllables { inner }
}

/// Syllabify a modern Greek word.
///
/// Automatically detects synizesis: a word in the lexicon gets its
/// precomputed syllables; any other word is scanned under the never-merge
/// policy (per-pair merge decisions via the candidate tables still apply).
pub fn syllabify<'a>(s: &'a str) -> (r: Syllables<'a>)
    ensures
        r@ == spec_syllabify_auto(s@),
        crate::laws::concat_seqs(r@) == s@,
        s@.len() > 0 ==> r@.len() >= 1,
{
    proof {
        crate::laws::lemma_syllabify_auto_lossless(s@);
        crate::laws::lemma_syllabify_auto_nonempty(s@);
    }
    match crate::synizesis::lookup_synizesis(s) {
        Some(bs) => {
            let n = s.unicode_len();
            if valid_splits(&bs, n) {
                split_syllables(s, &bs, n)
            } else {
                syllabify_scan(s, Variant::Modern, &Merge::Never)
            }
        },
        None => syllabify_scan(s, Variant::Modern, &Merge::Never),
    }
}

/// Syllabify a modern Greek word under an explicit merge policy.
pub fn syllabify_with_merge<'a>(s: &'a str, merge: Merge) -> (r: Syllables<'a>)
    ensures
        r@ == spec_syllabify_scan(s@, Variant::Modern, merge),
        crate::laws::concat_seqs(r@) == s@,
        s@.len() > 0 ==> r@.len() >= 1,
{
    proof {
        crate::laws::lemma_syllabify_lossless(s@, Variant::Modern, merge);
        crate::laws::lemma_syllabify_nonempty(s@, Variant::Modern, merge);
    }
    syllabify_scan(s, Variant::Modern, &merge)
}

/// Syllabify an ancient Greek word.
pub fn syllabify_gr<'a>(s: &'a str) -> (r: Syllables<'a>)
    ensures
        r@ == spec_syllabify_scan(s@, Variant::Ancient, Merge::Never),
        crate::laws::concat_seqs(r@) == s@,
        s@.len() > 0 ==> r@.len() >= 1,
{
    proof {
        crate::laws::lemma_syllabify_lossless(s@, Variant::Ancient, Merge::Never);
        crate::laws::lemma_syllabify_nonempty(s@, Variant::Ancient, Merge::Never);
    }
    syllabify_scan(s, Variant::Ancient, &Merge::Never)
}

/// Syllabify an ancient Greek word with the reference scanner.
///
/// Oracle implementation for testing: it is proved to return exactly what
/// [`syllabify_gr`] returns, and the differential tests run both.
pub fn syllabify_gr_ref<'a>(s: &'a str) -> (r: Syllables<'a>)
    ensures
        r@ == spec_syllabify_scan(s@, Variant::Ancient, Merge::Never),
        crate::laws::concat_seqs(r@) == s@,
        s@.len() > 0 ==> r@.len() >= 1,
{
    proof {
        crate::laws::lemma_syllabify_lossless(s@, Variant::Ancient, Merge::Never);
        crate::laws::lemma_syllabify_nonempty(s@, Variant::Ancient, Merge::Never);
    }
    syllabify_scan_ref(s, Variant::Ancient, &Merge::Never)
}

} // verus!
