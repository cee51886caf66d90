//! Small verified string helpers.

use vstd::prelude::*;
use vstd::string::StrSliceExecFns;
use vstd::string::StringExecFns;

verus! {

/// Check whether a slice of characters contains one character.
pub(crate) fn contains_char(ds: &[char], c: char) -> (r: bool)
    ensures
        r == ds@.contains(c),
{
    let mut j: usize = 0;
    while j < ds.len()
        invariant
            j <= ds@.len(),
            forall|t: int| 0 <= t < j ==> ds@[t] != c,
        decreases ds@.len() - j,
    {
        if ds[j] == c {
            return true;
        }
        j = j + 1;
    }
    false
}

/// Relies on std's `String::from` for `char`: the one-character string.
#[verifier::external_body]
pub(crate) fn char_to_string(c: char) -> (r: String)
    ensures
        r@ == seq![c],
{
    String::from(c)
}

/// The character sequences of a sequence of string slices.
pub open spec fn strs_view(v: Seq<&str>) -> Seq<Seq<char>> {
    v.map_values(|t: &str| t@)
}

pub proof fn lemma_strs_view_push(v: Seq<&str>, x: &str)
    ensures
        strs_view(v.push(x)) == strs_view(v).push(x@),
{
    assert(strs_view(v.push(x)) =~= strs_view(v).push(x@));
}

/// Check whether a list of strings contains one equal to `s`.
pub(crate) fn str_list_contains(list: &[&str], s: &str) -> (r: bool)
    ensures
        r == strs_view(list@).contains(s@),
{
    let mut j: usize = 0;
    while j < list.len()
        invariant
            j <= list@.len(),
            forall|t: int| 0 <= t < j ==> strs_view(list@)[t] != s@,
        decreases list@.len() - j,
    {
        proof {
            assert(strs_view(list@)[j as int] == list@[j as int]@);
        }
        if str_eq(list[j], s) {
            return true;
        }
        j = j + 1;
    }
    proof {
        if strs_view(list@).contains(s@) {
            let t = choose|t: int| 0 <= t < strs_view(list@).len() && strs_view(list@)[t] == s@;
            assert(strs_view(list@)[t] != s@);
        }
    }
    false
}

/// The characters of `s` that are not in `ds`, in order.
pub open spec fn spec_keep(s: Seq<char>, ds: Seq<char>) -> Seq<char>
    decreases s.len(),
{
    if s.len() == 0 {
        Seq::empty()
    } else if ds.contains(s.last()) {
        spec_keep(s.drop_last(), ds)
    } else {
        spec_keep(s.drop_last(), ds).push(s.last())
    }
}

/// Remove every occurrence of the given characters from a string.
pub(crate) fn keep_chars(s: &str, ds: &[char]) -> (r: String)
    ensures
        r@ == spec_keep(s@, ds@),
{
    let n = s.unicode_len();
    let mut acc = String::new();
    let mut i: usize = 0;
    proof {
        assert(s@.subrange(0, 0) =~= Seq::<char>::empty());
        assert(spec_keep(s@.subrange(0, 0), ds@) =~= Seq::<char>::empty());
    }
    while i < n
        invariant
            i <= n,
            n == s@.len(),
            acc@ == spec_keep(s@.subrange(0, i as int), ds@),
        decreases n - i,
    {
        let ch = s.get_char(i);
        let ghost pre = s@.subrange(0, i + 1);
        proof {
            assert(pre.drop_last() =~= s@.subrange(0, i as int));
            assert(pre.last() == s@[i as int]);
        }
        if !contains_char(ds, ch) {
            let piece = s.substring_char(i, i + 1);
            acc.append(piece);
            proof {
                assert(acc@ =~= spec_keep(pre.drop_last(), ds@).push(pre.last()));
                assert(spec_keep(pre, ds@) == spec_keep(pre.drop_last(), ds@).push(pre.last()));
            }
        } else {
            proof {
                assert(spec_keep(pre, ds@) == spec_keep(pre.drop_last(), ds@));
            }
        }
        i = i + 1;
    }
    proof {
        assert(s@.subrange(0, n as int) =~= s@);
    }
    acc
}

/// Compare two strings character by character.
pub(crate) fn str_eq(a: &str, b: &str) -> (r: bool)
    ensures
        r == (a@ == b@),
{
    let na = a.unicode_len();
    let nb = b.unicode_len();
    if na != nb {
        proof {
            assert(a@ != b@) by {
                if a@ == b@ {
                    assert(a@.len() == b@.len());
                }
            }
        }
        return false;
    }
    let mut i: usize = 0;
    while i < na
        invariant
            i <= na,
            na == a@.len(),
            nb == b@.len(),
            na == nb,
            forall|t: int| 0 <= t < i ==> a@[t] == b@[t],
        decreases na - i,
    {
        if a.get_char(i) != b.get_char(i) {
            proof {
                assert(a@ != b@) by {
                    if a@ == b@ {
                        assert(a@[i as int] == b@[i as int]);
                    }
                }
            }
            return false;
        }
        i = i + 1;
    }
    proof {
        assert(a@ =~= b@);
    }
    true
}

} // verus!
