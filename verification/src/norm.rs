//! The boundary to the `unicode_normalization` crate: canonical
//! decomposition and recomposition, named but not reimplemented here.

use unicode_normalization::UnicodeNormalization;
use unicode_normalization::char::decompose_canonical;
use vstd::prelude::*;

verus! {

/// The canonical decomposition (NFD) of a single character, as
/// `unicode_normalization::char::decompose_canonical` emits it.
pub uninterp spec fn char_nfd_of(c: char) -> Seq<char>;

/// Relies on `unicode_normalization::char::decompose_canonical`: it emits the
/// canonical decomposition of the character, a function of that character alone.
#[verifier::external_body]
fn char_nfd(c: char) -> (r: Vec<char>)
    ensures
        r@ == char_nfd_of(c),
{
    let mut out = Vec::new();
    decompose_canonical(c, |d| out.push(d));
    out
}

/// The canonical decomposition (NFD) of a character sequence, as the
/// `nfd` iterator of `unicode_normalization::UnicodeNormalization` yields it.
pub uninterp spec fn nfd_of(s: Seq<char>) -> Seq<char>;

/// Relies on `UnicodeNormalization::nfd` for `&str`: it yields the text in
/// Unicode Normalization Form D, a function of the text alone.
#[verifier::external_body]
pub(crate) fn nfd_str(s: &str) -> (r: String)
    ensures
        r@ == nfd_of(s@),
{
    s.nfd().collect()
}

/// The canonical recomposition (NFC) of a character sequence, as the
/// `nfc` iterator of `unicode_normalization::UnicodeNormalization` yields it.
pub uninterp spec fn nfc_of(s: Seq<char>) -> Seq<char>;

/// Relies on `UnicodeNormalization::nfc` for `&str`: it yields the text in
/// Unicode Normalization Form C, a function of the text alone.
#[verifier::external_body]
pub(crate) fn nfc_str(s: &str) -> (r: String)
    ensures
        r@ == nfc_of(s@),
{
    s.nfc().collect()
}

/// A character whose canonical decomposition contains the combining
/// diaeresis mark.
pub open spec fn spec_char_has_diaeresis(c: char) -> bool {
    char_nfd_of(c).contains('\u{0308}')
}

/// Check if the canonical decomposition of `c` contains a diaeresis.
pub(crate) fn char_has_diaeresis(c: char) -> (r: bool)
    ensures
        r == spec_char_has_diaeresis(c),
{
    let d = char_nfd(c);
    let mut j: usize = 0;
    while j < d.len()
        invariant
            j <= d@.len(),
            d@ == char_nfd_of(c),
            forall|t: int| 0 <= t < j ==> d@[t] != '\u{0308}',
        decreases d@.len() - j,
    {
        if d[j] == '\u{0308}' {
            return true;
        }
        j = j + 1;
    }
    false
}

} // verus!
