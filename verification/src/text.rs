//! Text measures: grapheme counts and ASCII case folding.

use unicode_segmentation::UnicodeSegmentation;
use vstd::prelude::*;

verus! {

/// The number of extended grapheme clusters of a text, as
/// `unicode_segmentation` counts them.
pub uninterp spec fn grapheme_count(s: Seq<char>) -> nat;

/// Counts the extended grapheme clusters of `s` with
/// `UnicodeSegmentation::graphemes(s, true).count()`.
///
/// The count is a function of the text alone; it is only named here.
#[verifier::external_body]
pub(crate) fn count_graphemes(s: &str) -> (r: usize)
    ensures
        r as nat == grapheme_count(s@),
{
    s.graphemes(true).count()
}

/// `char::to_ascii_lowercase`: ASCII upper-case letters become lower-case,
/// every other character stays as it is.
pub open spec fn ascii_lower(c: char) -> char {
    if 'A' <= c && c <= 'Z' {
        ((c as u32) + 32) as char
    } else {
        c
    }
}

/// Maps `'A'..='Z'` to `'a'..='z'` and leaves every other character alone.
pub fn to_ascii_lowercase(c: char) -> (r: char)
    ensures
        r == ascii_lower(c),
{
    if 'A' <= c && c <= 'Z' {
        let b: u8 = c as u8;
        assert(b == c as u32);
        (b + 32) as char
    } else {
        c
    }
}

} // verus!
