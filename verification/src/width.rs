//! Column widths of text, as the terminal shows it.

use unicode_width::UnicodeWidthStr;
use vstd::prelude::*;

verus! {

/// The number of terminal columns that `text` occupies, by the rules of the
/// `unicode-width` crate (ambiguous characters counted as narrow).
pub uninterp spec fn display_width(text: Seq<char>) -> nat;

/// Calls `unicode_width::UnicodeWidthStr::width`.
///
/// Trusted: the columns that the crate counts for `text` are what
/// `display_width` names. Nothing else is claimed of the number.
#[verifier::external_body]
pub(crate) fn str_width(text: &str) -> (width: usize)
    ensures
        width == display_width(text@),
{
    UnicodeWidthStr::width(text)
}

} // verus!
