//! The standard library's text functions that the crate relies on.

use vstd::prelude::*;

verus! {

/// `str::eq` of the standard library: two string slices are equal exactly
/// when they hold the same characters in the same order.
pub assume_specification[ <str as PartialEq>::eq ](a: &str, b: &str) -> (equal: bool)
    ensures
        equal == (a@ == b@),
;

/// A text in upper case, as `str::to_uppercase` gives it.
pub uninterp spec fn uppercased(text: Seq<char>) -> Seq<char>;

/// A text without the white space at its two ends, as `str::trim` gives
/// it.
pub uninterp spec fn trimmed(text: Seq<char>) -> Seq<char>;

/// `str::to_uppercase` of the standard library.
pub assume_specification[ str::to_uppercase ](text: &str) -> (upper: String)
    ensures
        upper@ == uppercased(text@),
;

/// `str::trim` of the standard library.
pub assume_specification[ str::trim ](text: &str) -> (inner: &str)
    ensures
        inner@ == trimmed(text@),
;

} // verus!
