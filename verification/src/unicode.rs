//! What this library takes from the standard library on trust: case mapping
//! of a text and the appending of a character to a `String`. Case mapping
//! goes by tables of Unicode that take pages: its results are named here and
//! nothing more is claimed of them. Appending is stated in full.

use vstd::prelude::*;

verus! {

/// The lower-case form that `str::to_lowercase` gives a text.
pub uninterp spec fn unicode_lowercase(s: Seq<char>) -> Seq<char>;

/// The upper-case form that `str::to_uppercase` gives a text.
pub uninterp spec fn unicode_uppercase(s: Seq<char>) -> Seq<char>;

/// `str::to_lowercase` returns the lower-case equivalent of a string slice as
/// a new `String`. The result depends on the text alone; the claim is only
/// that it is the value named `unicode_lowercase`.
pub assume_specification[ str::to_lowercase ](s: &str) -> (r: String)
    ensures
        r@ == unicode_lowercase(s@),
;

/// `str::to_uppercase` returns the upper-case equivalent of a string slice as
/// a new `String`. The result depends on the text alone; the claim is only
/// that it is the value named `unicode_uppercase`.
pub assume_specification[ str::to_uppercase ](s: &str) -> (r: String)
    ensures
        r@ == unicode_uppercase(s@),
;

/// `String::push` appends one character to the end of a `String`.
pub assume_specification[ String::push ](s: &mut String, c: char)
    ensures
        final(s)@ == old(s)@.push(c),
;

} // verus!
