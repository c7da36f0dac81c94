//! Decoding of UTF-16 code units, as the standard library does it.

use vstd::prelude::*;

verus! {

/// The text that a lossy decoding of `units` as UTF-16 yields.
pub uninterp spec fn utf16_lossy(units: Seq<u16>) -> Seq<char>;

/// `String::from_utf16_lossy` decodes the slice as UTF-16 and puts U+FFFD in
/// place of what is not valid. It never fails, and what it returns depends on
/// the code units alone: that is all this states, by giving the result its
/// name.
pub assume_specification[ String::from_utf16_lossy ](v: &[u16]) -> (s: String)
    ensures
        s@ == utf16_lossy(v@),
;

} // verus!
