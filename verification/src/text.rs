//! Case mapping of text, as the standard library performs it.

use vstd::prelude::*;

verus! {

/// The lower-case form that `str::to_lowercase` gives to a text.
pub uninterp spec fn lowercase_of(text: Seq<char>) -> Seq<char>;

/// The upper-case form that `str::to_uppercase` gives to a text.
pub uninterp spec fn uppercase_of(text: Seq<char>) -> Seq<char>;

/// `str::to_lowercase` maps a text to its lower-case form by the Unicode
/// rules built into the standard library. The form depends on the text alone;
/// nothing else is claimed of it.
pub assume_specification[ str::to_lowercase ](text: &str) -> (lowered: String)
    ensures
        lowered@ == lowercase_of(text@),
;

/// `str::to_uppercase` maps a text to its upper-case form by the Unicode
/// rules built into the standard library. The form depends on the text alone;
/// nothing else is claimed of it.
pub assume_specification[ str::to_uppercase ](text: &str) -> (raised: String)
    ensures
        raised@ == uppercase_of(text@),
;

} // verus!
