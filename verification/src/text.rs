//! The lowercase form of account names and wallet addresses, under which
//! they are stored and looked up.

use vstd::prelude::*;

verus! {

/// The lowercase form that `str::to_lowercase` gives the text `s`.
pub uninterp spec fn lowercase(s: Seq<char>) -> Seq<char>;

/// `str::to_lowercase`: the returned string depends on the characters of
/// `s` alone. Nothing else is claimed of it.
pub assume_specification[ str::to_lowercase ](s: &str) -> (folded: String)
    ensures
        folded@ == lowercase(s@),
;

} // verus!
