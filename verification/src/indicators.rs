//! Credit/debit indicator translation between the two vocabularies: the
//! four-letter domain codes `DBIT`/`CRDT` and the single-character statement
//! marks `D`/`C`. Both directions fail closed on any other input.

use vstd::prelude::*;

verus! {

/// The mark denoted by a domain indicator code, if any.
pub open spec fn spec_ind_to_mark(ind: Seq<char>) -> Option<Seq<char>> {
    if ind == "DBIT"@ {
        Some("D"@)
    } else if ind == "CRDT"@ {
        Some("C"@)
    } else {
        None
    }
}

/// The domain indicator code denoted by a statement mark, if any.
pub open spec fn spec_mark_to_ind(mark: Seq<char>) -> Option<Seq<char>> {
    if mark == "D"@ {
        Some("DBIT"@)
    } else if mark == "C"@ {
        Some("CRDT"@)
    } else {
        None
    }
}

} // verus!
