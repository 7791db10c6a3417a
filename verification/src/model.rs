//! The models of the standard values that carry text through the library.

use vstd::prelude::*;

verus! {

/// The model of a text that may be missing.
pub open spec fn text_view(value: Option<String>) -> Option<Seq<char>> {
    match value {
        Some(s) => Some(s@),
        None => None,
    }
}

/// The model of a text that came about, or of the account of why it did not.
pub open spec fn read_view(outcome: Result<String, String>) -> Result<Seq<char>, Seq<char>> {
    match outcome {
        Ok(s) => Ok(s@),
        Err(e) => Err(e@),
    }
}

} // verus!
