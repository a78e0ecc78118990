//! The domain data model used internally by the library.

use vstd::prelude::*;

verus! {

/// The view of an optional string field: `Some` of the character sequence
/// when present.
pub open spec fn opt_view(o: Option<String>) -> Option<Seq<char>> {
    match o {
        Some(s) => Some(s@),
        None => None,
    }
}

/// Joins "member absent" and "member null" into one absence.
pub open spec fn flat_opt(o: Option<Option<Seq<char>>>) -> Option<Seq<char>> {
    match o {
        None => None,
        Some(None) => None,
        Some(Some(t)) => Some(t),
    }
}

/// A validated gas-estimation request, decoupled from both the inbound wire
/// format and the JSON-RPC wire format.
pub struct EstimateGas {
    pub from: Option<String>,
    pub to: String,
    pub value: Option<String>,
    pub data: Option<String>,
    pub block: Option<String>,
}

} // verus!
