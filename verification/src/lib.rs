//! A small gas-estimation front-end library for Ethereum JSON-RPC nodes.
//!
//! The library validates a client-supplied transaction descriptor, frames it
//! as a JSON-RPC 2.0 `eth_estimateGas` request body, and parses the node's
//! JSON-RPC response envelope back into an unsigned gas value.  All of the
//! request/response translation logic lives here and is verified; the HTTP
//! plumbing around it does not.

pub mod api;
pub mod app;
pub mod domain_data_model;
pub mod json;
pub mod rpc_data_model;

use vstd::prelude::*;

verus! {

/// A hex-formatted field is accepted when it carries a `0x`/`0X` prefix and
/// at least one character after the prefix.
pub open spec fn spec_has_hex_prefix(s: Seq<char>) -> bool {
    s.len() >= 2 && s[0] == '0' && (s[1] == 'x' || s[1] == 'X')
}

} // verus!
