//! Application-level decisions: turning an inbound request body into an
//! outbound JSON-RPC body, interpreting what came back from the node, and
//! choosing the HTTP reply.  The HTTP transport itself stays outside the
//! library; it hands in plain values and takes plain values back.

use crate::api::{
    parse_estimate_input, spec_estimate_input, InputView, ValidationError, ValidationIssue,
    issue_of, spec_validation_message,
};
use crate::json::{spec_hex_literal, spec_u64_dec_seq, spec_unescape, u64_to_dec_string};
use crate::domain_data_model::flat_opt;
use crate::rpc_data_model::{
    parse_eth_estimate_gas_response, prepare_eth_estimate_gas_body, spec_estimate_gas_body,
    spec_parse_envelope,
};
use vstd::prelude::*;

verus! {

// ---------------------------------------------------------------------------
// Application errors
// ---------------------------------------------------------------------------

/// Application errors definition.
#[derive(Debug)]
pub enum AppError {
    /// The node answered with a non-success HTTP status (or the call could
    /// not be framed); carries its description.
    EstimateFailed(String),
    /// The HTTP POST to the node failed; carries the transport error's
    /// description.
    EstimateSendFailed(String),
    /// The response body could not be read; carries the error's description.
    EstimateResponseBodyFailed(String),
    /// The response body could not be interpreted; carries the parse error's
    /// description.
    EstimateResponseParseFailed(String),
}

/// The one-line description of an application error.
pub open spec fn spec_app_error_message(e: AppError) -> Seq<char> {
    match e {
        AppError::EstimateFailed(t) => "Estimate call failed with an error: `"@ + t@ + "`"@,
        AppError::EstimateSendFailed(t) => "Estimate RPC send failed with an error: `"@ + t@
            + "`"@,
        AppError::EstimateResponseBodyFailed(t) =>
            "Estimate RPC response getting message body failed an with error: `"@ + t@ + "`"@,
        AppError::EstimateResponseParseFailed(t) =>
            "Estimate RPC response call failed with an error: `"@ + t@ + "`"@,
    }
}

fn wrap_message(head: &str, t: &String) -> (r: String)
    ensures
        r@ == head@ + t@ + "`"@,
{
    let mut s = head.to_owned();
    s.append(t.as_str());
    s.append("`");
    s
}

impl AppError {
    /// A one-line description of the error.
    pub fn message(&self) -> (r: String)
        ensures
            r@ == spec_app_error_message(*self),
    {
        match self {
            AppError::EstimateFailed(t) => wrap_message("Estimate call failed with an error: `", t),
            AppError::EstimateSendFailed(t) => wrap_message(
                "Estimate RPC send failed with an error: `",
                t,
            ),
            AppError::EstimateResponseBodyFailed(t) => wrap_message(
                "Estimate RPC response getting message body failed an with error: `",
                t,
            ),
            AppError::EstimateResponseParseFailed(t) => wrap_message(
                "Estimate RPC response call failed with an error: `",
                t,
            ),
        }
    }
}

// ---------------------------------------------------------------------------
// The estimate pipeline
// ---------------------------------------------------------------------------

/// What the caller observed when it POSTed the request body to the node.
#[derive(Debug)]
pub enum RpcOutcome {
    /// The POST itself failed; carries the transport error's description.
    SendFailed(String),
    /// The node answered with a non-success HTTP status; carries the status
    /// description.
    HttpError(String),
    /// The status was a success but the body could not be read; carries the
    /// error's description.
    BodyUnreadable(String),
    /// The response body, read in full.
    Body(String),
}

/// What interpreting a node response body yields: the gas value, or the
/// description of the failure.
pub open spec fn spec_response_result(s: Seq<char>) -> Result<u64, Seq<char>> {
    match spec_parse_envelope(s) {
        None => Err("Malformed JSON-RPC response"@),
        Some(env) => match flat_opt(env.error) {
            Some(t) => Err("RPC node error: "@ + t),
            None => match flat_opt(env.result) {
                None => Err("Expected error or result fields"@),
                Some(raw) => if raw.len() >= 1 && raw[0] == '"' {
                    match spec_unescape(raw.subrange(1, raw.len() - 1)) {
                        None => Err("Malformed JSON-RPC response"@),
                        Some(content) => match spec_hex_literal(content) {
                            None => Err("Invalid hex value in result"@),
                            Some(val) => Ok(val),
                        },
                    }
                } else {
                    Err("Expected json string"@)
                },
            },
        },
    }
}

/// Interprets what came back from the node: the decisions of a gas
/// estimation call after the POST has been made.
pub fn estimate_gas_outcome(outcome: RpcOutcome) -> (r: Result<u64, AppError>)
    ensures
        match outcome {
            RpcOutcome::SendFailed(t) => r matches Err(e) && e matches AppError::EstimateSendFailed(
                m,
            ) && m@ == t@,
            RpcOutcome::HttpError(t) => r matches Err(e) && e matches AppError::EstimateFailed(m)
                && m@ == t@,
            RpcOutcome::BodyUnreadable(t) => r matches Err(e) && e
                matches AppError::EstimateResponseBodyFailed(m) && m@ == t@,
            RpcOutcome::Body(b) => match spec_response_result(b@) {
                Ok(v) => r == Ok::<u64, AppError>(v),
                Err(d) => r matches Err(e) && e matches AppError::EstimateResponseParseFailed(m)
                    && m@ == d,
            },
        },
{
    match outcome {
        RpcOutcome::SendFailed(t) => Err(AppError::EstimateSendFailed(t)),
        RpcOutcome::HttpError(t) => Err(AppError::EstimateFailed(t)),
        RpcOutcome::BodyUnreadable(t) => Err(AppError::EstimateResponseBodyFailed(t)),
        RpcOutcome::Body(b) => match parse_eth_estimate_gas_response(b.as_str()) {
            Ok(g) => Ok(g.value),
            Err(pe) => Err(AppError::EstimateResponseParseFailed(pe.message())),
        },
    }
}

/// Parses and validates an inbound request body and frames the outbound
/// JSON-RPC request body for it.
pub fn estimate_request(body: &str) -> (r: Result<String, ValidationError>)
    ensures
        match r {
            Ok(b) => spec_estimate_input(body@) matches Ok(iv) && b@ == spec_estimate_gas_body(
                iv.from,
                iv.to,
                iv.value,
                iv.data,
                iv.block,
            ),
            Err(e) => spec_estimate_input(body@) == Err::<InputView, ValidationIssue>(issue_of(e)),
        },
{
    match parse_estimate_input(body) {
        Err(e) => Err(e),
        Ok(d) => Ok(prepare_eth_estimate_gas_body(&d.into_domain())),
    }
}

/// The HTTP reply for an estimation outcome: `200` with the decimal gas
/// value, or `400` with the error's description.
pub fn estimate_reply(res: Result<u64, AppError>) -> (r: (u16, String))
    ensures
        match res {
            Ok(v) => r.0 == 200 && r.1@ == spec_u64_dec_seq(v as int),
            Err(e) => r.0 == 400 && r.1@ == spec_app_error_message(e),
        },
{
    match res {
        Ok(v) => (200, u64_to_dec_string(v)),
        Err(e) => (400, e.message()),
    }
}

/// The HTTP reply for a rejected request body: `400` with the rejection's
/// description.
pub fn validation_reply(e: &ValidationError) -> (r: (u16, String))
    ensures
        r.0 == 400,
        r.1@ == spec_validation_message(*e),
{
    (400, e.message())
}

// ---------------------------------------------------------------------------
// Laws of the pipeline
// ---------------------------------------------------------------------------

/// A request without a block choice is framed exactly as one that chose the
/// `latest` tag: the block parameter defaults to `"latest"`.
pub proof fn lemma_default_block_is_latest(
    from: Option<Seq<char>>,
    to: Seq<char>,
    value: Option<Seq<char>>,
    data: Option<Seq<char>>,
)
    ensures
        spec_estimate_gas_body(from, to, value, data, None) == spec_estimate_gas_body(
            from,
            to,
            value,
            data,
            Some("latest"@),
        ),
{
}

/// The pipeline is a function of the request body and the node's answer
/// alone: identical inputs give identical framing and identical
/// interpretation, however often they are repeated.
pub proof fn lemma_estimate_idempotent(b1: Seq<char>, b2: Seq<char>, n1: Seq<char>, n2: Seq<char>)
    requires
        b1 == b2,
        n1 == n2,
    ensures
        spec_estimate_input(b1) == spec_estimate_input(b2),
        spec_response_result(n1) == spec_response_result(n2),
{
}

} // verus!
