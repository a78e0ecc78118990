//! The data model of the JSON-RPC node calls: framing of the
//! `eth_estimateGas` request body and parsing of the response envelope.

use crate::domain_data_model::{flat_opt, opt_view, EstimateGas};
use crate::json::{
    advance, dec_span_to_u64, push_dec_u64, push_escaped, skip_string_body, skip_value, skip_ws,
    span_string, spec_escape, spec_hex_literal, hex_literal_to_u64, spec_parse_dec_u64, spec_skip_string_body, spec_skip_value, str_eq,
    spec_skip_ws, spec_u64_dec_seq, spec_unescape, to_char_vec, unescape,
};
use vstd::prelude::*;

verus! {

// ---------------------------------------------------------------------------
// Request framing
// ---------------------------------------------------------------------------

/// Generic RPC call message; `params` holds already-rendered JSON values.
pub struct GenericMessage {
    pub id: u64,
    pub jsonrpc: String,
    pub method: String,
    pub params: Vec<String>,
}

impl Default for GenericMessage {
    /// The constant envelope of an `eth_estimateGas` call, with no params.
    fn default() -> (r: Self)
        ensures
            r.id == 0,
            r.jsonrpc@ == "2.0"@,
            r.method@ == "eth_estimateGas"@,
            r.params@.len() == 0,
    {
        GenericMessage {
            id: 0,
            jsonrpc: "2.0".to_owned(),
            method: "eth_estimateGas".to_owned(),
            params: Vec::new(),
        }
    }
}

/// Comma-joined rendering of already-rendered JSON values.
pub open spec fn spec_join_at(ps: Seq<Seq<char>>, i: int, acc: Seq<char>) -> Seq<char>
    decreases ps.len() - i,
{
    if !(0 <= i < ps.len()) {
        acc
    } else if i == 0 {
        spec_join_at(ps, 1, ps[0])
    } else {
        spec_join_at(ps, i + 1, acc + ","@ + ps[i])
    }
}

pub open spec fn spec_join(ps: Seq<Seq<char>>) -> Seq<char> {
    spec_join_at(ps, 0, Seq::empty())
}

/// The rendered JSON text of a generic RPC call message.
pub open spec fn spec_render_message(
    id: u64,
    jsonrpc: Seq<char>,
    method: Seq<char>,
    params: Seq<Seq<char>>,
) -> Seq<char> {
    "{\"id\":"@ + spec_u64_dec_seq(id as int) + ",\"jsonrpc\":\""@ + spec_escape(jsonrpc)
        + "\",\"method\":\""@ + spec_escape(method) + "\",\"params\":["@ + spec_join(params)
        + "]}"@
}

/// Renders a generic RPC call message as JSON text.
pub fn render_message(m: &GenericMessage) -> (r: String)
    ensures
        r@ == spec_render_message(
            m.id,
            m.jsonrpc@,
            m.method@,
            m.params@.map_values(|p: String| p@),
        ),
{
    let ghost ps = m.params@.map_values(|p: String| p@);
    let mut out = String::new();
    out.append("{\"id\":");
    push_dec_u64(&mut out, m.id);
    out.append(",\"jsonrpc\":\"");
    push_escaped(&mut out, m.jsonrpc.as_str());
    out.append("\",\"method\":\"");
    push_escaped(&mut out, m.method.as_str());
    out.append("\",\"params\":[");
    let ghost head = out@;
    let mut i: usize = 0;
    let ghost mut acc: Seq<char> = Seq::empty();
    while i < m.params.len()
        invariant
            i <= m.params@.len(),
            ps == m.params@.map_values(|p: String| p@),
            out@ == head + acc,
            i == 0 ==> acc == Seq::<char>::empty(),
            spec_join(ps) == spec_join_at(ps, i as int, acc),
        decreases m.params@.len() - i,
    {
        if i > 0 {
            out.append(",");
            out.append(m.params[i].as_str());
            proof {
                assert(ps[i as int] == m.params@[i as int]@);
                let acc2 = acc + ","@ + ps[i as int];
                assert(out@ =~= head + acc2);
                acc = acc2;
            }
        } else {
            out.append(m.params[i].as_str());
            proof {
                assert(ps[0] == m.params@[0]@);
                assert(out@ =~= head + (Seq::<char>::empty() + ps[0]));
                assert(Seq::<char>::empty() + ps[0] =~= ps[0]);
                acc = ps[0];
            }
        }
        i += 1;
    }
    out.append("]}");
    proof {
        assert(spec_join(ps) == acc);
        assert(out@ =~= spec_render_message(m.id, m.jsonrpc@, m.method@, ps));
    }
    out
}

/// The fields of `params[0]` of an `eth_estimateGas` call.
pub struct EstimateGasParams {
    pub from: Option<String>,
    pub to: String,
    pub value: Option<String>,
    pub data: Option<String>,
}

/// Clones an optional string field.
fn clone_opt(o: &Option<String>) -> (r: Option<String>)
    ensures
        opt_view(r) == opt_view(*o),
{
    match o {
        None => None,
        Some(s) => Some(s.clone()),
    }
}

impl EstimateGasParams {
    /// Converts the domain data model into the RPC data model.
    pub fn from_domain(value: &EstimateGas) -> (r: Self)
        ensures
            opt_view(r.from) == opt_view(value.from),
            r.to@ == value.to@,
            opt_view(r.value) == opt_view(value.value),
            opt_view(r.data) == opt_view(value.data),
    {
        EstimateGasParams {
            from: clone_opt(&value.from),
            to: value.to.clone(),
            value: clone_opt(&value.value),
            data: clone_opt(&value.data),
        }
    }
}

/// The rendered object for `params[0]`: only the present fields appear,
/// absent fields are omitted.
pub open spec fn spec_params_object(
    from: Option<Seq<char>>,
    to: Seq<char>,
    value: Option<Seq<char>>,
    data: Option<Seq<char>>,
) -> Seq<char> {
    "{"@ + (match from {
        Some(f) => "\"from\":\""@ + spec_escape(f) + "\","@,
        None => Seq::empty(),
    }) + "\"to\":\""@ + spec_escape(to) + "\""@ + (match value {
        Some(x) => ",\"value\":\""@ + spec_escape(x) + "\""@,
        None => Seq::empty(),
    }) + (match data {
        Some(x) => ",\"data\":\""@ + spec_escape(x) + "\""@,
        None => Seq::empty(),
    }) + "}"@
}

/// Renders `params[0]` of an `eth_estimateGas` call.
pub fn render_params(p: &EstimateGasParams) -> (r: String)
    ensures
        r@ == spec_params_object(opt_view(p.from), p.to@, opt_view(p.value), opt_view(p.data)),
{
    let mut out = String::new();
    out.append("{");
    match &p.from {
        Some(f) => {
            out.append("\"from\":\"");
            push_escaped(&mut out, f.as_str());
            out.append("\",");
        },
        None => {},
    }
    out.append("\"to\":\"");
    push_escaped(&mut out, p.to.as_str());
    out.append("\"");
    match &p.value {
        Some(x) => {
            out.append(",\"value\":\"");
            push_escaped(&mut out, x.as_str());
            out.append("\"");
        },
        None => {},
    }
    match &p.data {
        Some(x) => {
            out.append(",\"data\":\"");
            push_escaped(&mut out, x.as_str());
            out.append("\"");
        },
        None => {},
    }
    out.append("}");
    assert(out@ =~= spec_params_object(opt_view(p.from), p.to@, opt_view(p.value), opt_view(
        p.data,
    )));
    out
}

/// The block parameter of an `eth_estimateGas` call: `params[1]`.
pub struct BlockParam(pub String);

impl BlockParam {
    /// The client-supplied block value if present, else the literal
    /// `"latest"`.
    pub fn from_domain(value: &EstimateGas) -> (r: Self)
        ensures
            r.0@ == spec_block_param(opt_view(value.block)),
    {
        match &value.block {
            Some(v) => BlockParam(v.clone()),
            None => BlockParam("latest".to_owned()),
        }
    }
}

/// The block parameter value: the client's choice, defaulted to `"latest"`.
pub open spec fn spec_block_param(block: Option<Seq<char>>) -> Seq<char> {
    match block {
        Some(b) => b,
        None => "latest"@,
    }
}

/// The whole `eth_estimateGas` request body for a domain request.
pub open spec fn spec_estimate_gas_body(
    from: Option<Seq<char>>,
    to: Seq<char>,
    value: Option<Seq<char>>,
    data: Option<Seq<char>>,
    block: Option<Seq<char>>,
) -> Seq<char> {
    spec_render_message(
        0,
        "2.0"@,
        "eth_estimateGas"@,
        seq![
            spec_params_object(from, to, value, data),
            "\""@ + spec_escape(spec_block_param(block)) + "\""@,
        ],
    )
}

/// Builds the `eth_estimateGas` call message body.
pub fn prepare_eth_estimate_gas_body(data: &EstimateGas) -> (r: String)
    ensures
        r@ == spec_estimate_gas_body(
            opt_view(data.from),
            data.to@,
            opt_view(data.value),
            opt_view(data.data),
            opt_view(data.block),
        ),
{
    let mut msg = GenericMessage::default();
    let p0 = render_params(&EstimateGasParams::from_domain(data));
    let block = BlockParam::from_domain(data);
    let mut p1 = String::new();
    p1.append("\"");
    push_escaped(&mut p1, block.0.as_str());
    p1.append("\"");
    msg.params.push(p0);
    msg.params.push(p1);
    proof {
        assert(msg.params@.map_values(|p: String| p@) =~= seq![
            spec_params_object(
                opt_view(data.from),
                data.to@,
                opt_view(data.value),
                opt_view(data.data),
            ),
            "\""@ + spec_escape(spec_block_param(opt_view(data.block))) + "\""@,
        ]);
    }
    render_message(&msg)
}

// ---------------------------------------------------------------------------
// Response envelope parsing
// ---------------------------------------------------------------------------

/// Generic RPC call message response: `result` and `error` hold the raw JSON
/// text of the respective member's value; a member that is absent or `null`
/// is `None`.
pub struct GenericResponse {
    pub id: u64,
    pub jsonrpc: String,
    pub result: Option<String>,
    pub error: Option<String>,
}

/// Partially gathered envelope members.  For `result` and `error` the outer
/// option records whether the member was seen at all, the inner one whether
/// its value was something other than `null`.
pub struct EnvelopeAcc {
    pub id: Option<u64>,
    pub jsonrpc: Option<Seq<char>>,
    pub result: Option<Option<Seq<char>>>,
    pub error: Option<Option<Seq<char>>>,
}

pub open spec fn empty_env_acc() -> EnvelopeAcc {
    EnvelopeAcc { id: None, jsonrpc: None, result: None, error: None }
}

/// Records one envelope member: `key` is the raw key content, `[vs, e)` the
/// value's raw span.  Duplicate known members, a non-integer `id`, or a
/// non-string `jsonrpc` refuse the envelope; unknown members are ignored.
pub open spec fn spec_env_update(
    s: Seq<char>,
    key: Seq<char>,
    vs: int,
    e: int,
    acc: EnvelopeAcc,
) -> Option<EnvelopeAcc> {
    if key == "id"@ {
        if acc.id is Some {
            None
        } else {
            match spec_parse_dec_u64(s.subrange(vs, e)) {
                None => None,
                Some(n) => Some(EnvelopeAcc { id: Some(n), ..acc }),
            }
        }
    } else if key == "jsonrpc"@ {
        if acc.jsonrpc is Some {
            None
        } else if vs < s.len() && s[vs] == '"' {
            match spec_unescape(s.subrange(vs + 1, e - 1)) {
                None => None,
                Some(t) => Some(EnvelopeAcc { jsonrpc: Some(t), ..acc }),
            }
        } else {
            None
        }
    } else if key == "result"@ {
        if acc.result is Some {
            None
        } else if vs < s.len() && s[vs] == 'n' {
            Some(EnvelopeAcc { result: Some(None), ..acc })
        } else {
            Some(EnvelopeAcc { result: Some(Some(s.subrange(vs, e))), ..acc })
        }
    } else if key == "error"@ {
        if acc.error is Some {
            None
        } else if vs < s.len() && s[vs] == 'n' {
            Some(EnvelopeAcc { error: Some(None), ..acc })
        } else {
            Some(EnvelopeAcc { error: Some(Some(s.subrange(vs, e))), ..acc })
        }
    } else {
        Some(acc)
    }
}

/// Parses envelope members from `i` (just after `{` when `first`, else just
/// after a member's value) to the closing `}`, returning the gathered
/// members and the index just after the `}`.
pub open spec fn spec_env_fields(s: Seq<char>, i: int, acc: EnvelopeAcc, first: bool) -> Option<
    (EnvelopeAcc, int),
>
    decreases s.len() - i,
{
    if !(0 <= i <= s.len()) {
        None
    } else {
        let j = advance(spec_skip_ws(s, i), i, s.len() as int);
        if j < s.len() && s[j] == '}' {
            Some((acc, j + 1))
        } else {
            let j2 = if first {
                j
            } else {
                if j < s.len() && s[j] == ',' {
                    advance(spec_skip_ws(s, j + 1), j + 1, s.len() as int)
                } else {
                    -1
                }
            };
            if !(0 <= j2 < s.len() && s[j2] == '"') {
                None
            } else {
                match spec_skip_string_body(s, j2 + 1) {
                    None => None,
                    Some(k0) => {
                        let k = advance(k0, j2 + 2, s.len() as int);
                        let key = s.subrange(j2 + 1, k - 1);
                        let m = advance(spec_skip_ws(s, k), k, s.len() as int);
                        if m < s.len() && s[m] == ':' {
                            let vs = advance(spec_skip_ws(s, m + 1), m + 1, s.len() as int);
                            if vs < s.len() {
                                match spec_skip_value(s, vs) {
                                    None => None,
                                    Some(e0) => {
                                        let e = advance(e0, vs + 1, s.len() as int);
                                        match spec_env_update(s, key, vs, e, acc) {
                                            None => None,
                                            Some(acc2) => spec_env_fields(s, e, acc2, false),
                                        }
                                    },
                                }
                            } else {
                                None
                            }
                        } else {
                            None
                        }
                    },
                }
            }
        }
    }
}

/// Parses a whole JSON-RPC response envelope: a single JSON object with
/// integer `id` and string `jsonrpc` members, nothing but whitespace after
/// it.
pub open spec fn spec_parse_envelope(s: Seq<char>) -> Option<EnvelopeAcc> {
    let start = advance(spec_skip_ws(s, 0), 0, s.len() as int);
    if start < s.len() && s[start] == '{' {
        match spec_env_fields(s, start + 1, empty_env_acc(), true) {
            None => None,
            Some((acc, e)) => {
                let t = advance(spec_skip_ws(s, e), e, s.len() as int);
                if t == s.len() && acc.id is Some && acc.jsonrpc is Some {
                    Some(acc)
                } else {
                    None
                }
            },
        }
    } else {
        None
    }
}

/// The gathered members as an accumulator value.
pub open spec fn mk_env_acc(
    id: Option<u64>,
    jr: Option<Seq<char>>,
    rseen: bool,
    rv: Option<Seq<char>>,
    eseen: bool,
    ev: Option<Seq<char>>,
) -> EnvelopeAcc {
    EnvelopeAcc {
        id,
        jsonrpc: jr,
        result: if rseen {
            Some(rv)
        } else {
            None
        },
        error: if eseen {
            Some(ev)
        } else {
            None
        },
    }
}

/// Parses the JSON-RPC response envelope.  `None` exactly when the envelope
/// does not parse: malformed JSON, a missing or non-integer `id`, a missing
/// or non-string `jsonrpc`, a duplicated known member, or trailing content.
#[verifier::rlimit(100)]
pub fn parse_generic_response(data: &str) -> (r: Option<GenericResponse>)
    ensures
        match r {
            Some(g) => {
                &&& spec_parse_envelope(data@) matches Some(env)
                &&& env.id == Some(g.id)
                &&& env.jsonrpc == Some(g.jsonrpc@)
                &&& flat_opt(env.result) == opt_view(g.result)
                &&& flat_opt(env.error) == opt_view(g.error)
                &&& (opt_view(g.result) matches Some(t) ==> t.len() >= 1 && (t[0] == '"' ==> t.len()
                    >= 2))
            },
            None => spec_parse_envelope(data@) is None,
        },
{
    let v = to_char_vec(data);
    let start = skip_ws(&v, 0);
    if !(start < v.len() && v[start] == '{') {
        return None;
    }
    let mut i = start + 1;
    let mut first = true;
    let mut id_val: Option<u64> = None;
    let mut jsonrpc_val: Option<String> = None;
    let mut result_seen = false;
    let mut result_val: Option<String> = None;
    let mut error_seen = false;
    let mut error_val: Option<String> = None;
    loop
        invariant
            v@ == data@,
            start < v@.len(),
            v@[start as int] == '{',
            start as int == spec_skip_ws(v@, 0),
            start + 1 <= i <= v@.len(),
            first ==> i == start + 1 && id_val is None && jsonrpc_val is None && !result_seen
                && !error_seen,
            spec_env_fields(v@, start + 1, empty_env_acc(), true) == spec_env_fields(
                v@,
                i as int,
                mk_env_acc(
                    id_val,
                    opt_view(jsonrpc_val),
                    result_seen,
                    opt_view(result_val),
                    error_seen,
                    opt_view(error_val),
                ),
                first,
            ),
            !result_seen ==> result_val is None,
            !error_seen ==> error_val is None,
            result_val matches Some(rs) ==> rs@.len() >= 1 && (rs@[0] == '"' ==> rs@.len() >= 2),
        decreases v@.len() - i,
    {
        let ghost acc_now = mk_env_acc(
            id_val,
            opt_view(jsonrpc_val),
            result_seen,
            opt_view(result_val),
            error_seen,
            opt_view(error_val),
        );
        let j = skip_ws(&v, i);
        if j < v.len() && v[j] == '}' {
            // end of the envelope object
            let t = skip_ws(&v, j + 1);
            if t != v.len() {
                return None;
            }
            match (id_val, jsonrpc_val) {
                (Some(idv), Some(jrv)) => {
                    return Some(
                        GenericResponse { id: idv, jsonrpc: jrv, result: result_val, error: error_val },
                    );
                },
                _ => {
                    return None;
                },
            }
        }
        let j2: usize;
        if first {
            j2 = j;
        } else {
            if j < v.len() && v[j] == ',' {
                j2 = skip_ws(&v, j + 1);
            } else {
                return None;
            }
        }
        if !(j2 < v.len() && v[j2] == '"') {
            return None;
        }
        let k = match skip_string_body(&v, j2 + 1) {
            None => {
                return None;
            },
            Some(k) => k,
        };
        let m = skip_ws(&v, k);
        if !(m < v.len() && v[m] == ':') {
            return None;
        }
        let vs = skip_ws(&v, m + 1);
        if !(vs < v.len()) {
            return None;
        }
        let e = match skip_value(&v, vs) {
            None => {
                return None;
            },
            Some(e) => e,
        };
        let ghost key_seq = v@.subrange(j2 + 1, k - 1);
        let key = span_string(&v, j2 + 1, k - 1);
        if str_eq(&key, "id") {
            if id_val.is_some() {
                return None;
            }
            match dec_span_to_u64(&v, vs, e) {
                None => {
                    return None;
                },
                Some(n) => {
                    id_val = Some(n);
                },
            }
        } else if str_eq(&key, "jsonrpc") {
            if jsonrpc_val.is_some() {
                return None;
            }
            if v[vs] == '"' {
                let e2 = match skip_string_body(&v, vs + 1) {
                    None => {
                        assert(false);
                        return None;
                    },
                    Some(x) => x,
                };
                assert(e2 == e);
                match unescape(&v, vs + 1, e2 - 1) {
                    None => {
                        return None;
                    },
                    Some(t) => {
                        jsonrpc_val = Some(t);
                    },
                }
            } else {
                return None;
            }
        } else if str_eq(&key, "result") {
            if result_seen {
                return None;
            }
            result_seen = true;
            if v[vs] == 'n' {
                result_val = None;
            } else {
                if v[vs] == '"' {
                    let e2 = match skip_string_body(&v, vs + 1) {
                        None => {
                            assert(false);
                            return None;
                        },
                        Some(x) => x,
                    };
                    assert(e2 == e);
                }
                result_val = Some(span_string(&v, vs, e));
            }
        } else if str_eq(&key, "error") {
            if error_seen {
                return None;
            }
            error_seen = true;
            if v[vs] == 'n' {
                error_val = None;
            } else {
                error_val = Some(span_string(&v, vs, e));
            }
        }
        proof {
            let acc2 = mk_env_acc(
                id_val,
                opt_view(jsonrpc_val),
                result_seen,
                opt_view(result_val),
                error_seen,
                opt_view(error_val),
            );
            assert(spec_env_update(v@, key_seq, vs as int, e as int, acc_now) == Some(acc2));
            assert(spec_env_fields(v@, i as int, acc_now, first) == spec_env_fields(
                v@,
                e as int,
                acc2,
                false,
            ));
        }
        i = e;
        first = false;
    }
}

// ---------------------------------------------------------------------------
// Response interpretation
// ---------------------------------------------------------------------------

/// Represents results of an `eth_estimateGas` call response.
pub struct EstimateGasResult {
    pub value: u64,
}

/// Why a node response could not be turned into a gas value.
#[derive(Debug)]
pub enum RpcResponseError {
    /// The body is not a well-formed JSON-RPC response envelope.
    ParseError,
    /// The node reported an application-level error; carries the raw JSON
    /// text of the error value.
    NodeRpcError(String),
    /// The `result` member is present but not a JSON string.
    UnexpectedTypeError,
    /// Neither `result` nor `error` is present (or both are `null`).
    MalformedResponseError,
    /// The `result` string is not a hex value that fits an unsigned 64-bit
    /// integer.
    HexDecodeError,
}

/// The one-line description of a response error.
pub open spec fn spec_rpc_error_message(e: RpcResponseError) -> Seq<char> {
    match e {
        RpcResponseError::ParseError => "Malformed JSON-RPC response"@,
        RpcResponseError::NodeRpcError(t) => "RPC node error: "@ + t@,
        RpcResponseError::UnexpectedTypeError => "Expected json string"@,
        RpcResponseError::MalformedResponseError => "Expected error or result fields"@,
        RpcResponseError::HexDecodeError => "Invalid hex value in result"@,
    }
}

impl RpcResponseError {
    /// A one-line description of the error.
    pub fn message(&self) -> (r: String)
        ensures
            r@ == spec_rpc_error_message(*self),
    {
        match self {
            RpcResponseError::ParseError => "Malformed JSON-RPC response".to_owned(),
            RpcResponseError::NodeRpcError(t) => {
                let mut s = "RPC node error: ".to_owned();
                s.append(t.as_str());
                s
            },
            RpcResponseError::UnexpectedTypeError => "Expected json string".to_owned(),
            RpcResponseError::MalformedResponseError => "Expected error or result fields".to_owned(),
            RpcResponseError::HexDecodeError => "Invalid hex value in result".to_owned(),
        }
    }
}

/// Parses an `eth_estimateGas` call response body.
///
/// The error value takes precedence over the result; a string result is
/// decoded as a hex literal with an optional `0x`/`0X` prefix.
pub fn parse_eth_estimate_gas_response(data: &str) -> (r: Result<EstimateGasResult, RpcResponseError>)
    ensures
        (spec_parse_envelope(data@) is None) ==> (r matches Err(e) && e
            == RpcResponseError::ParseError),
        spec_parse_envelope(data@) matches Some(env) ==> match flat_opt(env.error) {
            Some(t) => r matches Err(e) && (e matches RpcResponseError::NodeRpcError(m) && m@ == t),
            None => match flat_opt(env.result) {
                None => r matches Err(e) && e == RpcResponseError::MalformedResponseError,
                Some(raw) => {
                    if raw.len() >= 1 && raw[0] == '"' {
                        match spec_unescape(raw.subrange(1, raw.len() - 1)) {
                            None => r matches Err(e) && e == RpcResponseError::ParseError,
                            Some(content) => match spec_hex_literal(content) {
                                None => r matches Err(e) && e == RpcResponseError::HexDecodeError,
                                Some(val) => r matches Ok(g) && g.value == val,
                            },
                        }
                    } else {
                        r matches Err(e) && e == RpcResponseError::UnexpectedTypeError
                    }
                },
            },
        },
{
    match parse_generic_response(data) {
        None => Err(RpcResponseError::ParseError),
        Some(g) => {
            if let Some(err) = g.error {
                Err(RpcResponseError::NodeRpcError(err))
            } else if let Some(res) = g.result {
                let rv = to_char_vec(res.as_str());
                if rv.len() >= 1 && rv[0] == '"' {
                    match unescape(&rv, 1, rv.len() - 1) {
                        None => Err(RpcResponseError::ParseError),
                        Some(content) => match hex_literal_to_u64(content.as_str()) {
                            None => Err(RpcResponseError::HexDecodeError),
                            Some(value) => Ok(EstimateGasResult { value }),
                        },
                    }
                } else {
                    Err(RpcResponseError::UnexpectedTypeError)
                }
            } else {
                Err(RpcResponseError::MalformedResponseError)
            }
        },
    }
}

} // verus!
