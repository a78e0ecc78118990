//! Validation of the inbound transaction descriptor: per-field checks and
//! the request-level validation step that parses a JSON request body into a
//! validated [`EstimateInputData`].

use crate::domain_data_model::{flat_opt, opt_view, EstimateGas};
use crate::json::{
    advance, is_hex_digit, skip_string_body, skip_value, skip_ws, spec_skip_string_body,
    spec_skip_value, spec_skip_ws, spec_unescape, str_eq, to_char_vec, unescape,
};
use crate::spec_has_hex_prefix;
use vstd::prelude::*;

verus! {

// ---------------------------------------------------------------------------
// Field validators
// ---------------------------------------------------------------------------

/// Result of validating one hex-formatted field: accepted when the value
/// starts with `0x`/`0X` and has at least one character after the prefix.
pub open spec fn spec_validate_hex(s: Seq<char>) -> Result<Seq<char>, Seq<char>> {
    if !spec_has_hex_prefix(s) {
        Err("Invalid format - missing 0x prefix"@)
    } else if s.len() <= 2 {
        Err("Invalid format - value too short"@)
    } else {
        Ok(s)
    }
}

/// Validates that a hex-formatted field starts with `0x`/`0X` and carries at
/// least one character after the prefix; the accepted value is returned
/// unchanged.
pub fn validate_hex(v: &str) -> (r: Result<String, &'static str>)
    ensures
        match r {
            Ok(s) => spec_validate_hex(v@) == Ok::<Seq<char>, Seq<char>>(s@) && s@ == v@,
            Err(m) => spec_validate_hex(v@) == Err::<Seq<char>, Seq<char>>(m@),
        },
{
    let n = v.unicode_len();
    let prefixed = n >= 2 && v.get_char(0) == '0' && (v.get_char(1) == 'x' || v.get_char(1) == 'X');
    if !prefixed {
        Err("Invalid format - missing 0x prefix")
    } else if n <= 2 {
        Err("Invalid format - value too short")
    } else {
        Ok(v.to_owned())
    }
}

/// ASCII lower-casing of one character.
pub open spec fn spec_ascii_lower(c: char) -> char {
    if 65 <= c as u32 <= 90 {
        ((c as u32 + 32) as u8) as char
    } else {
        c
    }
}

/// ASCII lower-casing of a text.
pub open spec fn spec_to_lower(s: Seq<char>) -> Seq<char> {
    s.map_values(|c: char| spec_ascii_lower(c))
}

/// The ASCII lower-cased copy of `s`.
pub fn to_ascii_lower(s: &str) -> (r: String)
    ensures
        r@ == spec_to_lower(s@),
{
    let v = to_char_vec(s);
    let mut out = String::new();
    let mut i: usize = 0;
    while i < v.len()
        invariant
            i <= v@.len(),
            v@ == s@,
            out@ == spec_to_lower(s@).take(i as int),
        decreases v@.len() - i,
    {
        let c = v[i];
        let u = c as u32;
        let l: char = if 65 <= u && u <= 90 {
            ((u + 32) as u8) as char
        } else {
            c
        };
        assert(l == spec_ascii_lower(c));
        crate::json::push_char(&mut out, l);
        i += 1;
        assert(out@ =~= spec_to_lower(s@).take(i as int));
    }
    assert(spec_to_lower(s@).take(v@.len() as int) =~= spec_to_lower(s@));
    out
}

/// Whether `s` is one of the symbolic block tags, compared without regard to
/// ASCII case.
pub open spec fn spec_is_block_tag(s: Seq<char>) -> bool {
    let l = spec_to_lower(s);
    l == "earliest"@ || l == "finalized"@ || l == "safe"@ || l == "latest"@ || l == "pending"@
}

/// Validates a block field: a symbolic tag (case-insensitive) or a
/// hex-formatted value; the accepted value is returned unchanged.
pub fn validate_block(v: &str) -> (r: Result<String, &'static str>)
    ensures
        match r {
            Ok(s) => s@ == v@ && (spec_is_block_tag(v@) || spec_validate_hex(v@) is Ok),
            Err(m) => !spec_is_block_tag(v@) && spec_validate_hex(v@) == Err::<
                Seq<char>,
                Seq<char>,
            >(m@),
        },
{
    let l = to_ascii_lower(v);
    if str_eq(&l, "earliest") || str_eq(&l, "finalized") || str_eq(&l, "safe") || str_eq(
        &l,
        "latest",
    ) || str_eq(&l, "pending") {
        Ok(v.to_owned())
    } else {
        validate_hex(v)
    }
}

// ---------------------------------------------------------------------------
// Validation errors
// ---------------------------------------------------------------------------

/// Why a client payload was rejected.
#[derive(Debug)]
pub enum ValidationError {
    /// The request body is not a single JSON object.
    MalformedBody,
    /// A known field appears twice; carries the field name.
    DuplicateField(String),
    /// A known field holds a value that is neither a JSON string nor `null`;
    /// carries the field name.
    InvalidFieldType(String),
    /// The mandatory `to` field is missing, `null`, or empty.
    MissingTo,
    /// A field fails its format check; carries the field name and the
    /// reason.
    InvalidField(String, String),
}

/// The spec-level shape of a validation error.
pub enum ValidationIssue {
    MalformedBody,
    Duplicate(Seq<char>),
    InvalidType(Seq<char>),
    MissingTo,
    BadField(Seq<char>, Seq<char>),
}

/// The issue that a validation error value reports.
pub open spec fn issue_of(e: ValidationError) -> ValidationIssue {
    match e {
        ValidationError::MalformedBody => ValidationIssue::MalformedBody,
        ValidationError::DuplicateField(f) => ValidationIssue::Duplicate(f@),
        ValidationError::InvalidFieldType(f) => ValidationIssue::InvalidType(f@),
        ValidationError::MissingTo => ValidationIssue::MissingTo,
        ValidationError::InvalidField(f, m) => ValidationIssue::BadField(f@, m@),
    }
}

/// The one-line description of a validation error.
pub open spec fn spec_validation_message(e: ValidationError) -> Seq<char> {
    match e {
        ValidationError::MalformedBody => "Invalid request body - expected a json object"@,
        ValidationError::DuplicateField(f) => "Duplicate field: "@ + f@,
        ValidationError::InvalidFieldType(f) => "Invalid field type - expected a string: "@ + f@,
        ValidationError::MissingTo => "missing required field: to"@,
        ValidationError::InvalidField(f, m) => f@ + ": "@ + m@,
    }
}

impl ValidationError {
    /// A one-line description of the rejection.
    pub fn message(&self) -> (r: String)
        ensures
            r@ == spec_validation_message(*self),
    {
        match self {
            ValidationError::MalformedBody => "Invalid request body - expected a json object".to_owned(),
            ValidationError::DuplicateField(f) => {
                let mut s = "Duplicate field: ".to_owned();
                s.append(f.as_str());
                s
            },
            ValidationError::InvalidFieldType(f) => {
                let mut s = "Invalid field type - expected a string: ".to_owned();
                s.append(f.as_str());
                s
            },
            ValidationError::MissingTo => "missing required field: to".to_owned(),
            ValidationError::InvalidField(f, m) => {
                let mut s = f.clone();
                s.append(": ");
                s.append(m.as_str());
                s
            },
        }
    }
}

// ---------------------------------------------------------------------------
// Request-level validation
// ---------------------------------------------------------------------------

/// An empty optional field counts as absent.
pub open spec fn norm(o: Option<Seq<char>>) -> Option<Seq<char>> {
    match o {
        Some(s) => if s.len() == 0 {
            None
        } else {
            Some(s)
        },
        None => None,
    }
}

/// The fields of a validated request, as character sequences.
pub struct InputView {
    pub from: Option<Seq<char>>,
    pub to: Seq<char>,
    pub value: Option<Seq<char>>,
    pub data: Option<Seq<char>>,
    pub block: Option<Seq<char>>,
}

/// The issue with an optional hex-formatted field, if any.
pub open spec fn spec_opt_hex_issue(name: Seq<char>, o: Option<Seq<char>>) -> Option<
    ValidationIssue,
> {
    match o {
        None => None,
        Some(s) => match spec_validate_hex(s) {
            Ok(_) => None,
            Err(m) => Some(ValidationIssue::BadField(name, m)),
        },
    }
}

/// The issue with the optional block field, if any.
pub open spec fn spec_opt_block_issue(o: Option<Seq<char>>) -> Option<ValidationIssue> {
    match o {
        None => None,
        Some(s) => if spec_is_block_tag(s) {
            None
        } else {
            match spec_validate_hex(s) {
                Ok(_) => None,
                Err(m) => Some(ValidationIssue::BadField("block"@, m)),
            }
        },
    }
}

/// The request-level validation step: empty fields become absent, `to` must
/// be present and hex-formatted, the other hex fields are checked when
/// present, and `block` accepts a tag or a hex value.
pub open spec fn spec_validate_input(
    from: Option<Seq<char>>,
    to: Option<Seq<char>>,
    value: Option<Seq<char>>,
    data: Option<Seq<char>>,
    block: Option<Seq<char>>,
) -> Result<InputView, ValidationIssue> {
    match norm(to) {
        None => Err(ValidationIssue::MissingTo),
        Some(t) => match spec_validate_hex(t) {
            Err(m) => Err(ValidationIssue::BadField("to"@, m)),
            Ok(_) => match spec_opt_hex_issue("from"@, norm(from)) {
                Some(i) => Err(i),
                None => match spec_opt_hex_issue("value"@, norm(value)) {
                    Some(i) => Err(i),
                    None => match spec_opt_hex_issue("data"@, norm(data)) {
                        Some(i) => Err(i),
                        None => match spec_opt_block_issue(norm(block)) {
                            Some(i) => Err(i),
                            None => Ok(
                                InputView {
                                    from: norm(from),
                                    to: t,
                                    value: norm(value),
                                    data: norm(data),
                                    block: norm(block),
                                },
                            ),
                        },
                    },
                },
            },
        },
    }
}

/// Json body message for the `/estimate` endpoint: a validated transaction
/// descriptor.
pub struct EstimateInputData {
    /// Transaction sender account as a hex string; optional.
    pub from: Option<String>,
    /// Transaction destination as a hex string.
    pub to: String,
    /// Ether to send, as a hex string; optional.
    pub value: Option<String>,
    /// Call data as a hex string; optional.
    pub data: Option<String>,
    /// Block at which to estimate: hex value or symbolic tag; optional,
    /// the request builder defaults it to `latest`.
    pub block: Option<String>,
}

/// The fields of a validated request, as character sequences.
pub open spec fn input_view(d: EstimateInputData) -> InputView {
    InputView {
        from: opt_view(d.from),
        to: d.to@,
        value: opt_view(d.value),
        data: opt_view(d.data),
        block: opt_view(d.block),
    }
}

/// The fields of a domain request, as character sequences.
pub open spec fn gas_view(g: EstimateGas) -> InputView {
    InputView {
        from: opt_view(g.from),
        to: g.to@,
        value: opt_view(g.value),
        data: opt_view(g.data),
        block: opt_view(g.block),
    }
}

/// An empty optional field counts as absent.
fn norm_opt(o: Option<String>) -> (r: Option<String>)
    ensures
        opt_view(r) == norm(opt_view(o)),
{
    match o {
        None => None,
        Some(s) => {
            if s.as_str().unicode_len() == 0 {
                None
            } else {
                Some(s)
            }
        },
    }
}

/// Checks one optional hex-formatted field, already normalized.
fn check_opt_hex(name: &str, o: &Option<String>) -> (r: Result<(), ValidationError>)
    ensures
        match r {
            Ok(_) => spec_opt_hex_issue(name@, opt_view(*o)) is None,
            Err(e) => spec_opt_hex_issue(name@, opt_view(*o)) == Some(issue_of(e)),
        },
{
    match o {
        None => Ok(()),
        Some(s) => match validate_hex(s.as_str()) {
            Ok(_) => Ok(()),
            Err(m) => Err(ValidationError::InvalidField(name.to_owned(), m.to_owned())),
        },
    }
}

impl EstimateInputData {
    /// The request-level validation step, from raw optional fields.
    pub fn validate(
        from: Option<String>,
        to: Option<String>,
        value: Option<String>,
        data: Option<String>,
        block: Option<String>,
    ) -> (r: Result<EstimateInputData, ValidationError>)
        ensures
            match r {
                Ok(d) => spec_validate_input(
                    opt_view(from),
                    opt_view(to),
                    opt_view(value),
                    opt_view(data),
                    opt_view(block),
                ) == Ok::<InputView, ValidationIssue>(input_view(d)),
                Err(e) => spec_validate_input(
                    opt_view(from),
                    opt_view(to),
                    opt_view(value),
                    opt_view(data),
                    opt_view(block),
                ) == Err::<InputView, ValidationIssue>(issue_of(e)),
            },
    {
        let nto = norm_opt(to);
        let t = match nto {
            None => {
                return Err(ValidationError::MissingTo);
            },
            Some(t) => t,
        };
        match validate_hex(t.as_str()) {
            Err(m) => {
                return Err(ValidationError::InvalidField("to".to_owned(), m.to_owned()));
            },
            Ok(_) => {},
        }
        let nfrom = norm_opt(from);
        match check_opt_hex("from", &nfrom) {
            Err(e) => {
                return Err(e);
            },
            Ok(_) => {},
        }
        let nvalue = norm_opt(value);
        match check_opt_hex("value", &nvalue) {
            Err(e) => {
                return Err(e);
            },
            Ok(_) => {},
        }
        let ndata = norm_opt(data);
        match check_opt_hex("data", &ndata) {
            Err(e) => {
                return Err(e);
            },
            Ok(_) => {},
        }
        let nblock = norm_opt(block);
        match &nblock {
            None => {},
            Some(b) => match validate_block(b.as_str()) {
                Err(m) => {
                    return Err(ValidationError::InvalidField("block".to_owned(), m.to_owned()));
                },
                Ok(_) => {},
            },
        }
        Ok(EstimateInputData { from: nfrom, to: t, value: nvalue, data: ndata, block: nblock })
    }

    /// Converts the validated input into the domain data model.
    pub fn into_domain(self) -> (r: EstimateGas)
        ensures
            gas_view(r) == input_view(self),
    {
        EstimateGas {
            from: self.from,
            to: self.to,
            value: self.value,
            data: self.data,
            block: self.block,
        }
    }
}

// ---------------------------------------------------------------------------
// Request body parsing
// ---------------------------------------------------------------------------

/// Partially gathered request fields.  The outer option records whether the
/// member was seen at all, the inner one whether its value was something
/// other than `null`.
pub struct InputAcc {
    pub from: Option<Option<Seq<char>>>,
    pub to: Option<Option<Seq<char>>>,
    pub value: Option<Option<Seq<char>>>,
    pub data: Option<Option<Seq<char>>>,
    pub block: Option<Option<Seq<char>>>,
}

pub open spec fn empty_input_acc() -> InputAcc {
    InputAcc { from: None, to: None, value: None, data: None, block: None }
}

/// Records one request body member: `key` is the raw key content, `[vs, e)`
/// the value's raw span.  A known member must be a JSON string or `null` and
/// must not repeat; unknown members are ignored.
pub open spec fn spec_input_update(
    s: Seq<char>,
    key: Seq<char>,
    vs: int,
    e: int,
    acc: InputAcc,
) -> Result<InputAcc, ValidationIssue> {
    if key == "from"@ || key == "to"@ || key == "value"@ || key == "data"@ || key == "block"@ {
        let seen = if key == "from"@ {
            acc.from
        } else if key == "to"@ {
            acc.to
        } else if key == "value"@ {
            acc.value
        } else if key == "data"@ {
            acc.data
        } else {
            acc.block
        };
        if seen is Some {
            Err(ValidationIssue::Duplicate(key))
        } else {
            let entry = if vs < s.len() && s[vs] == 'n' {
                Ok(Some(None))
            } else if vs < s.len() && s[vs] == '"' {
                match spec_unescape(s.subrange(vs + 1, e - 1)) {
                    None => Err(ValidationIssue::MalformedBody),
                    Some(t) => Ok(Some(Some(t))),
                }
            } else {
                Err(ValidationIssue::InvalidType(key))
            };
            match entry {
                Err(i) => Err(i),
                Ok(x) => Ok(
                    if key == "from"@ {
                        InputAcc { from: x, ..acc }
                    } else if key == "to"@ {
                        InputAcc { to: x, ..acc }
                    } else if key == "value"@ {
                        InputAcc { value: x, ..acc }
                    } else if key == "data"@ {
                        InputAcc { data: x, ..acc }
                    } else {
                        InputAcc { block: x, ..acc }
                    },
                ),
            }
        }
    } else {
        Ok(acc)
    }
}

/// Parses request body members from `i` (just after `{` when `first`, else
/// just after a member's value) to the closing `}`.
pub open spec fn spec_input_fields(s: Seq<char>, i: int, acc: InputAcc, first: bool) -> Result<
    (InputAcc, int),
    ValidationIssue,
>
    decreases s.len() - i,
{
    if !(0 <= i <= s.len()) {
        Err(ValidationIssue::MalformedBody)
    } else {
        let j = advance(spec_skip_ws(s, i), i, s.len() as int);
        if j < s.len() && s[j] == '}' {
            Ok((acc, j + 1))
        } else {
            let j2 = if first {
                j
            } else {
                if j < s.len() && s[j] == ',' {
                    advance(spec_skip_ws(s, j + 1), j + 1, s.len() as int)
                } else {
                    -1
                }
            };
            if !(0 <= j2 < s.len() && s[j2] == '"') {
                Err(ValidationIssue::MalformedBody)
            } else {
                match spec_skip_string_body(s, j2 + 1) {
                    None => Err(ValidationIssue::MalformedBody),
                    Some(k0) => {
                        let k = advance(k0, j2 + 2, s.len() as int);
                        let key = s.subrange(j2 + 1, k - 1);
                        let m = advance(spec_skip_ws(s, k), k, s.len() as int);
                        if m < s.len() && s[m] == ':' {
                            let vs = advance(spec_skip_ws(s, m + 1), m + 1, s.len() as int);
                            if vs < s.len() {
                                match spec_skip_value(s, vs) {
                                    None => Err(ValidationIssue::MalformedBody),
                                    Some(e0) => {
                                        let e = advance(e0, vs + 1, s.len() as int);
                                        match spec_input_update(s, key, vs, e, acc) {
                                            Err(issue) => Err(issue),
                                            Ok(acc2) => spec_input_fields(s, e, acc2, false),
                                        }
                                    },
                                }
                            } else {
                                Err(ValidationIssue::MalformedBody)
                            }
                        } else {
                            Err(ValidationIssue::MalformedBody)
                        }
                    },
                }
            }
        }
    }
}

/// Parses a request body: a single JSON object whose known members are
/// strings (or `null`), with nothing but whitespace after it.
pub open spec fn spec_parse_input(s: Seq<char>) -> Result<InputAcc, ValidationIssue> {
    let start = advance(spec_skip_ws(s, 0), 0, s.len() as int);
    if start < s.len() && s[start] == '{' {
        match spec_input_fields(s, start + 1, empty_input_acc(), true) {
            Err(issue) => Err(issue),
            Ok((acc, e)) => {
                let t = advance(spec_skip_ws(s, e), e, s.len() as int);
                if t == s.len() {
                    Ok(acc)
                } else {
                    Err(ValidationIssue::MalformedBody)
                }
            },
        }
    } else {
        Err(ValidationIssue::MalformedBody)
    }
}

/// What parsing and then validating a request body yields.
pub open spec fn spec_estimate_input(s: Seq<char>) -> Result<InputView, ValidationIssue> {
    match spec_parse_input(s) {
        Err(issue) => Err(issue),
        Ok(acc) => spec_validate_input(
            flat_opt(acc.from),
            flat_opt(acc.to),
            flat_opt(acc.value),
            flat_opt(acc.data),
            flat_opt(acc.block),
        ),
    }
}

/// The gathered members as an accumulator value.
pub open spec fn mk_input_acc(
    fseen: bool,
    fv: Option<Seq<char>>,
    tseen: bool,
    tv: Option<Seq<char>>,
    vseen: bool,
    vv: Option<Seq<char>>,
    dseen: bool,
    dv: Option<Seq<char>>,
    bseen: bool,
    bv: Option<Seq<char>>,
) -> InputAcc {
    InputAcc {
        from: if fseen {
            Some(fv)
        } else {
            None
        },
        to: if tseen {
            Some(tv)
        } else {
            None
        },
        value: if vseen {
            Some(vv)
        } else {
            None
        },
        data: if dseen {
            Some(dv)
        } else {
            None
        },
        block: if bseen {
            Some(bv)
        } else {
            None
        },
    }
}

/// Parses and validates a request body into a validated transaction
/// descriptor.
#[verifier::rlimit(100)]
pub fn parse_estimate_input(body: &str) -> (r: Result<EstimateInputData, ValidationError>)
    ensures
        match r {
            Ok(d) => spec_estimate_input(body@) == Ok::<InputView, ValidationIssue>(input_view(d)),
            Err(e) => spec_estimate_input(body@) == Err::<InputView, ValidationIssue>(issue_of(e)),
        },
{
    let v = to_char_vec(body);
    let start = skip_ws(&v, 0);
    if !(start < v.len() && v[start] == '{') {
        return Err(ValidationError::MalformedBody);
    }
    let mut i = start + 1;
    let mut first = true;
    let mut from_seen = false;
    let mut from_val: Option<String> = None;
    let mut to_seen = false;
    let mut to_val: Option<String> = None;
    let mut value_seen = false;
    let mut value_val: Option<String> = None;
    let mut data_seen = false;
    let mut data_val: Option<String> = None;
    let mut block_seen = false;
    let mut block_val: Option<String> = None;
    loop
        invariant
            v@ == body@,
            start < v@.len(),
            v@[start as int] == '{',
            start as int == spec_skip_ws(v@, 0),
            start + 1 <= i <= v@.len(),
            first ==> i == start + 1 && !from_seen && !to_seen && !value_seen && !data_seen
                && !block_seen,
            !from_seen ==> from_val is None,
            !to_seen ==> to_val is None,
            !value_seen ==> value_val is None,
            !data_seen ==> data_val is None,
            !block_seen ==> block_val is None,
            spec_input_fields(v@, start + 1, empty_input_acc(), true) == spec_input_fields(
                v@,
                i as int,
                mk_input_acc(
                    from_seen,
                    opt_view(from_val),
                    to_seen,
                    opt_view(to_val),
                    value_seen,
                    opt_view(value_val),
                    data_seen,
                    opt_view(data_val),
                    block_seen,
                    opt_view(block_val),
                ),
                first,
            ),
        decreases v@.len() - i,
    {
        let ghost acc_now = mk_input_acc(
            from_seen,
            opt_view(from_val),
            to_seen,
            opt_view(to_val),
            value_seen,
            opt_view(value_val),
            data_seen,
            opt_view(data_val),
            block_seen,
            opt_view(block_val),
        );
        let j = skip_ws(&v, i);
        if j < v.len() && v[j] == '}' {
            let t = skip_ws(&v, j + 1);
            if t != v.len() {
                return Err(ValidationError::MalformedBody);
            }
            return EstimateInputData::validate(from_val, to_val, value_val, data_val, block_val);
        }
        let j2: usize;
        if first {
            j2 = j;
        } else {
            if j < v.len() && v[j] == ',' {
                j2 = skip_ws(&v, j + 1);
            } else {
                return Err(ValidationError::MalformedBody);
            }
        }
        if !(j2 < v.len() && v[j2] == '"') {
            return Err(ValidationError::MalformedBody);
        }
        let k = match skip_string_body(&v, j2 + 1) {
            None => {
                return Err(ValidationError::MalformedBody);
            },
            Some(k) => k,
        };
        let m = skip_ws(&v, k);
        if !(m < v.len() && v[m] == ':') {
            return Err(ValidationError::MalformedBody);
        }
        let vs = skip_ws(&v, m + 1);
        if !(vs < v.len()) {
            return Err(ValidationError::MalformedBody);
        }
        let e = match skip_value(&v, vs) {
            None => {
                return Err(ValidationError::MalformedBody);
            },
            Some(e) => e,
        };
        let ghost key_seq = v@.subrange(j2 + 1, k - 1);
        let key = crate::json::span_string(&v, j2 + 1, k - 1);
        let known = str_eq(&key, "from") || str_eq(&key, "to") || str_eq(&key, "value") || str_eq(
            &key,
            "data",
        ) || str_eq(&key, "block");
        if known {
            let seen = if str_eq(&key, "from") {
                from_seen
            } else if str_eq(&key, "to") {
                to_seen
            } else if str_eq(&key, "value") {
                value_seen
            } else if str_eq(&key, "data") {
                data_seen
            } else {
                block_seen
            };
            if seen {
                return Err(ValidationError::DuplicateField(key));
            }
            let entry: Option<String>;
            if v[vs] == 'n' {
                entry = None;
            } else if v[vs] == '"' {
                let e2 = match skip_string_body(&v, vs + 1) {
                    None => {
                        assert(false);
                        return Err(ValidationError::MalformedBody);
                    },
                    Some(x) => x,
                };
                assert(e2 == e);
                match unescape(&v, vs + 1, e2 - 1) {
                    None => {
                        return Err(ValidationError::MalformedBody);
                    },
                    Some(t) => {
                        entry = Some(t);
                    },
                }
            } else {
                return Err(ValidationError::InvalidFieldType(key));
            }
            if str_eq(&key, "from") {
                from_seen = true;
                from_val = entry;
            } else if str_eq(&key, "to") {
                to_seen = true;
                to_val = entry;
            } else if str_eq(&key, "value") {
                value_seen = true;
                value_val = entry;
            } else if str_eq(&key, "data") {
                data_seen = true;
                data_val = entry;
            } else {
                block_seen = true;
                block_val = entry;
            }
        }
        proof {
            let acc2 = mk_input_acc(
                from_seen,
                opt_view(from_val),
                to_seen,
                opt_view(to_val),
                value_seen,
                opt_view(value_val),
                data_seen,
                opt_view(data_val),
                block_seen,
                opt_view(block_val),
            );
            assert(spec_input_update(v@, key_seq, vs as int, e as int, acc_now) == Ok::<
                InputAcc,
                ValidationIssue,
            >(acc2));
            assert(spec_input_fields(v@, i as int, acc_now, first) == spec_input_fields(
                v@,
                e as int,
                acc2,
                false,
            ));
        }
        i = e;
        first = false;
    }
}

// ---------------------------------------------------------------------------
// Laws of the hex validator
// ---------------------------------------------------------------------------

/// Whether `s` matches `0x`/`0X` followed by one or more hex digits.
pub open spec fn spec_is_strict_hex(s: Seq<char>) -> bool {
    s.len() > 2 && spec_has_hex_prefix(s) && forall|i: int|
        2 <= i < s.len() ==> is_hex_digit(#[trigger] s[i])
}

/// Every string of the shape `0x`/`0X` followed by one or more hex digits is
/// accepted by the validator, unchanged.
pub proof fn lemma_validator_accepts_strict_hex(s: Seq<char>)
    requires
        spec_is_strict_hex(s),
    ensures
        spec_validate_hex(s) == Ok::<Seq<char>, Seq<char>>(s),
{
}

/// Every string that misses the `0x`/`0X` prefix, or holds nothing after it,
/// is rejected by the validator.
pub proof fn lemma_validator_rejects_prefixless_or_bare(s: Seq<char>)
    requires
        !spec_has_hex_prefix(s) || s == "0x"@ || s == "0X"@,
    ensures
        spec_validate_hex(s) is Err,
{
    reveal_strlit("0x");
    reveal_strlit("0X");
}

} // verus!
