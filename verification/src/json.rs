//! A small verified JSON toolkit: grammar checking (skipping) over character
//! sequences, string escaping/unescaping, and the numeric conversions the
//! JSON-RPC translation needs.
//!
//! The wire format is the library's own logic: every function here mirrors a
//! spec-level definition of the grammar, so contracts pin the result down
//! exactly.  Unicode escapes that name a surrogate code point are rejected
//! (surrogate pairs are not combined).

use vstd::prelude::*;

verus! {

// ---------------------------------------------------------------------------
// Character classes
// ---------------------------------------------------------------------------

/// JSON insignificant whitespace.
pub open spec fn is_json_ws(c: char) -> bool {
    c == ' ' || c == '\t' || c == '\n' || c == '\r'
}

pub open spec fn is_dec_digit(c: char) -> bool {
    48 <= c as u32 <= 57
}

pub open spec fn is_hex_digit(c: char) -> bool {
    48 <= c as u32 <= 57 || 97 <= c as u32 <= 102 || 65 <= c as u32 <= 70
}

/// Numeric value of a hexadecimal digit character.
pub open spec fn spec_hex_val(c: char) -> u32 {
    if 48 <= c as u32 <= 57 {
        (c as u32 - 48) as u32
    } else if 97 <= c as u32 <= 102 {
        (c as u32 - 87) as u32
    } else {
        (c as u32 - 55) as u32
    }
}

/// Numeric value of a decimal digit character.
pub open spec fn spec_dec_val(c: char) -> u32 {
    (c as u32 - 48) as u32
}

// ---------------------------------------------------------------------------
// Trusted bridges to std
// ---------------------------------------------------------------------------

/// Relies on `String::push`: appends exactly the given character.
#[verifier::external_body]
pub fn push_char(s: &mut String, c: char)
    ensures
        final(s)@ == old(s)@.push(c),
{
    s.push(c);
}

/// Relies on `char::from_u32`: `Some` exactly for code points that are
/// neither surrogates nor beyond the Unicode range.
#[verifier::external_body]
pub fn char_from_u32(v: u32) -> (r: Option<char>)
    ensures
        r == (if v < 0xD800 || (0xE000 <= v < 0x110000) {
            Some(v as char)
        } else {
            None::<char>
        }),
{
    char::from_u32(v)
}

// ---------------------------------------------------------------------------
// Exec helpers over characters
// ---------------------------------------------------------------------------

/// The characters of a string slice, as an indexable vector.
pub fn to_char_vec(s: &str) -> (r: Vec<char>)
    ensures
        r@ == s@,
{
    let n = s.unicode_len();
    let mut r: Vec<char> = Vec::new();
    let mut i: usize = 0;
    while i < n
        invariant
            n == s@.len(),
            i <= n,
            r@ == s@.subrange(0, i as int),
        decreases n - i,
    {
        r.push(s.get_char(i));
        i += 1;
        assert(r@ =~= s@.subrange(0, i as int));
    }
    assert(r@ =~= s@);
    r
}

/// The characters `[from, to)` of a vector, as an owned string.
pub fn span_string(v: &Vec<char>, from: usize, to: usize) -> (r: String)
    requires
        from <= to <= v@.len(),
    ensures
        r@ == v@.subrange(from as int, to as int),
{
    let mut r = String::new();
    let mut i: usize = from;
    while i < to
        invariant
            from <= i <= to <= v@.len(),
            r@ == v@.subrange(from as int, i as int),
        decreases to - i,
    {
        push_char(&mut r, v[i]);
        i += 1;
        assert(r@ =~= v@.subrange(from as int, i as int));
    }
    r
}

// ---------------------------------------------------------------------------
// Grammar: spec-level skipping
// ---------------------------------------------------------------------------

/// Clamps an index into `[lo, hi]`; used only so that the recursive grammar
/// definitions have an evident termination measure.  On every run that the
/// grammar accepts the clamp never moves the index.
pub open spec fn advance(p: int, lo: int, hi: int) -> int {
    let q = if p < lo {
        lo
    } else {
        p
    };
    if q > hi {
        hi
    } else {
        q
    }
}

/// First index at or after `i` that does not hold JSON whitespace.
pub open spec fn spec_skip_ws(s: Seq<char>, i: int) -> int
    decreases s.len() - i,
{
    if 0 <= i < s.len() && is_json_ws(s[i]) {
        spec_skip_ws(s, i + 1)
    } else {
        i
    }
}

/// First index at or after `i` that does not hold a decimal digit.
pub open spec fn spec_skip_digits(s: Seq<char>, i: int) -> int
    decreases s.len() - i,
{
    if 0 <= i < s.len() && is_dec_digit(s[i]) {
        spec_skip_digits(s, i + 1)
    } else {
        i
    }
}

/// Skips the body of a JSON string; `i` is the index just after the opening
/// quote.  Returns the index just after the closing quote, or `None` when the
/// body is malformed.
pub open spec fn spec_skip_string_body(s: Seq<char>, i: int) -> Option<int>
    decreases s.len() - i,
{
    if !(0 <= i < s.len()) {
        None
    } else if s[i] == '"' {
        Some(i + 1)
    } else if s[i] == '\\' {
        if i + 1 < s.len() {
            let c = s[i + 1];
            if c == '"' || c == '\\' || c == '/' || c == 'b' || c == 'f' || c == 'n' || c == 'r'
                || c == 't' {
                spec_skip_string_body(s, i + 2)
            } else if c == 'u' {
                if i + 5 < s.len() && is_hex_digit(s[i + 2]) && is_hex_digit(s[i + 3])
                    && is_hex_digit(s[i + 4]) && is_hex_digit(s[i + 5]) {
                    spec_skip_string_body(s, i + 6)
                } else {
                    None
                }
            } else {
                None
            }
        } else {
            None
        }
    } else if (s[i] as u32) < 0x20 {
        None
    } else {
        spec_skip_string_body(s, i + 1)
    }
}

/// Skips the fraction part of a JSON number, if one starts at `k`.
pub open spec fn spec_skip_frac(s: Seq<char>, k: int) -> Option<int> {
    if 0 <= k < s.len() && s[k] == '.' {
        if 0 <= k + 1 < s.len() && is_dec_digit(s[k + 1]) {
            Some(spec_skip_digits(s, k + 1))
        } else {
            None
        }
    } else {
        Some(k)
    }
}

/// Skips the exponent part of a JSON number, if one starts at `m`.
pub open spec fn spec_skip_exp(s: Seq<char>, m: int) -> Option<int> {
    if 0 <= m < s.len() && (s[m] == 'e' || s[m] == 'E') {
        let p = if m + 1 < s.len() && (s[m + 1] == '+' || s[m + 1] == '-') {
            m + 2
        } else {
            m + 1
        };
        if 0 <= p < s.len() && is_dec_digit(s[p]) {
            Some(spec_skip_digits(s, p))
        } else {
            None
        }
    } else {
        Some(m)
    }
}

/// Skips a JSON number starting at `i`.
pub open spec fn spec_skip_number(s: Seq<char>, i: int) -> Option<int> {
    let j = if 0 <= i < s.len() && s[i] == '-' {
        i + 1
    } else {
        i
    };
    if !(0 <= j < s.len() && is_dec_digit(s[j])) {
        None
    } else {
        let k = if s[j] == '0' {
            j + 1
        } else {
            spec_skip_digits(s, j)
        };
        match spec_skip_frac(s, k) {
            None => None,
            Some(m) => spec_skip_exp(s, m),
        }
    }
}

/// Skips one complete JSON value starting at `i` (no leading whitespace).
pub open spec fn spec_skip_value(s: Seq<char>, i: int) -> Option<int>
    decreases s.len() - i, 0int,
{
    if !(0 <= i < s.len()) {
        None
    } else if s[i] == '"' {
        spec_skip_string_body(s, i + 1)
    } else if s[i] == '{' {
        spec_skip_object_rest(s, i + 1)
    } else if s[i] == '[' {
        spec_skip_array_rest(s, i + 1)
    } else if s[i] == 't' {
        if i + 4 <= s.len() && s[i + 1] == 'r' && s[i + 2] == 'u' && s[i + 3] == 'e' {
            Some(i + 4)
        } else {
            None
        }
    } else if s[i] == 'f' {
        if i + 5 <= s.len() && s[i + 1] == 'a' && s[i + 2] == 'l' && s[i + 3] == 's' && s[i + 4]
            == 'e' {
            Some(i + 5)
        } else {
            None
        }
    } else if s[i] == 'n' {
        if i + 4 <= s.len() && s[i + 1] == 'u' && s[i + 2] == 'l' && s[i + 3] == 'l' {
            Some(i + 4)
        } else {
            None
        }
    } else {
        spec_skip_number(s, i)
    }
}

/// After an object key's closing quote: skips the colon and the member's
/// value, returning the index just after the value.
pub open spec fn spec_skip_member(s: Seq<char>, k: int) -> Option<int>
    decreases s.len() - k, 1int,
{
    if !(0 <= k <= s.len()) {
        None
    } else {
        let m = advance(spec_skip_ws(s, k), k, s.len() as int);
        if m < s.len() && s[m] == ':' {
            let vs = advance(spec_skip_ws(s, m + 1), m + 1, s.len() as int);
            if vs < s.len() {
                spec_skip_value(s, vs)
            } else {
                None
            }
        } else {
            None
        }
    }
}

/// Just after `{`: skips the remainder of the object.
pub open spec fn spec_skip_object_rest(s: Seq<char>, i: int) -> Option<int>
    decreases s.len() - i, 1int,
{
    if !(0 <= i <= s.len()) {
        None
    } else {
        let j = advance(spec_skip_ws(s, i), i, s.len() as int);
        if j < s.len() && s[j] == '}' {
            Some(j + 1)
        } else if j < s.len() && s[j] == '"' {
            match spec_skip_string_body(s, j + 1) {
                None => None,
                Some(k0) => {
                    let k = advance(k0, j + 2, s.len() as int);
                    match spec_skip_member(s, k) {
                        None => None,
                        Some(e0) => spec_skip_object_tail(s, advance(e0, k + 1, s.len() as int)),
                    }
                },
            }
        } else {
            None
        }
    }
}

/// Just after a member's value: skips `}` or `, member ... }`.
pub open spec fn spec_skip_object_tail(s: Seq<char>, i: int) -> Option<int>
    decreases s.len() - i, 1int,
{
    if !(0 <= i <= s.len()) {
        None
    } else {
        let j = advance(spec_skip_ws(s, i), i, s.len() as int);
        if j < s.len() && s[j] == '}' {
            Some(j + 1)
        } else if j < s.len() && s[j] == ',' {
            let j2 = advance(spec_skip_ws(s, j + 1), j + 1, s.len() as int);
            if j2 < s.len() && s[j2] == '"' {
                match spec_skip_string_body(s, j2 + 1) {
                    None => None,
                    Some(k0) => {
                        let k = advance(k0, j2 + 2, s.len() as int);
                        match spec_skip_member(s, k) {
                            None => None,
                            Some(e0) => spec_skip_object_tail(s, advance(e0, k + 1, s.len() as int)),
                        }
                    },
                }
            } else {
                None
            }
        } else {
            None
        }
    }
}

/// Just after `[`: skips the remainder of the array.
pub open spec fn spec_skip_array_rest(s: Seq<char>, i: int) -> Option<int>
    decreases s.len() - i, 1int,
{
    if !(0 <= i <= s.len()) {
        None
    } else {
        let j = advance(spec_skip_ws(s, i), i, s.len() as int);
        if j < s.len() && s[j] == ']' {
            Some(j + 1)
        } else if j < s.len() {
            match spec_skip_value(s, j) {
                None => None,
                Some(e0) => spec_skip_array_tail(s, advance(e0, j + 1, s.len() as int)),
            }
        } else {
            None
        }
    }
}

/// Just after an array element: skips `]` or `, element ... ]`.
pub open spec fn spec_skip_array_tail(s: Seq<char>, i: int) -> Option<int>
    decreases s.len() - i, 1int,
{
    if !(0 <= i <= s.len()) {
        None
    } else {
        let j = advance(spec_skip_ws(s, i), i, s.len() as int);
        if j < s.len() && s[j] == ']' {
            Some(j + 1)
        } else if j < s.len() && s[j] == ',' {
            let j2 = advance(spec_skip_ws(s, j + 1), j + 1, s.len() as int);
            if j2 < s.len() {
                match spec_skip_value(s, j2) {
                    None => None,
                    Some(e0) => spec_skip_array_tail(s, advance(e0, j2 + 1, s.len() as int)),
                }
            } else {
                None
            }
        } else {
            None
        }
    }
}

// ---------------------------------------------------------------------------
// Grammar: exec skipping, each function mirroring its spec
// ---------------------------------------------------------------------------

/// First index at or after `i` without JSON whitespace.
pub fn skip_ws(v: &Vec<char>, i: usize) -> (r: usize)
    requires
        i <= v@.len(),
    ensures
        i <= r <= v@.len(),
        r as int == spec_skip_ws(v@, i as int),
{
    let mut j = i;
    while j < v.len() && (v[j] == ' ' || v[j] == '\t' || v[j] == '\n' || v[j] == '\r')
        invariant
            i <= j <= v@.len(),
            spec_skip_ws(v@, i as int) == spec_skip_ws(v@, j as int),
        decreases v@.len() - j,
    {
        j += 1;
    }
    j
}

/// First index at or after `i` without a decimal digit.
pub fn skip_digits(v: &Vec<char>, i: usize) -> (r: usize)
    requires
        i <= v@.len(),
    ensures
        i <= r <= v@.len(),
        r as int == spec_skip_digits(v@, i as int),
{
    let mut j = i;
    while j < v.len() && 48 <= v[j] as u32 && v[j] as u32 <= 57
        invariant
            i <= j <= v@.len(),
            spec_skip_digits(v@, i as int) == spec_skip_digits(v@, j as int),
        decreases v@.len() - j,
    {
        j += 1;
    }
    j
}

/// Skips a JSON string body starting just after the opening quote.
pub fn skip_string_body(v: &Vec<char>, i: usize) -> (r: Option<usize>)
    requires
        i <= v@.len(),
    ensures
        match r {
            Some(e) => i < e <= v@.len() && spec_skip_string_body(v@, i as int) == Some(e as int),
            None => spec_skip_string_body(v@, i as int) == None::<int>,
        },
{
    let mut j = i;
    loop
        invariant
            i <= j <= v@.len(),
            spec_skip_string_body(v@, i as int) == spec_skip_string_body(v@, j as int),
        decreases v@.len() - j,
    {
        if j >= v.len() {
            return None;
        }
        let c = v[j];
        if c == '"' {
            return Some(j + 1);
        } else if c == '\\' {
            if v.len() - j < 2 {
                return None;
            }
            let c2 = v[j + 1];
            if c2 == '"' || c2 == '\\' || c2 == '/' || c2 == 'b' || c2 == 'f' || c2 == 'n' || c2
                == 'r' || c2 == 't' {
                j += 2;
            } else if c2 == 'u' {
                if v.len() - j >= 6 && is_hex_digit_exec(v[j + 2]) && is_hex_digit_exec(v[j + 3])
                    && is_hex_digit_exec(v[j + 4]) && is_hex_digit_exec(v[j + 5]) {
                    j += 6;
                } else {
                    return None;
                }
            } else {
                return None;
            }
        } else if (c as u32) < 0x20 {
            return None;
        } else {
            j += 1;
        }
    }
}

/// Whether `c` is a hexadecimal digit.
pub fn is_hex_digit_exec(c: char) -> (r: bool)
    ensures
        r == is_hex_digit(c),
{
    let u = c as u32;
    (48 <= u && u <= 57) || (97 <= u && u <= 102) || (65 <= u && u <= 70)
}

/// Skips a JSON number starting at `i`.
pub fn skip_number(v: &Vec<char>, i: usize) -> (r: Option<usize>)
    requires
        i <= v@.len(),
    ensures
        match r {
            Some(e) => i < e <= v@.len() && spec_skip_number(v@, i as int) == Some(e as int),
            None => spec_skip_number(v@, i as int) == None::<int>,
        },
{
    let j = if i < v.len() && v[i] == '-' {
        i + 1
    } else {
        i
    };
    if !(j < v.len() && 48 <= v[j] as u32 && v[j] as u32 <= 57) {
        return None;
    }
    let k = if v[j] == '0' {
        j + 1
    } else {
        skip_digits(v, j + 1)
    };
    assert(spec_skip_digits(v@, j as int) == spec_skip_digits(v@, j + 1 as int));
    // fraction part
    let m: usize;
    if k < v.len() && v[k] == '.' {
        if k + 1 < v.len() && 48 <= v[k + 1] as u32 && v[k + 1] as u32 <= 57 {
            m = skip_digits(v, k + 1);
        } else {
            return None;
        }
    } else {
        m = k;
    }
    // exponent part
    if m < v.len() && (v[m] == 'e' || v[m] == 'E') {
        let p = if m + 1 < v.len() && (v[m + 1] == '+' || v[m + 1] == '-') {
            m + 2
        } else {
            m + 1
        };
        if p < v.len() && 48 <= v[p] as u32 && v[p] as u32 <= 57 {
            Some(skip_digits(v, p))
        } else {
            None
        }
    } else {
        Some(m)
    }
}

/// Skips one complete JSON value starting at `i`.
pub fn skip_value(v: &Vec<char>, i: usize) -> (r: Option<usize>)
    requires
        i <= v@.len(),
    ensures
        match r {
            Some(e) => i < e <= v@.len() && spec_skip_value(v@, i as int) == Some(e as int),
            None => spec_skip_value(v@, i as int) == None::<int>,
        },
    decreases v@.len() - i, 0int,
{
    if i >= v.len() {
        return None;
    }
    let c = v[i];
    if c == '"' {
        skip_string_body(v, i + 1)
    } else if c == '{' {
        skip_object_rest(v, i + 1)
    } else if c == '[' {
        skip_array_rest(v, i + 1)
    } else if c == 't' {
        if v.len() - i >= 4 && v[i + 1] == 'r' && v[i + 2] == 'u' && v[i + 3] == 'e' {
            Some(i + 4)
        } else {
            None
        }
    } else if c == 'f' {
        if v.len() - i >= 5 && v[i + 1] == 'a' && v[i + 2] == 'l' && v[i + 3] == 's' && v[i + 4]
            == 'e' {
            Some(i + 5)
        } else {
            None
        }
    } else if c == 'n' {
        if v.len() - i >= 4 && v[i + 1] == 'u' && v[i + 2] == 'l' && v[i + 3] == 'l' {
            Some(i + 4)
        } else {
            None
        }
    } else {
        skip_number(v, i)
    }
}

/// After an object key: skips the colon and the member's value.
pub fn skip_member(v: &Vec<char>, k: usize) -> (r: Option<usize>)
    requires
        k <= v@.len(),
    ensures
        match r {
            Some(e) => k < e <= v@.len() && spec_skip_member(v@, k as int) == Some(e as int),
            None => spec_skip_member(v@, k as int) == None::<int>,
        },
    decreases v@.len() - k, 1int,
{
    let m = skip_ws(v, k);
    if m < v.len() && v[m] == ':' {
        let vs = skip_ws(v, m + 1);
        if vs < v.len() {
            skip_value(v, vs)
        } else {
            None
        }
    } else {
        None
    }
}

/// Just after `{`: skips the remainder of the object.
pub fn skip_object_rest(v: &Vec<char>, i: usize) -> (r: Option<usize>)
    requires
        i <= v@.len(),
    ensures
        match r {
            Some(e) => i < e <= v@.len() && spec_skip_object_rest(v@, i as int) == Some(e as int),
            None => spec_skip_object_rest(v@, i as int) == None::<int>,
        },
    decreases v@.len() - i, 1int,
{
    let j = skip_ws(v, i);
    if j < v.len() && v[j] == '}' {
        Some(j + 1)
    } else if j < v.len() && v[j] == '"' {
        match skip_string_body(v, j + 1) {
            None => None,
            Some(k) => match skip_member(v, k) {
                None => None,
                Some(e) => skip_object_tail(v, e),
            },
        }
    } else {
        None
    }
}

/// Just after a member's value: skips `}` or `, member ... }`.
pub fn skip_object_tail(v: &Vec<char>, i: usize) -> (r: Option<usize>)
    requires
        i <= v@.len(),
    ensures
        match r {
            Some(e) => i < e <= v@.len() && spec_skip_object_tail(v@, i as int) == Some(e as int),
            None => spec_skip_object_tail(v@, i as int) == None::<int>,
        },
    decreases v@.len() - i, 1int,
{
    let j = skip_ws(v, i);
    if j < v.len() && v[j] == '}' {
        Some(j + 1)
    } else if j < v.len() && v[j] == ',' {
        let j2 = skip_ws(v, j + 1);
        if j2 < v.len() && v[j2] == '"' {
            match skip_string_body(v, j2 + 1) {
                None => None,
                Some(k) => match skip_member(v, k) {
                    None => None,
                    Some(e) => skip_object_tail(v, e),
                },
            }
        } else {
            None
        }
    } else {
        None
    }
}

/// Just after `[`: skips the remainder of the array.
pub fn skip_array_rest(v: &Vec<char>, i: usize) -> (r: Option<usize>)
    requires
        i <= v@.len(),
    ensures
        match r {
            Some(e) => i < e <= v@.len() && spec_skip_array_rest(v@, i as int) == Some(e as int),
            None => spec_skip_array_rest(v@, i as int) == None::<int>,
        },
    decreases v@.len() - i, 1int,
{
    let j = skip_ws(v, i);
    if j < v.len() && v[j] == ']' {
        Some(j + 1)
    } else if j < v.len() {
        match skip_value(v, j) {
            None => None,
            Some(e) => skip_array_tail(v, e),
        }
    } else {
        None
    }
}

/// Just after an array element: skips `]` or `, element ... ]`.
pub fn skip_array_tail(v: &Vec<char>, i: usize) -> (r: Option<usize>)
    requires
        i <= v@.len(),
    ensures
        match r {
            Some(e) => i < e <= v@.len() && spec_skip_array_tail(v@, i as int) == Some(e as int),
            None => spec_skip_array_tail(v@, i as int) == None::<int>,
        },
    decreases v@.len() - i, 1int,
{
    let j = skip_ws(v, i);
    if j < v.len() && v[j] == ']' {
        Some(j + 1)
    } else if j < v.len() && v[j] == ',' {
        let j2 = skip_ws(v, j + 1);
        if j2 < v.len() {
            match skip_value(v, j2) {
                None => None,
                Some(e) => skip_array_tail(v, e),
            }
        } else {
            None
        }
    } else {
        None
    }
}

/// Whether `a`'s characters are exactly `b`'s.
pub fn str_eq(a: &String, b: &str) -> (r: bool)
    ensures
        r == (a@ == b@),
{
    let bs: String = b.to_owned();
    *a == bs
}

/// Numeric value of a hexadecimal digit character, or `None`.
pub fn hex_val(c: char) -> (r: Option<u32>)
    ensures
        r == (if is_hex_digit(c) {
            Some(spec_hex_val(c))
        } else {
            None::<u32>
        }),
{
    let u = c as u32;
    if 48 <= u && u <= 57 {
        Some(u - 48)
    } else if 97 <= u && u <= 102 {
        Some(u - 87)
    } else if 65 <= u && u <= 70 {
        Some(u - 55)
    } else {
        None
    }
}

// ---------------------------------------------------------------------------
// String unescaping (JSON string content -> text)
// ---------------------------------------------------------------------------

/// Decodes JSON string content (the characters between the quotes) starting
/// at `i`, with `acc` already decoded.  Unicode escapes naming surrogates are
/// rejected, as are raw control characters.
pub open spec fn spec_unescape_at(s: Seq<char>, i: int, acc: Seq<char>) -> Option<Seq<char>>
    decreases s.len() - i,
{
    if i < 0 {
        None
    } else if i >= s.len() {
        Some(acc)
    } else if s[i] == '\\' {
        if i + 1 < s.len() {
            let c = s[i + 1];
            if c == '"' {
                spec_unescape_at(s, i + 2, acc.push('"'))
            } else if c == '\\' {
                spec_unescape_at(s, i + 2, acc.push('\\'))
            } else if c == '/' {
                spec_unescape_at(s, i + 2, acc.push('/'))
            } else if c == 'b' {
                spec_unescape_at(s, i + 2, acc.push('\u{8}'))
            } else if c == 'f' {
                spec_unescape_at(s, i + 2, acc.push('\u{c}'))
            } else if c == 'n' {
                spec_unescape_at(s, i + 2, acc.push('\n'))
            } else if c == 'r' {
                spec_unescape_at(s, i + 2, acc.push('\r'))
            } else if c == 't' {
                spec_unescape_at(s, i + 2, acc.push('\t'))
            } else if c == 'u' {
                if i + 5 < s.len() && is_hex_digit(s[i + 2]) && is_hex_digit(s[i + 3])
                    && is_hex_digit(s[i + 4]) && is_hex_digit(s[i + 5]) {
                    let code = (spec_hex_val(s[i + 2]) * 4096 + spec_hex_val(s[i + 3]) * 256
                        + spec_hex_val(s[i + 4]) * 16 + spec_hex_val(s[i + 5])) as u32;
                    if code < 0xD800 || code >= 0xE000 {
                        spec_unescape_at(s, i + 6, acc.push(code as char))
                    } else {
                        None
                    }
                } else {
                    None
                }
            } else {
                None
            }
        } else {
            None
        }
    } else if (s[i] as u32) < 0x20 {
        None
    } else {
        spec_unescape_at(s, i + 1, acc.push(s[i]))
    }
}

/// Decoded form of JSON string content, or `None` when malformed.
pub open spec fn spec_unescape(s: Seq<char>) -> Option<Seq<char>> {
    spec_unescape_at(s, 0, Seq::empty())
}

/// Decodes the JSON string content held in `v[from..to]`.
pub fn unescape(v: &Vec<char>, from: usize, to: usize) -> (r: Option<String>)
    requires
        from <= to <= v@.len(),
    ensures
        match r {
            Some(out) => spec_unescape(v@.subrange(from as int, to as int)) == Some(out@),
            None => spec_unescape(v@.subrange(from as int, to as int)) == None::<Seq<char>>,
        },
{
    let ghost sub = v@.subrange(from as int, to as int);
    let mut out = String::new();
    let mut i = from;
    loop
        invariant
            from <= i <= to <= v@.len(),
            sub == v@.subrange(from as int, to as int),
            spec_unescape(sub) == spec_unescape_at(sub, i - from, out@),
        decreases to - i,
    {
        if i >= to {
            return Some(out);
        }
        let c = v[i];
        assert(sub[i - from] == c);
        if c == '\\' {
            if to - i < 2 {
                return None;
            }
            let c2 = v[i + 1];
            assert(sub[i - from + 1] == c2);
            if c2 == '"' {
                push_char(&mut out, '"');
                i += 2;
            } else if c2 == '\\' {
                push_char(&mut out, '\\');
                i += 2;
            } else if c2 == '/' {
                push_char(&mut out, '/');
                i += 2;
            } else if c2 == 'b' {
                push_char(&mut out, '\u{8}');
                i += 2;
            } else if c2 == 'f' {
                push_char(&mut out, '\u{c}');
                i += 2;
            } else if c2 == 'n' {
                push_char(&mut out, '\n');
                i += 2;
            } else if c2 == 'r' {
                push_char(&mut out, '\r');
                i += 2;
            } else if c2 == 't' {
                push_char(&mut out, '\t');
                i += 2;
            } else if c2 == 'u' {
                if to - i < 6 {
                    return None;
                }
                assert(sub[i - from + 2] == v@[i + 2]);
                assert(sub[i - from + 3] == v@[i + 3]);
                assert(sub[i - from + 4] == v@[i + 4]);
                assert(sub[i - from + 5] == v@[i + 5]);
                let h2 = hex_val(v[i + 2]);
                let h3 = hex_val(v[i + 3]);
                let h4 = hex_val(v[i + 4]);
                let h5 = hex_val(v[i + 5]);
                match (h2, h3, h4, h5) {
                    (Some(a), Some(b), Some(cc), Some(d)) => {
                        let code: u32 = a * 4096 + b * 256 + cc * 16 + d;
                        if code < 0xD800 || code >= 0xE000 {
                            match char_from_u32(code) {
                                Some(ch) => {
                                    push_char(&mut out, ch);
                                    i += 6;
                                },
                                None => {
                                    assert(false);
                                    return None;
                                },
                            }
                        } else {
                            return None;
                        }
                    },
                    _ => {
                        return None;
                    },
                }
            } else {
                return None;
            }
        } else if (c as u32) < 0x20 {
            return None;
        } else {
            push_char(&mut out, c);
            i += 1;
        }
    }
}

// ---------------------------------------------------------------------------
// String escaping (text -> JSON string content)
// ---------------------------------------------------------------------------

/// The hexadecimal digit character for `d` (lower case).
pub open spec fn spec_hex_digit_char(d: int) -> char {
    if d < 10 {
        ((48 + d) as u8) as char
    } else {
        ((87 + d) as u8) as char
    }
}

/// JSON escaping of one character.
pub open spec fn spec_escape_char(c: char) -> Seq<char> {
    if c == '"' {
        seq!['\\', '"']
    } else if c == '\\' {
        seq!['\\', '\\']
    } else if c == '\u{8}' {
        seq!['\\', 'b']
    } else if c == '\u{c}' {
        seq!['\\', 'f']
    } else if c == '\n' {
        seq!['\\', 'n']
    } else if c == '\r' {
        seq!['\\', 'r']
    } else if c == '\t' {
        seq!['\\', 't']
    } else if (c as u32) < 0x20 {
        seq!['\\', 'u', '0', '0'] + seq![
            spec_hex_digit_char(c as u32 as int / 16),
            spec_hex_digit_char(c as u32 as int % 16),
        ]
    } else {
        seq![c]
    }
}

pub open spec fn spec_escape_at(s: Seq<char>, i: int, acc: Seq<char>) -> Seq<char>
    decreases s.len() - i,
{
    if !(0 <= i < s.len()) {
        acc
    } else {
        spec_escape_at(s, i + 1, acc + spec_escape_char(s[i]))
    }
}

/// JSON escaping of a whole text: the content that, wrapped in quotes, is the
/// JSON string literal for it.
pub open spec fn spec_escape(s: Seq<char>) -> Seq<char> {
    spec_escape_at(s, 0, Seq::empty())
}

/// The hexadecimal digit character for `d` (lower case).
pub fn hex_digit_char(d: u8) -> (r: char)
    requires
        d < 16,
    ensures
        r == spec_hex_digit_char(d as int),
{
    if d < 10 {
        (48 + d) as char
    } else {
        (87 + d) as char
    }
}

/// The JSON escaping of one character, as a character vector.
pub fn escape_char_vec(c: char) -> (r: Vec<char>)
    ensures
        r@ == spec_escape_char(c),
{
    let mut r: Vec<char> = Vec::new();
    if c == '"' {
        r.push('\\');
        r.push('"');
        assert(r@ =~= spec_escape_char(c));
    } else if c == '\\' {
        r.push('\\');
        r.push('\\');
        assert(r@ =~= spec_escape_char(c));
    } else if c == '\u{8}' {
        r.push('\\');
        r.push('b');
        assert(r@ =~= spec_escape_char(c));
    } else if c == '\u{c}' {
        r.push('\\');
        r.push('f');
        assert(r@ =~= spec_escape_char(c));
    } else if c == '\n' {
        r.push('\\');
        r.push('n');
        assert(r@ =~= spec_escape_char(c));
    } else if c == '\r' {
        r.push('\\');
        r.push('r');
        assert(r@ =~= spec_escape_char(c));
    } else if c == '\t' {
        r.push('\\');
        r.push('t');
        assert(r@ =~= spec_escape_char(c));
    } else if (c as u32) < 0x20 {
        let u = c as u32;
        r.push('\\');
        r.push('u');
        r.push('0');
        r.push('0');
        r.push(hex_digit_char((u / 16) as u8));
        r.push(hex_digit_char((u % 16) as u8));
        assert(r@ =~= spec_escape_char(c));
    } else {
        r.push(c);
        assert(r@ =~= spec_escape_char(c));
    }
    r
}

/// Appends the JSON-escaped form of `s` to `out`.
pub fn push_escaped(out: &mut String, s: &str)
    ensures
        final(out)@ == old(out)@ + spec_escape(s@),
{
    let v = to_char_vec(s);
    let ghost base = old(out)@;
    let ghost mut acc: Seq<char> = Seq::empty();
    let mut i: usize = 0;
    while i < v.len()
        invariant
            i <= v@.len(),
            v@ == s@,
            out@ == base + acc,
            spec_escape(s@) == spec_escape_at(s@, i as int, acc),
        decreases v@.len() - i,
    {
        let es = escape_char_vec(v[i]);
        let mut k: usize = 0;
        while k < es.len()
            invariant
                k <= es@.len(),
                out@ == base + acc + es@.subrange(0, k as int),
            decreases es@.len() - k,
        {
            push_char(out, es[k]);
            k += 1;
            assert((base + acc + es@.subrange(0, (k - 1) as int)).push(es@[(k - 1) as int]) =~= base
                + acc + es@.subrange(0, k as int));
        }
        assert(es@.subrange(0, es@.len() as int) =~= es@);
        proof {
            acc = acc + spec_escape_char(v@[i as int]);
        }
        assert(out@ =~= base + acc);
        i += 1;
    }
    proof {
        assert(spec_escape(s@) == acc);
    }
}

// ---------------------------------------------------------------------------
// Numbers
// ---------------------------------------------------------------------------

/// Folds hexadecimal digits into `acc`; `None` on a non-digit or on overflow
/// of an unsigned 64-bit value.
pub open spec fn spec_parse_hex_u64_at(s: Seq<char>, i: int, acc: u64) -> Option<u64>
    decreases s.len() - i,
{
    if i < 0 {
        None
    } else if i >= s.len() {
        Some(acc)
    } else if !is_hex_digit(s[i]) {
        None
    } else if acc > (0xFFFF_FFFF_FFFF_FFFFu64 - spec_hex_val(s[i])) / 16 {
        None
    } else {
        spec_parse_hex_u64_at(s, i + 1, (acc * 16 + spec_hex_val(s[i])) as u64)
    }
}

/// The unsigned 64-bit value of a non-empty all-hex-digit sequence.
pub open spec fn spec_parse_hex_u64(s: Seq<char>) -> Option<u64> {
    if s.len() == 0 {
        None
    } else {
        spec_parse_hex_u64_at(s, 0, 0)
    }
}

/// The value of a hex literal with an optional, case-insensitive `0x` prefix
/// stripped once.
pub open spec fn spec_hex_literal(t: Seq<char>) -> Option<u64> {
    if t.len() >= 2 && t[0] == '0' && (t[1] == 'x' || t[1] == 'X') {
        spec_parse_hex_u64(t.subrange(2, t.len() as int))
    } else {
        spec_parse_hex_u64(t)
    }
}

/// Parses a hex literal (optional `0x`/`0X` prefix) into an unsigned 64-bit
/// value.
pub fn hex_literal_to_u64(s: &str) -> (r: Option<u64>)
    ensures
        r == spec_hex_literal(s@),
{
    let v = to_char_vec(s);
    let start: usize = if v.len() >= 2 && v[0] == '0' && (v[1] == 'x' || v[1] == 'X') {
        2
    } else {
        0
    };
    let ghost rest = v@.subrange(start as int, v@.len() as int);
    proof {
        if start == 2 {
            assert(rest =~= s@.subrange(2, s@.len() as int));
            assert(spec_hex_literal(s@) == spec_parse_hex_u64(rest));
        } else {
            assert(rest =~= s@);
            assert(spec_hex_literal(s@) == spec_parse_hex_u64(rest));
        }
    }
    if v.len() == start {
        assert(rest.len() == 0);
        return None;
    }
    let mut acc: u64 = 0;
    let mut i = start;
    while i < v.len()
        invariant
            start <= i <= v@.len(),
            start < v@.len(),
            rest == v@.subrange(start as int, v@.len() as int),
            spec_hex_literal(s@) == spec_parse_hex_u64(rest),
            spec_parse_hex_u64_at(rest, 0, 0) == spec_parse_hex_u64_at(rest, i - start, acc),
        decreases v@.len() - i,
    {
        assert(rest[i - start] == v@[i as int]);
        match hex_val(v[i]) {
            None => {
                assert(spec_parse_hex_u64_at(rest, i - start, acc) == None::<u64>);
                return None;
            },
            Some(h) => {
                let h64 = h as u64;
                if acc > (u64::MAX - h64) / 16 {
                    assert(spec_parse_hex_u64_at(rest, i - start, acc) == None::<u64>);
                    return None;
                }
                acc = acc * 16 + h64;
                i += 1;
            },
        }
    }
    Some(acc)
}

/// Folds decimal digits into `acc`; `None` on a non-digit or on overflow of
/// an unsigned 64-bit value.
pub open spec fn spec_parse_dec_u64_at(s: Seq<char>, i: int, acc: u64) -> Option<u64>
    decreases s.len() - i,
{
    if i < 0 {
        None
    } else if i >= s.len() {
        Some(acc)
    } else if !is_dec_digit(s[i]) {
        None
    } else if acc > (0xFFFF_FFFF_FFFF_FFFFu64 - spec_dec_val(s[i])) / 10 {
        None
    } else {
        spec_parse_dec_u64_at(s, i + 1, (acc * 10 + spec_dec_val(s[i])) as u64)
    }
}

/// The unsigned 64-bit value of a non-empty all-decimal-digit sequence.
pub open spec fn spec_parse_dec_u64(s: Seq<char>) -> Option<u64> {
    if s.len() == 0 {
        None
    } else {
        spec_parse_dec_u64_at(s, 0, 0)
    }
}

/// Parses the characters `v[from..to]` as a decimal unsigned 64-bit value.
pub fn dec_span_to_u64(v: &Vec<char>, from: usize, to: usize) -> (r: Option<u64>)
    requires
        from <= to <= v@.len(),
    ensures
        r == spec_parse_dec_u64(v@.subrange(from as int, to as int)),
{
    let ghost sub = v@.subrange(from as int, to as int);
    if from == to {
        assert(sub.len() == 0);
        return None;
    }
    let mut acc: u64 = 0;
    let mut i = from;
    while i < to
        invariant
            from <= i <= to <= v@.len(),
            sub == v@.subrange(from as int, to as int),
            spec_parse_dec_u64_at(sub, 0, 0) == spec_parse_dec_u64_at(sub, i - from, acc),
        decreases to - i,
    {
        assert(sub[i - from] == v@[i as int]);
        let u = v[i] as u32;
        if !(48 <= u && u <= 57) {
            return None;
        }
        let d = (u - 48) as u64;
        if acc > (u64::MAX - d) / 10 {
            return None;
        }
        acc = acc * 10 + d;
        i += 1;
    }
    Some(acc)
}

/// The decimal digit characters of `v`, most significant first.
pub open spec fn spec_u64_dec_seq(v: int) -> Seq<char>
    decreases v,
{
    if v < 10 {
        seq![spec_dec_digit_char(if v < 0 { 0 } else { v % 10 })]
    } else {
        spec_u64_dec_seq(v / 10) + seq![spec_dec_digit_char(v % 10)]
    }
}

/// The decimal digit character for `d`.
pub open spec fn spec_dec_digit_char(d: int) -> char {
    ((48 + d) as u8) as char
}

/// Appends the decimal form of `x` to `out`.
pub fn push_dec_u64(out: &mut String, x: u64)
    ensures
        final(out)@ == old(out)@ + spec_u64_dec_seq(x as int),
    decreases x,
{
    if x < 10 {
        push_char(out, (48 + (x as u8)) as char);
        assert(old(out)@.push(spec_dec_digit_char(x as int)) =~= old(out)@ + spec_u64_dec_seq(
            x as int,
        ));
    } else {
        push_dec_u64(out, x / 10);
        push_char(out, (48 + ((x % 10) as u8)) as char);
        assert((old(out)@ + spec_u64_dec_seq(x as int / 10)).push(spec_dec_digit_char(x as int % 10))
            =~= old(out)@ + spec_u64_dec_seq(x as int));
    }
}

/// The decimal string form of an unsigned 64-bit value.
pub fn u64_to_dec_string(x: u64) -> (r: String)
    ensures
        r@ == spec_u64_dec_seq(x as int),
{
    let mut out = String::new();
    push_dec_u64(&mut out, x);
    out
}

} // verus!
