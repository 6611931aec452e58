//! A verified JSON parser for the codec's value model.
//!
//! The grammar is the JSON subset the platform's schemas use: `null`,
//! `true`, `false`, integers (no fractions or exponents, no leading
//! zeros), strings with the standard escapes (astral characters must
//! appear raw, not as surrogate-pair escapes), arrays and objects, with
//! insignificant whitespace between tokens.  The specification functions
//! below are the grammar; `parse_json` is proved to agree with them on
//! every input.

use vstd::prelude::*;

use crate::json::{push_char, Json, JsonV};

verus! {

/// JSON insignificant whitespace.
pub open spec fn is_ws(c: char) -> bool {
    c == ' ' || c == '\t' || c == '\n' || c == '\r'
}

/// The first position at or after `i` that does not hold whitespace.
pub open spec fn skip_ws(s: Seq<char>, i: int) -> int
    decreases s.len() - i,
{
    if 0 <= i < s.len() && is_ws(s[i]) {
        skip_ws(s, i + 1)
    } else {
        i
    }
}

/// A decimal digit.
pub open spec fn is_digit(c: char) -> bool {
    0x30 <= c as int <= 0x39
}

/// The value of a decimal digit.
pub open spec fn digit_val(c: char) -> int {
    c as int - 0x30
}

/// The first position at or after `i` that does not hold a digit.
pub open spec fn digits_end(s: Seq<char>, i: int) -> int
    decreases s.len() - i,
{
    if 0 <= i < s.len() && is_digit(s[i]) {
        digits_end(s, i + 1)
    } else {
        i
    }
}

pub proof fn lemma_digits_end(s: Seq<char>, i: int)
    requires
        0 <= i <= s.len(),
    ensures
        i <= digits_end(s, i) <= s.len(),
        forall|k: int| i <= k < digits_end(s, i) ==> is_digit(#[trigger] s[k]),
        digits_end(s, i) < s.len() ==> !is_digit(s[digits_end(s, i)]),
    decreases s.len() - i,
{
    if i < s.len() && is_digit(s[i]) {
        lemma_digits_end(s, i + 1);
    }
}

/// The value of the digit run `s[i .. e]`, most significant digit first.
pub open spec fn digits_val(s: Seq<char>, i: int, e: int) -> int
    decreases e - i,
{
    if i < e {
        digits_val(s, i, e - 1) * 10 + digit_val(s[e - 1])
    } else {
        0
    }
}

/// Ten to the power `n`.
pub open spec fn pow10(n: nat) -> int
    decreases n,
{
    if n == 0 {
        1
    } else {
        10 * pow10((n - 1) as nat)
    }
}

pub proof fn lemma_pow10_mono(a: nat, b: nat)
    requires
        a <= b,
    ensures
        pow10(a) <= pow10(b),
        1 <= pow10(a),
    decreases b,
{
    if b > 0 {
        if a == b {
            lemma_pow10_mono((a - 1) as nat, (b - 1) as nat);
        } else {
            lemma_pow10_mono(a, (b - 1) as nat);
        }
    }
}

pub proof fn lemma_digits_val_lower(s: Seq<char>, i: int, e: int)
    requires
        0 <= i < e <= s.len(),
        forall|k: int| i <= k < e ==> is_digit(#[trigger] s[k]),
        digit_val(s[i]) >= 1,
    ensures
        digits_val(s, i, e) >= pow10((e - i - 1) as nat),
    decreases e - i,
{
    if i == e - 1 {
    } else {
        lemma_digits_val_lower(s, i, e - 1);
        lemma_pow10_mono(0, (e - i - 2) as nat);
        assert(digits_val(s, i, e) == digits_val(s, i, e - 1) * 10 + digit_val(s[e - 1]));
        assert(digits_val(s, i, e - 1) * 10 >= pow10((e - i - 2) as nat) * 10) by (nonlinear_arith)
            requires
                digits_val(s, i, e - 1) >= pow10((e - i - 2) as nat),
        ;
    }
}

/// The integer token starting exactly at `i`: an optional minus sign and a
/// digit run without leading zeros, whose value must fit a 64-bit signed
/// integer.  Yields the value and the position after the last digit.
pub open spec fn sp_int(s: Seq<char>, i: int) -> Option<(int, int)> {
    let neg = 0 <= i < s.len() && s[i] == '-';
    let d0 = if neg {
        i + 1
    } else {
        i
    };
    if 0 <= d0 < s.len() && is_digit(s[d0]) {
        let e = digits_end(s, d0);
        if s[d0] == '0' && e > d0 + 1 {
            None
        } else {
            let v = digits_val(s, d0, e);
            let sv = if neg {
                -v
            } else {
                v
            };
            if -0x8000000000000000 <= sv <= 0x7fffffffffffffff {
                Some((sv, e))
            } else {
                None
            }
        }
    } else {
        None
    }
}

/// A hexadecimal digit.
pub open spec fn is_hex(c: char) -> bool {
    0x30 <= c as int <= 0x39 || 0x61 <= c as int <= 0x66 || 0x41 <= c as int <= 0x46
}

/// The value of a hexadecimal digit.
pub open spec fn hex_val(c: char) -> int {
    if 0x30 <= c as int <= 0x39 {
        c as int - 0x30
    } else if 0x61 <= c as int <= 0x66 {
        c as int - 0x57
    } else {
        c as int - 0x37
    }
}

/// The single character a short escape stands for, or `None` when the
/// character after the backslash is not a legal short escape.
pub open spec fn short_escape(e: char) -> Option<char> {
    if e == '"' {
        Some('"')
    } else if e == '\\' {
        Some('\\')
    } else if e == '/' {
        Some('/')
    } else if e == 'n' {
        Some('\n')
    } else if e == 't' {
        Some('\t')
    } else if e == 'r' {
        Some('\r')
    } else if e == 'b' {
        Some('\u{0008}')
    } else if e == 'f' {
        Some('\u{000C}')
    } else {
        None
    }
}

/// The body of a string literal read from position `i` (just after the
/// opening quote) up to its closing quote: the characters the literal
/// stands for, and the position after the closing quote.  Raw control
/// characters and surrogate `\u` escapes are refused.
pub open spec fn sp_str_body(s: Seq<char>, i: int) -> Option<(Seq<char>, int)>
    decreases s.len() - i,
{
    if 0 <= i < s.len() {
        let c = s[i];
        if c == '"' {
            Some((Seq::empty(), i + 1))
        } else if c == '\\' {
            if i + 1 < s.len() {
                let e = s[i + 1];
                if e == 'u' {
                    if i + 5 < s.len() && is_hex(s[i + 2]) && is_hex(s[i + 3]) && is_hex(s[i + 4])
                        && is_hex(s[i + 5]) {
                        let code = hex_val(s[i + 2]) * 4096 + hex_val(s[i + 3]) * 256 + hex_val(
                            s[i + 4],
                        ) * 16 + hex_val(s[i + 5]);
                        if code < 0xD800 || code >= 0xE000 {
                            match sp_str_body(s, i + 6) {
                                Some((rest, end)) => Some((seq![code as char] + rest, end)),
                                None => None,
                            }
                        } else {
                            None
                        }
                    } else {
                        None
                    }
                } else {
                    match short_escape(e) {
                        Some(c2) => match sp_str_body(s, i + 2) {
                            Some((rest, end)) => Some((seq![c2] + rest, end)),
                            None => None,
                        },
                        None => None,
                    }
                }
            } else {
                None
            }
        } else if (c as int) < 0x20 {
            None
        } else {
            match sp_str_body(s, i + 1) {
                Some((rest, end)) => Some((seq![c] + rest, end)),
                None => None,
            }
        }
    } else {
        None
    }
}

/// The JSON value whose text starts exactly at `i` (no leading
/// whitespace), and the position just after it.
pub open spec fn sp_value(s: Seq<char>, i: int) -> Option<(JsonV, int)>
    decreases s.len() - i, 0int,
{
    if 0 <= i < s.len() {
        let c = s[i];
        if c == 'n' {
            if i + 3 < s.len() && s[i + 1] == 'u' && s[i + 2] == 'l' && s[i + 3] == 'l' {
                Some((JsonV::Null, i + 4))
            } else {
                None
            }
        } else if c == 't' {
            if i + 3 < s.len() && s[i + 1] == 'r' && s[i + 2] == 'u' && s[i + 3] == 'e' {
                Some((JsonV::Bool(true), i + 4))
            } else {
                None
            }
        } else if c == 'f' {
            if i + 4 < s.len() && s[i + 1] == 'a' && s[i + 2] == 'l' && s[i + 3] == 's' && s[i + 4]
                == 'e' {
                Some((JsonV::Bool(false), i + 5))
            } else {
                None
            }
        } else if c == '"' {
            match sp_str_body(s, i + 1) {
                Some((cs, end)) => Some((JsonV::Str(cs), end)),
                None => None,
            }
        } else if c == '-' || is_digit(c) {
            match sp_int(s, i) {
                Some((v, end)) => Some((JsonV::Int(v), end)),
                None => None,
            }
        } else if c == '[' {
            let k = skip_ws(s, i + 1);
            if k < s.len() && s[k] == ']' {
                Some((JsonV::Arr(Seq::empty()), k + 1))
            } else if i < k <= s.len() {
                match sp_items(s, k) {
                    Some((items, end)) => Some((JsonV::Arr(items), end)),
                    None => None,
                }
            } else {
                None
            }
        } else if c == '{' {
            let k = skip_ws(s, i + 1);
            if k < s.len() && s[k] == '}' {
                Some((JsonV::Obj(Seq::empty()), k + 1))
            } else if i < k <= s.len() {
                match sp_members(s, k) {
                    Some((members, end)) => Some((JsonV::Obj(members), end)),
                    None => None,
                }
            } else {
                None
            }
        } else {
            None
        }
    } else {
        None
    }
}

/// One or more comma-separated array elements starting exactly at `i`,
/// up to and through the closing bracket.
pub open spec fn sp_items(s: Seq<char>, i: int) -> Option<(Seq<JsonV>, int)>
    decreases s.len() - i, 1int,
{
    if 0 <= i <= s.len() {
        match sp_value(s, i) {
            None => None,
            Some((v, e)) => {
                if e <= s.len() {
                    let k = skip_ws(s, e);
                    if k < s.len() && s[k] == ',' {
                        let k2 = skip_ws(s, k + 1);
                        if i < k2 <= s.len() {
                            match sp_items(s, k2) {
                                Some((rest, end)) => Some((seq![v] + rest, end)),
                                None => None,
                            }
                        } else {
                            None
                        }
                    } else if k < s.len() && s[k] == ']' {
                        Some((seq![v], k + 1))
                    } else {
                        None
                    }
                } else {
                    None
                }
            },
        }
    } else {
        None
    }
}

/// One or more comma-separated object members starting exactly at `i`
/// (at the opening quote of a key), up to and through the closing brace.
pub open spec fn sp_members(s: Seq<char>, i: int) -> Option<(Seq<(Seq<char>, JsonV)>, int)>
    decreases s.len() - i, 1int,
{
    if 0 <= i < s.len() && s[i] == '"' {
        match sp_str_body(s, i + 1) {
            None => None,
            Some((key, e1)) => {
                if e1 <= s.len() {
                    let k = skip_ws(s, e1);
                    if k < s.len() && s[k] == ':' {
                        let k2 = skip_ws(s, k + 1);
                        if i < k2 <= s.len() {
                            match sp_value(s, k2) {
                                None => None,
                                Some((v, e2)) => {
                                    if e2 <= s.len() {
                                        let k3 = skip_ws(s, e2);
                                        if k3 < s.len() && s[k3] == ',' {
                                            let k4 = skip_ws(s, k3 + 1);
                                            if i < k4 <= s.len() {
                                                match sp_members(s, k4) {
                                                    Some((rest, end)) => Some(
                                                        (seq![(key, v)] + rest, end),
                                                    ),
                                                    None => None,
                                                }
                                            } else {
                                                None
                                            }
                                        } else if k3 < s.len() && s[k3] == '}' {
                                            Some((seq![(key, v)], k3 + 1))
                                        } else {
                                            None
                                        }
                                    } else {
                                        None
                                    }
                                },
                            }
                        } else {
                            None
                        }
                    } else {
                        None
                    }
                } else {
                    None
                }
            },
        }
    } else {
        None
    }
}

/// Relies on `char::from_u32`: every code below 0x110000 outside the
/// surrogate range names a character, and the call yields it.
#[verifier::external_body]
fn char_from_code(x: u64) -> (c: char)
    requires
        x < 0xD800 || (0xE000 <= x && x < 0x110000),
    ensures
        c as int == x as int,
{
    char::from_u32(x as u32).unwrap()
}

/// The characters of a string slice as a vector.
fn str_to_chars(s: &str) -> (r: Vec<char>)
    ensures
        r@ == s@,
{
    let n = s.unicode_len();
    let mut v: Vec<char> = Vec::new();
    let mut i: usize = 0;
    while i < n
        invariant
            i <= n,
            n == s@.len(),
            v@ == s@.take(i as int),
        decreases n - i,
    {
        v.push(s.get_char(i));
        proof {
            assert(s@.take(i + 1) =~= s@.take(i as int).push(s@[i as int]));
        }
        i = i + 1;
    }
    proof {
        assert(s@.take(n as int) =~= s@);
    }
    v
}

/// The first position at or after `i` without whitespace, executably.
fn ws_end(s: &Vec<char>, i: usize) -> (r: usize)
    requires
        i <= s@.len(),
    ensures
        r as int == skip_ws(s@, i as int),
        i <= r <= s@.len(),
    decreases s@.len() - i,
{
    if i < s.len() {
        let c = s[i];
        if c == ' ' || c == '\t' || c == '\n' || c == '\r' {
            return ws_end(s, i + 1);
        }
    }
    i
}

/// The first position at or after `i` without a digit, executably.
fn digits_end_exec(s: &Vec<char>, i: usize) -> (r: usize)
    requires
        i <= s@.len(),
    ensures
        r as int == digits_end(s@, i as int),
        i <= r <= s@.len(),
    decreases s@.len() - i,
{
    if i < s.len() {
        let c = s[i];
        if '0' <= c && c <= '9' {
            return digits_end_exec(s, i + 1);
        }
    }
    i
}

/// The numeric value of a decimal digit character.
fn digit_value(c: char) -> (d: u64)
    requires
        is_digit(c),
    ensures
        d as int == digit_val(c),
        d < 10,
{
    match c {
        '0' => 0,
        '1' => 1,
        '2' => 2,
        '3' => 3,
        '4' => 4,
        '5' => 5,
        '6' => 6,
        '7' => 7,
        '8' => 8,
        _ => 9,
    }
}

proof fn lemma_pow10_consts()
    ensures
        pow10(18) == 1000000000000000000,
        pow10(19) == 10000000000000000000,
{
    reveal_with_fuel(pow10, 21);
}

/// The integer token starting exactly at `i`, executably.
fn p_int(s: &Vec<char>, i: usize) -> (r: Option<(i64, usize)>)
    requires
        i <= s@.len(),
    ensures
        match r {
            Some(p) => sp_int(s@, i as int) == Some((p.0 as int, p.1 as int)) && i < p.1
                <= s@.len(),
            None => sp_int(s@, i as int) is None,
        },
{
    let n = s.len();
    let neg = i < n && s[i] == '-';
    let d0: usize = if neg {
        i + 1
    } else {
        i
    };
    if !(d0 < n) {
        return None;
    }
    let c0 = s[d0];
    if !('0' <= c0 && c0 <= '9') {
        return None;
    }
    let e = digits_end_exec(s, d0);
    proof {
        lemma_digits_end(s@, d0 as int);
    }
    if c0 == '0' && e > d0 + 1 {
        return None;
    }
    let cnt = e - d0;
    if cnt > 19 {
        proof {
            lemma_digits_val_lower(s@, d0 as int, e as int);
            lemma_pow10_mono(19, (cnt - 1) as nat);
            lemma_pow10_consts();
        }
        return None;
    }
    let mut acc: u64 = 0;
    let mut k = d0;
    proof {
        lemma_pow10_consts();
    }
    while k < e
        invariant
            d0 <= k <= e <= s@.len(),
            s@.len() == n,
            e - d0 <= 19,
            e as int == digits_end(s@, d0 as int),
            forall|q: int| d0 <= q < e ==> is_digit(#[trigger] s@[q]),
            acc as int == digits_val(s@, d0 as int, k as int),
            (acc as int) < pow10((k - d0) as nat),
            pow10(18) == 1000000000000000000,
            pow10(19) == 10000000000000000000,
        decreases e - k,
    {
        let d: u64 = digit_value(s[k]);
        proof {
            lemma_pow10_mono((k - d0 + 1) as nat, 19);
            assert((acc as int) * 10 + 9 < pow10((k - d0) as nat) * 10) by (nonlinear_arith)
                requires
                    (acc as int) < pow10((k - d0) as nat),
            ;
        }
        acc = acc * 10 + d;
        k = k + 1;
    }
    if neg {
        if acc > 9223372036854775808u64 {
            return None;
        }
        let v: i64 = if acc == 9223372036854775808u64 {
            i64::MIN
        } else {
            -(acc as i64)
        };
        Some((v, e))
    } else {
        if acc > 9223372036854775807u64 {
            return None;
        }
        Some((acc as i64, e))
    }
}

/// Whether a character is a hexadecimal digit, executably.
fn is_hex_exec(c: char) -> (r: bool)
    ensures
        r == is_hex(c),
{
    ('0' <= c && c <= '9') || ('a' <= c && c <= 'f') || ('A' <= c && c <= 'F')
}

/// The numeric value of a hexadecimal digit character.
fn hex_value(c: char) -> (d: u64)
    requires
        is_hex(c),
    ensures
        d as int == hex_val(c),
        d < 16,
{
    match c {
        '0' => 0,
        '1' => 1,
        '2' => 2,
        '3' => 3,
        '4' => 4,
        '5' => 5,
        '6' => 6,
        '7' => 7,
        '8' => 8,
        '9' => 9,
        'a' => 10,
        'b' => 11,
        'c' => 12,
        'd' => 13,
        'e' => 14,
        'f' => 15,
        'A' => 10,
        'B' => 11,
        'C' => 12,
        'D' => 13,
        'E' => 14,
        _ => 15,
    }
}

/// The body of a string literal, executably.
fn p_str_body(s: &Vec<char>, i0: usize) -> (r: Option<(String, usize)>)
    requires
        i0 <= s@.len(),
    ensures
        match r {
            Some(p) => sp_str_body(s@, i0 as int) == Some((p.0@, p.1 as int)) && i0 < p.1
                <= s@.len(),
            None => sp_str_body(s@, i0 as int) is None,
        },
{
    let n = s.len();
    let mut out = String::new();
    let mut i = i0;
    loop
        invariant
            i0 <= i <= n,
            n == s@.len(),
            sp_str_body(s@, i0 as int) == (match sp_str_body(s@, i as int) {
                Some(q) => Some((out@ + q.0, q.1)),
                None => None::<(Seq<char>, int)>,
            }),
        decreases n - i,
    {
        if i >= n {
            return None;
        }
        let c = s[i];
        if c == '"' {
            proof {
                assert(out@ + Seq::<char>::empty() =~= out@);
            }
            return Some((out, i + 1));
        }
        if c == '\\' {
            if n - i <= 1 {
                return None;
            }
            let e = s[i + 1];
            if e == 'u' {
                if n - i <= 5 {
                    return None;
                }
                let c2 = s[i + 2];
                let c3 = s[i + 3];
                let c4 = s[i + 4];
                let c5 = s[i + 5];
                if !(is_hex_exec(c2) && is_hex_exec(c3) && is_hex_exec(c4) && is_hex_exec(c5)) {
                    return None;
                }
                let code: u64 = hex_value(c2) * 4096 + hex_value(c3) * 256 + hex_value(c4) * 16
                    + hex_value(c5);
                if !(code < 0xD800 || code >= 0xE000) {
                    return None;
                }
                let ch = char_from_code(code);
                let ghost iold = i as int;
                let ghost outold = out@;
                push_char(&mut out, ch);
                i = i + 6;
                proof {
                    assert(ch == ((code as int) as char));
                    assert(sp_str_body(s@, iold) == (match sp_str_body(s@, i as int) {
                        Some(q) => Some((seq![ch] + q.0, q.1)),
                        None => None::<(Seq<char>, int)>,
                    }));
                    if sp_str_body(s@, i as int) is Some {
                        let q = sp_str_body(s@, i as int)->Some_0;
                        assert(outold + (seq![ch] + q.0) =~= outold.push(ch) + q.0);
                    }
                }
            } else {
                let dec: char;
                if e == '"' {
                    dec = '"';
                } else if e == '\\' {
                    dec = '\\';
                } else if e == '/' {
                    dec = '/';
                } else if e == 'n' {
                    dec = '\n';
                } else if e == 't' {
                    dec = '\t';
                } else if e == 'r' {
                    dec = '\r';
                } else if e == 'b' {
                    dec = '\u{0008}';
                } else if e == 'f' {
                    dec = '\u{000C}';
                } else {
                    return None;
                }
                let ghost iold = i as int;
                let ghost outold = out@;
                push_char(&mut out, dec);
                i = i + 2;
                proof {
                    assert(short_escape(s@[iold + 1]) == Some(dec));
                    assert(sp_str_body(s@, iold) == (match sp_str_body(s@, i as int) {
                        Some(q) => Some((seq![dec] + q.0, q.1)),
                        None => None::<(Seq<char>, int)>,
                    }));
                    if sp_str_body(s@, i as int) is Some {
                        let q = sp_str_body(s@, i as int)->Some_0;
                        assert(outold + (seq![dec] + q.0) =~= outold.push(dec) + q.0);
                    }
                }
            }
        } else {
            if !(' ' <= c) {
                return None;
            }
            let ghost iold = i as int;
            let ghost outold = out@;
            push_char(&mut out, c);
            i = i + 1;
            proof {
                assert(sp_str_body(s@, iold) == (match sp_str_body(s@, i as int) {
                    Some(q) => Some((seq![c] + q.0, q.1)),
                    None => None::<(Seq<char>, int)>,
                }));
                if sp_str_body(s@, i as int) is Some {
                    let q = sp_str_body(s@, i as int)->Some_0;
                    assert(outold + (seq![c] + q.0) =~= outold.push(c) + q.0);
                }
            }
        }
    }
}

/// A JSON value starting exactly at `i`, executably.
fn p_value(s: &Vec<char>, i: usize) -> (r: Option<(Json, usize)>)
    requires
        i <= s@.len(),
    ensures
        match r {
            Some(p) => sp_value(s@, i as int) == Some((p.0@, p.1 as int)) && i < p.1 <= s@.len(),
            None => sp_value(s@, i as int) is None,
        },
    decreases s@.len() - i, 0int,
{
    let n = s.len();
    if i >= n {
        return None;
    }
    let c = s[i];
    if c == 'n' {
        if n - i > 3 && s[i + 1] == 'u' && s[i + 2] == 'l' && s[i + 3] == 'l' {
            Some((Json::Null, i + 4))
        } else {
            None
        }
    } else if c == 't' {
        if n - i > 3 && s[i + 1] == 'r' && s[i + 2] == 'u' && s[i + 3] == 'e' {
            Some((Json::Bool(true), i + 4))
        } else {
            None
        }
    } else if c == 'f' {
        if n - i > 4 && s[i + 1] == 'a' && s[i + 2] == 'l' && s[i + 3] == 's' && s[i + 4] == 'e' {
            Some((Json::Bool(false), i + 5))
        } else {
            None
        }
    } else if c == '"' {
        match p_str_body(s, i + 1) {
            Some((st, end)) => Some((Json::Str(st), end)),
            None => None,
        }
    } else if c == '-' || ('0' <= c && c <= '9') {
        match p_int(s, i) {
            Some((v, end)) => Some((Json::Int(v), end)),
            None => None,
        }
    } else if c == '[' {
        let k = ws_end(s, i + 1);
        if k < n && s[k] == ']' {
            let items: Vec<Json> = Vec::new();
            proof {
                assert(crate::json::seq_view(items@) =~= Seq::<JsonV>::empty());
            }
            Some((Json::Arr(items), k + 1))
        } else if k > i {
            match p_items(s, k) {
                Some((items, end)) => Some((Json::Arr(items), end)),
                None => None,
            }
        } else {
            None
        }
    } else if c == '{' {
        let k = ws_end(s, i + 1);
        if k < n && s[k] == '}' {
            let members: Vec<(String, Json)> = Vec::new();
            proof {
                assert(crate::json::members_view(members@) =~= Seq::<(Seq<char>, JsonV)>::empty());
            }
            Some((Json::Obj(members), k + 1))
        } else if k > i {
            match p_members(s, k) {
                Some((members, end)) => Some((Json::Obj(members), end)),
                None => None,
            }
        } else {
            None
        }
    } else {
        None
    }
}

/// One or more array elements and the closing bracket, executably.
fn p_items(s: &Vec<char>, i: usize) -> (r: Option<(Vec<Json>, usize)>)
    requires
        i <= s@.len(),
    ensures
        match r {
            Some(p) => sp_items(s@, i as int) == Some((crate::json::seq_view(p.0@), p.1 as int))
                && i < p.1 <= s@.len(),
            None => sp_items(s@, i as int) is None,
        },
    decreases s@.len() - i, 1int,
{
    let n = s.len();
    match p_value(s, i) {
        None => None,
        Some((v, e)) => {
            let k = ws_end(s, e);
            if k < n && s[k] == ',' {
                let k2 = ws_end(s, k + 1);
                if k2 > i {
                    match p_items(s, k2) {
                        Some((rest, end)) => {
                            let ghost restv = rest@;
                            let mut items = rest;
                            items.insert(0, v);
                            proof {
                                assert(crate::json::seq_view(items@) =~= seq![v@]
                                    + crate::json::seq_view(restv));
                            }
                            Some((items, end))
                        },
                        None => None,
                    }
                } else {
                    None
                }
            } else if k < n && s[k] == ']' {
                let mut items: Vec<Json> = Vec::new();
                items.push(v);
                proof {
                    assert(crate::json::seq_view(items@) =~= seq![v@]);
                }
                Some((items, k + 1))
            } else {
                None
            }
        },
    }
}

/// One or more object members and the closing brace, executably.
fn p_members(s: &Vec<char>, i: usize) -> (r: Option<(Vec<(String, Json)>, usize)>)
    requires
        i <= s@.len(),
    ensures
        match r {
            Some(p) => sp_members(s@, i as int) == Some(
                (crate::json::members_view(p.0@), p.1 as int),
            ) && i < p.1 <= s@.len(),
            None => sp_members(s@, i as int) is None,
        },
    decreases s@.len() - i, 1int,
{
    let n = s.len();
    if !(i < n) {
        return None;
    }
    if !(s[i] == '"') {
        return None;
    }
    match p_str_body(s, i + 1) {
        None => None,
        Some((key, e1)) => {
            let k = ws_end(s, e1);
            if k < n && s[k] == ':' {
                let k2 = ws_end(s, k + 1);
                match p_value(s, k2) {
                    None => None,
                    Some((v, e2)) => {
                        let k3 = ws_end(s, e2);
                        if k3 < n && s[k3] == ',' {
                            let k4 = ws_end(s, k3 + 1);
                            if k4 > i {
                                match p_members(s, k4) {
                                    Some((rest, end)) => {
                                        let ghost restv = rest@;
                                        let ghost keyv = key@;
                                        let ghost vv = v@;
                                        let mut members = rest;
                                        members.insert(0, (key, v));
                                        proof {
                                            assert(crate::json::members_view(members@) =~= seq![
                                                (keyv, vv),
                                            ] + crate::json::members_view(restv));
                                        }
                                        Some((members, end))
                                    },
                                    None => None,
                                }
                            } else {
                                None
                            }
                        } else if k3 < n && s[k3] == '}' {
                            let ghost keyv = key@;
                            let ghost vv = v@;
                            let mut members: Vec<(String, Json)> = Vec::new();
                            members.push((key, v));
                            proof {
                                assert(crate::json::members_view(members@) =~= seq![(keyv, vv)]);
                            }
                            Some((members, k3 + 1))
                        } else {
                            None
                        }
                    },
                }
            } else {
                None
            }
        },
    }
}

/// Parses a whole JSON text into a value; `None` exactly when the text is
/// not one JSON value of the model's grammar.
pub fn parse_json(s: &str) -> (r: Option<Json>)
    ensures
        match r {
            Some(j) => spec_parse_text(s@) == Some(j@),
            None => spec_parse_text(s@) is None,
        },
{
    let chars = str_to_chars(s);
    let j = ws_end(&chars, 0);
    match p_value(&chars, j) {
        Some((v, e)) => {
            let t = ws_end(&chars, e);
            if t == chars.len() {
                Some(v)
            } else {
                None
            }
        },
        None => None,
    }
}

/// The JSON value a whole text stands for: one value, possibly surrounded
/// by whitespace, with nothing after it.
pub open spec fn spec_parse_text(t: Seq<char>) -> Option<JsonV> {
    let j = skip_ws(t, 0);
    match sp_value(t, j) {
        Some((v, e)) => if 0 <= e <= t.len() && skip_ws(t, e) == t.len() {
            Some(v)
        } else {
            None
        },
        None => None,
    }
}

} // verus!
