//! A small JSON value model with a verified renderer and parser.
//!
//! `Json` is the executable tree; its mathematical view is `JsonV`, over
//! which all wire-format contracts in this crate are stated.  The model
//! covers exactly what the platform's schemas use: null, booleans, 64-bit
//! integers, strings, arrays and objects.  Object member order is kept;
//! when a key repeats, lookups return the first occurrence.

use vstd::prelude::*;

verus! {

/// The mathematical model of a JSON value.
#[verifier::ext_equal]
pub enum JsonV {
    Null,
    Bool(bool),
    Int(int),
    Str(Seq<char>),
    Arr(Seq<JsonV>),
    Obj(Seq<(Seq<char>, JsonV)>),
}

/// An executable JSON value.  Numbers are 64-bit integers: the schemas this
/// crate models carry only identifiers, sizes and counters, never fractions.
pub enum Json {
    Null,
    Bool(bool),
    Int(i64),
    Str(String),
    Arr(Vec<Json>),
    Obj(Vec<(String, Json)>),
}

/// The model of one object member: the key's characters and the value's model.
pub open spec fn member_view(m: (String, Json)) -> (Seq<char>, JsonV)
    decreases m, 0int,
{
    (m.0@, m.1@)
}

/// The models of a sequence of values.
pub open spec fn seq_view(items: Seq<Json>) -> Seq<JsonV>
    decreases items, 0int,
{
    Seq::new(
        items.len(),
        |i: int|
            if 0 <= i < items.len() {
                items[i]@
            } else {
                JsonV::Null
            },
    )
}

/// The models of a sequence of object members.
pub open spec fn members_view(members: Seq<(String, Json)>) -> Seq<(Seq<char>, JsonV)>
    decreases members, 0int,
{
    Seq::new(
        members.len(),
        |i: int|
            if 0 <= i < members.len() {
                member_view(members[i])
            } else {
                (Seq::empty(), JsonV::Null)
            },
    )
}

impl View for Json {
    type V = JsonV;

    open spec fn view(&self) -> JsonV
        decreases self, 1int,
    {
        match self {
            Json::Null => JsonV::Null,
            Json::Bool(b) => JsonV::Bool(*b),
            Json::Int(i) => JsonV::Int(*i as int),
            Json::Str(s) => JsonV::Str(s@),
            Json::Arr(items) => JsonV::Arr(seq_view(items@)),
            Json::Obj(members) => JsonV::Obj(members_view(members@)),
        }
    }
}

/// The value under `key` in `members`, first occurrence winning;
/// `None` when the key is absent.
pub open spec fn lookup_members(members: Seq<(Seq<char>, JsonV)>, key: Seq<char>) -> Option<JsonV>
    decreases members.len(),
{
    if members.len() == 0 {
        None
    } else if members[0].0 == key {
        Some(members[0].1)
    } else {
        lookup_members(members.drop_first(), key)
    }
}

/// The value under `key` when `v` is an object holding that key.
pub open spec fn lookup(v: JsonV, key: Seq<char>) -> Option<JsonV> {
    match v {
        JsonV::Obj(members) => lookup_members(members, key),
        _ => None,
    }
}

/// Whether `v` is an object that holds `key`.
pub open spec fn has_key(v: JsonV, key: Seq<char>) -> bool {
    lookup(v, key) is Some
}

/// Whether a model value can be carried by the executable tree: every
/// integer in it fits 64 signed bits.
pub open spec fn wf_wire(v: JsonV) -> bool
    decreases v,
{
    match v {
        JsonV::Null => true,
        JsonV::Bool(_) => true,
        JsonV::Int(x) => -0x8000000000000000 <= x <= 0x7fffffffffffffff,
        JsonV::Str(_) => true,
        JsonV::Arr(items) => forall|i: int| 0 <= i < items.len() ==> wf_wire(#[trigger] items[i]),
        JsonV::Obj(members) => forall|i: int|
            0 <= i < members.len() ==> wf_wire((#[trigger] members[i]).1),
    }
}

/// The model of every executable JSON value is well formed.
pub proof fn lemma_view_wf(j: Json)
    ensures
        wf_wire(j@),
    decreases j,
{
    match j {
        Json::Arr(items) => {
            let sv = seq_view(items@);
            assert forall|i: int| 0 <= i < sv.len() implies wf_wire(#[trigger] sv[i]) by {
                assert(decreases_to!(items => items@));
                assert(decreases_to!(items@ => items@[i]));
                lemma_view_wf(items@[i]);
                assert(sv[i] == items@[i]@);
            }
            assert(wf_wire(JsonV::Arr(sv)));
            assert(j@ == JsonV::Arr(sv));
        },
        Json::Obj(members) => {
            let mv = members_view(members@);
            assert forall|i: int| 0 <= i < mv.len() implies wf_wire((#[trigger] mv[i]).1) by {
                assert(decreases_to!(members => members@));
                assert(decreases_to!(members@ => members@[i]));
                assert(decreases_to!(members@[i] => members@[i].1));
                lemma_view_wf(members@[i].1);
                assert(mv[i] == member_view(members@[i]));
            }
            assert(wf_wire(JsonV::Obj(mv)));
            assert(j@ == JsonV::Obj(mv));
        },
        _ => {},
    }
}

/// Looking a key up past members that all carry other keys reaches the
/// members behind them.
pub proof fn lemma_lookup_concat_miss(
    a: Seq<(Seq<char>, JsonV)>,
    b: Seq<(Seq<char>, JsonV)>,
    key: Seq<char>,
)
    requires
        forall|i: int| 0 <= i < a.len() ==> (#[trigger] a[i]).0 != key,
    ensures
        lookup_members(a + b, key) == lookup_members(b, key),
    decreases a.len(),
{
    if a.len() == 0 {
        assert(a + b =~= b);
    } else {
        assert((a + b)[0] == a[0]);
        assert((a + b).drop_first() =~= a.drop_first() + b);
        lemma_lookup_concat_miss(a.drop_first(), b, key);
    }
}

/// A found value is the value of some member with that key.
pub proof fn lemma_lookup_in(members: Seq<(Seq<char>, JsonV)>, key: Seq<char>, v: JsonV)
    requires
        lookup_members(members, key) == Some(v),
    ensures
        exists|i: int| 0 <= i < members.len() && #[trigger] members[i] == (key, v),
    decreases members.len(),
{
    if members[0].0 == key {
        assert(members[0] == (key, v));
    } else {
        lemma_lookup_in(members.drop_first(), key, v);
        let i = choose|i: int|
            0 <= i < members.drop_first().len() && #[trigger] members.drop_first()[i] == (key, v);
        assert(members[i + 1] == (key, v));
    }
}

/// Why a decode failed: the text was not a JSON value of the model's
/// grammar, or the JSON value did not have the shape the schema requires;
/// the string names the field at fault.
#[derive(Debug)]
pub enum DecodeError {
    Syntax,
    Shape(String),
}

impl Json {
    /// The child value under `key` when this value is an object that
    /// holds that key, first occurrence winning.
    pub fn get<'a>(&'a self, key: &str) -> (r: Option<&'a Json>)
        ensures
            match r {
                Some(v) => lookup(self@, key@) == Some(v@),
                None => lookup(self@, key@) is None,
            },
    {
        match self {
            Json::Obj(members) => {
                let ghost mv = members_view(members@);
                proof {
                    assert(mv.skip(0) =~= mv);
                }
                let n = members.len();
                let mut i: usize = 0;
                while i < n
                    invariant
                        i <= n,
                        n == members@.len(),
                        mv == members_view(members@),
                        mv.len() == n,
                        forall|k: int|
                            0 <= k < n ==> #[trigger] mv[k] == member_view(members@[k]),
                        self@ == Json::Obj(*members)@,
                        lookup_members(mv, key@) == lookup_members(mv.skip(i as int), key@),
                    decreases n - i,
                {
                    if str_eq(members[i].0.as_str(), key) {
                        proof {
                            assert(mv.skip(i as int)[0] == mv[i as int]);
                            assert(lookup_members(mv.skip(i as int), key@) == Some(
                                members@[i as int].1@,
                            ));
                        }
                        return Some(&members[i].1);
                    }
                    proof {
                        assert(mv.skip(i as int)[0] == mv[i as int]);
                        assert(mv.skip(i as int).drop_first() =~= mv.skip(i + 1));
                    }
                    i = i + 1;
                }
                proof {
                    assert(mv.skip(n as int) =~= Seq::<(Seq<char>, JsonV)>::empty());
                }
                None
            },
            _ => None,
        }
    }
}

/// Relies on `String::push`: appends exactly the given character.
#[verifier::external_body]
pub(crate) fn push_char(s: &mut String, c: char)
    ensures
        final(s)@ == old(s)@.push(c),
{
    s.push(c);
}

/// Relies on `str`'s `PartialEq`: slices are equal exactly when their
/// character contents are equal.
#[verifier::external_body]
pub(crate) fn str_eq(a: &str, b: &str) -> (r: bool)
    ensures
        r == (a@ == b@),
{
    a == b
}

/// The character for one decimal digit.
pub open spec fn digit_char(d: int) -> char {
    (0x30 + d) as char
}

/// The character for one hexadecimal digit, lower case.
pub open spec fn hex_char(d: int) -> char {
    if d < 10 {
        (0x30 + d) as char
    } else {
        (0x57 + d) as char
    }
}

/// The decimal digits of `n`, most significant first, no leading zeros.
pub open spec fn dec_u(n: nat) -> Seq<char>
    decreases n,
{
    if n < 10 {
        seq![digit_char(n as int)]
    } else {
        dec_u(n / 10).push(digit_char((n % 10) as int))
    }
}

/// The decimal rendering of `i`, with a leading minus sign when negative.
pub open spec fn dec_i(i: int) -> Seq<char> {
    if i < 0 {
        seq!['-'] + dec_u((-i) as nat)
    } else {
        dec_u(i as nat)
    }
}

/// How one character appears inside a JSON string literal: quote, backslash
/// and the named control characters take two-character escapes, the other
/// control characters a `\u00..` escape, everything else stands as itself.
pub open spec fn esc_char(c: char) -> Seq<char> {
    if c == '"' {
        seq!['\\', '"']
    } else if c == '\\' {
        seq!['\\', '\\']
    } else if c == '\n' {
        seq!['\\', 'n']
    } else if c == '\r' {
        seq!['\\', 'r']
    } else if c == '\t' {
        seq!['\\', 't']
    } else if c == '\u{0008}' {
        seq!['\\', 'b']
    } else if c == '\u{000C}' {
        seq!['\\', 'f']
    } else if (c as int) < 0x20 {
        seq!['\\', 'u', '0', '0', hex_char(c as int / 16), hex_char(c as int % 16)]
    } else {
        seq![c]
    }
}

/// The body of a JSON string literal holding the characters of `s`.
pub open spec fn esc_str(s: Seq<char>) -> Seq<char>
    decreases s.len(),
{
    if s.len() == 0 {
        Seq::empty()
    } else {
        esc_str(s.drop_last()) + esc_char(s.last())
    }
}

/// The compact JSON text of a value: no whitespace, object members in
/// their stored order.
pub open spec fn render_spec(v: JsonV) -> Seq<char>
    decreases v, 1int,
{
    match v {
        JsonV::Null => "null"@,
        JsonV::Bool(b) => if b {
            "true"@
        } else {
            "false"@
        },
        JsonV::Int(i) => dec_i(i),
        JsonV::Str(s) => seq!['"'] + esc_str(s) + seq!['"'],
        JsonV::Arr(items) => seq!['['] + render_items(items, items.len() as int) + seq![']'],
        JsonV::Obj(members) => seq!['{'] + render_members(members, members.len() as int)
            + seq!['}'],
    }
}

/// The comma-separated JSON texts of the first `n` elements of `items`.
pub open spec fn render_items(items: Seq<JsonV>, n: int) -> Seq<char>
    decreases items, n,
{
    if 1 <= n <= items.len() {
        if n == 1 {
            render_spec(items[0])
        } else {
            render_items(items, n - 1) + seq![','] + render_spec(items[n - 1])
        }
    } else {
        Seq::empty()
    }
}

/// The JSON text of one object member: quoted key, colon, value.
pub open spec fn render_member(m: (Seq<char>, JsonV)) -> Seq<char>
    decreases m, 0int,
{
    seq!['"'] + esc_str(m.0) + seq!['"', ':'] + render_spec(m.1)
}

/// The comma-separated JSON texts of the first `n` members of `members`.
pub open spec fn render_members(members: Seq<(Seq<char>, JsonV)>, n: int) -> Seq<char>
    decreases members, n,
{
    if 1 <= n <= members.len() {
        if n == 1 {
            render_member(members[0])
        } else {
            render_members(members, n - 1) + seq![','] + render_member(members[n - 1])
        }
    } else {
        Seq::empty()
    }
}

/// The characters of a required string field, when the object holds one.
pub open spec fn str_of(v: JsonV, key: Seq<char>) -> Option<Seq<char>> {
    match lookup(v, key) {
        Some(JsonV::Str(s)) => Some(s),
        _ => None,
    }
}

/// The value of a required integer field, when the object holds one.
pub open spec fn int_of(v: JsonV, key: Seq<char>) -> Option<int> {
    match lookup(v, key) {
        Some(JsonV::Int(x)) => Some(x),
        _ => None,
    }
}

/// The value of a required boolean field, when the object holds one.
pub open spec fn bool_of(v: JsonV, key: Seq<char>) -> Option<bool> {
    match lookup(v, key) {
        Some(JsonV::Bool(b)) => Some(b),
        _ => None,
    }
}

/// Whether an optional string field is acceptable: absent, null, or a string.
pub open spec fn opt_str_ok(v: JsonV, key: Seq<char>) -> bool {
    match lookup(v, key) {
        None => true,
        Some(JsonV::Null) => true,
        Some(JsonV::Str(_)) => true,
        Some(_) => false,
    }
}

/// The characters of an optional string field, absent and null both
/// standing for no value.
pub open spec fn opt_str_of(v: JsonV, key: Seq<char>) -> Option<Seq<char>> {
    match lookup(v, key) {
        Some(JsonV::Str(s)) => Some(s),
        _ => None,
    }
}

/// Whether an optional integer field is acceptable: absent, null, or an
/// integer.
pub open spec fn opt_int_ok(v: JsonV, key: Seq<char>) -> bool {
    match lookup(v, key) {
        None => true,
        Some(JsonV::Null) => true,
        Some(JsonV::Int(_)) => true,
        Some(_) => false,
    }
}

/// The value of an optional integer field, absent and null both standing
/// for no value.
pub open spec fn opt_int_of(v: JsonV, key: Seq<char>) -> Option<int> {
    match lookup(v, key) {
        Some(JsonV::Int(x)) => Some(x),
        _ => None,
    }
}

/// An optional owned string seen as its optional characters.
pub open spec fn view_opt_str(o: Option<String>) -> Option<Seq<char>> {
    match o {
        Some(s) => Some(s@),
        None => None,
    }
}

/// An optional 64-bit integer seen as its optional value.
pub open spec fn view_opt_i64(o: Option<i64>) -> Option<int> {
    match o {
        Some(x) => Some(x as int),
        None => None,
    }
}

/// A required string field of an object.
pub fn get_str(j: &Json, key: &str) -> (r: Result<String, DecodeError>)
    ensures
        r matches Ok(s) ==> str_of(j@, key@) == Some(s@),
        r is Ok <==> str_of(j@, key@) is Some,
        r matches Err(e) ==> e is Shape,
{
    match j.get(key) {
        Some(Json::Str(s)) => Ok(s.clone()),
        _ => Err(DecodeError::Shape(String::from_str(key))),
    }
}

/// A required integer field of an object.
pub fn get_i64(j: &Json, key: &str) -> (r: Result<i64, DecodeError>)
    ensures
        r matches Ok(x) ==> int_of(j@, key@) == Some(x as int),
        r is Ok <==> int_of(j@, key@) is Some,
        r matches Err(e) ==> e is Shape,
{
    match j.get(key) {
        Some(Json::Int(x)) => Ok(*x),
        _ => Err(DecodeError::Shape(String::from_str(key))),
    }
}

/// A required boolean field of an object.
pub fn get_bool(j: &Json, key: &str) -> (r: Result<bool, DecodeError>)
    ensures
        r matches Ok(b) ==> bool_of(j@, key@) == Some(b),
        r is Ok <==> bool_of(j@, key@) is Some,
        r matches Err(e) ==> e is Shape,
{
    match j.get(key) {
        Some(Json::Bool(b)) => Ok(*b),
        _ => Err(DecodeError::Shape(String::from_str(key))),
    }
}

/// A required 32-bit count field of an object: an integer within the
/// 32-bit unsigned range.
pub fn get_u32(j: &Json, key: &str) -> (r: Result<u32, DecodeError>)
    ensures
        r matches Ok(x) ==> int_of(j@, key@) == Some(x as int),
        r is Ok <==> (int_of(j@, key@) matches Some(x) && 0 <= x <= u32::MAX),
        r matches Err(e) ==> e is Shape,
{
    match get_i64(j, key) {
        Ok(x) => {
            if 0 <= x && x <= 0xffffffffi64 {
                Ok(x as u32)
            } else {
                Err(DecodeError::Shape(String::from_str(key)))
            }
        },
        Err(e) => Err(e),
    }
}

/// An optional string field of an object: absent and null both stand for
/// no value; any other non-string value is a shape error.
pub fn get_opt_str(j: &Json, key: &str) -> (r: Result<Option<String>, DecodeError>)
    ensures
        r matches Ok(o) ==> view_opt_str(o) == opt_str_of(j@, key@),
        r is Ok <==> opt_str_ok(j@, key@),
        r matches Err(e) ==> e is Shape,
{
    match j.get(key) {
        None => Ok(None),
        Some(Json::Null) => Ok(None),
        Some(Json::Str(s)) => Ok(Some(s.clone())),
        Some(_) => Err(DecodeError::Shape(String::from_str(key))),
    }
}

/// An optional integer field of an object: absent and null both stand for
/// no value; any other non-integer value is a shape error.
pub fn get_opt_i64(j: &Json, key: &str) -> (r: Result<Option<i64>, DecodeError>)
    ensures
        r matches Ok(o) ==> view_opt_i64(o) == opt_int_of(j@, key@),
        r is Ok <==> opt_int_ok(j@, key@),
        r matches Err(e) ==> e is Shape,
{
    match j.get(key) {
        None => Ok(None),
        Some(Json::Null) => Ok(None),
        Some(Json::Int(x)) => Ok(Some(*x)),
        Some(_) => Err(DecodeError::Shape(String::from_str(key))),
    }
}

/// The characters of every string in a sequence of wire values, when all
/// of them are strings.
pub open spec fn str_arr_of(v: JsonV, key: Seq<char>) -> Option<Seq<Seq<char>>> {
    match lookup(v, key) {
        Some(JsonV::Arr(items)) => if forall|i: int| 0 <= i < items.len() ==> items[i] is Str {
            Some(
                Seq::new(
                    items.len(),
                    |i: int|
                        if 0 <= i < items.len() {
                            items[i]->Str_0
                        } else {
                            Seq::empty()
                        },
                ),
            )
        } else {
            None
        },
        _ => None,
    }
}

/// A sequence of owned strings seen as their characters.
pub open spec fn strs_view(v: Seq<String>) -> Seq<Seq<char>> {
    Seq::new(
        v.len(),
        |i: int|
            if 0 <= i < v.len() {
                v[i]@
            } else {
                Seq::empty()
            },
    )
}

/// A required field holding an array of strings.
pub fn get_str_arr(j: &Json, key: &str) -> (r: Result<Vec<String>, DecodeError>)
    ensures
        r matches Ok(vs) ==> str_arr_of(j@, key@) == Some(strs_view(vs@)),
        r is Ok <==> str_arr_of(j@, key@) is Some,
        r matches Err(e) ==> e is Shape,
{
    let got = j.get(key);
    match got {
        None => Err(DecodeError::Shape(String::from_str(key))),
        Some(Json::Arr(items)) => {
            let ghost iv = seq_view(items@);
            let n = items.len();
            let mut out: Vec<String> = Vec::new();
            let mut i: usize = 0;
            while i < n
                invariant
                    i <= n,
                    n == items@.len(),
                    iv == seq_view(items@),
                    iv.len() == n,
                    lookup(j@, key@) == Some(JsonV::Arr(iv)),
                    forall|k: int| 0 <= k < n ==> #[trigger] iv[k] == items@[k]@,
                    forall|k: int| 0 <= k < i ==> (#[trigger] iv[k]) is Str,
                    strs_view(out@).len() == i,
                    forall|k: int| 0 <= k < i ==> #[trigger] strs_view(out@)[k] == iv[k]->Str_0,
                decreases n - i,
            {
                match &items[i] {
                    Json::Str(st) => {
                        let c = st.clone();
                        proof {
                            assert(c@ == iv[i as int]->Str_0);
                            assert(strs_view(out@).len() == out@.len());
                        }
                        let ghost oldout = out@;
                        out.push(c);
                        proof {
                            assert(out@.len() == oldout.len() + 1);
                            assert(strs_view(out@).len() == out@.len());
                            assert(forall|k: int|
                                0 <= k < oldout.len() ==> out@[k] == #[trigger] oldout[k]);
                            assert(forall|k: int|
                                0 <= k < oldout.len() ==> #[trigger] strs_view(out@)[k]
                                    == strs_view(oldout)[k]);
                            assert(strs_view(out@)[i as int] == iv[i as int]->Str_0);
                        }
                    },
                    _ => {
                        proof {
                            assert(!(iv[i as int] is Str));
                            assert(exists|k: int| (0 <= k && k < iv.len() && !(#[trigger] iv[k] is Str))) by {
                                assert(0 <= (i as int) && (i as int) < iv.len() && !(iv[i as int] is Str));
                            }
                            assert(str_arr_of(j@, key@) is None);
                        }
                        return Err(DecodeError::Shape(String::from_str(key)));
                    },
                }
                i = i + 1;
            }
            proof {
                assert(str_arr_of(j@, key@) matches Some(q) && q =~= strs_view(out@));
            }
            Ok(out)
        },
        Some(v) => {
            proof {
                assert(!(v@ is Arr));
            }
            Err(DecodeError::Shape(String::from_str(key)))
        },
    }
}

/// The members contributed by one optional field: one member when the
/// field is set, none at all otherwise (never a null).
pub open spec fn opt_member(key: Seq<char>, v: Option<JsonV>) -> Seq<(Seq<char>, JsonV)> {
    match v {
        Some(x) => seq![(key, x)],
        None => Seq::empty(),
    }
}

/// An optional string field as an optional JSON string.
pub open spec fn opt_str_view(v: Option<String>) -> Option<JsonV> {
    match v {
        Some(s) => Some(JsonV::Str(s@)),
        None => None,
    }
}

/// An optional boolean field as an optional JSON boolean.
pub open spec fn opt_bool_view(v: Option<bool>) -> Option<JsonV> {
    match v {
        Some(b) => Some(JsonV::Bool(b)),
        None => None,
    }
}

/// An optional 32-bit count as an optional JSON integer.
pub open spec fn opt_u32_view(v: Option<u32>) -> Option<JsonV> {
    match v {
        Some(x) => Some(JsonV::Int(x as int)),
        None => None,
    }
}

/// The models of a sequence of plain strings.
pub open spec fn str_seq_view(v: Seq<String>) -> Seq<JsonV> {
    Seq::new(
        v.len(),
        |i: int|
            if 0 <= i < v.len() {
                JsonV::Str(v[i]@)
            } else {
                JsonV::Null
            },
    )
}

/// Appends one object member.
pub fn push_member(m: &mut Vec<(String, Json)>, key: &str, v: Json)
    ensures
        members_view(final(m)@) == members_view(old(m)@) + seq![(key@, v@)],
{
    let ghost oldm = m@;
    let ghost vv = v@;
    m.push((String::from_str(key), v));
    proof {
        assert(members_view(m@) =~= members_view(oldm) + seq![(key@, vv)]);
    }
}

/// Appends one string member.
pub fn push_str_member(m: &mut Vec<(String, Json)>, key: &str, v: &String)
    ensures
        members_view(final(m)@) == members_view(old(m)@) + seq![(key@, JsonV::Str(v@))],
{
    push_member(m, key, Json::Str(v.clone()));
}

/// Appends the member of an optional string field, or nothing.
pub fn push_opt_str(m: &mut Vec<(String, Json)>, key: &str, v: &Option<String>)
    ensures
        members_view(final(m)@) == members_view(old(m)@) + opt_member(key@, opt_str_view(*v)),
{
    match v {
        Some(s) => {
            push_member(m, key, Json::Str(s.clone()));
        },
        None => {
            proof {
                assert(members_view(m@) =~= members_view(m@) + opt_member(
                    key@,
                    opt_str_view(*v),
                ));
            }
        },
    }
}

/// Appends the member of an optional boolean field, or nothing.
pub fn push_opt_bool(m: &mut Vec<(String, Json)>, key: &str, v: &Option<bool>)
    ensures
        members_view(final(m)@) == members_view(old(m)@) + opt_member(key@, opt_bool_view(*v)),
{
    match v {
        Some(b) => {
            push_member(m, key, Json::Bool(*b));
        },
        None => {
            proof {
                assert(members_view(m@) =~= members_view(m@) + opt_member(
                    key@,
                    opt_bool_view(*v),
                ));
            }
        },
    }
}

/// Appends the member of an optional 32-bit count field, or nothing.
pub fn push_opt_u32(m: &mut Vec<(String, Json)>, key: &str, v: &Option<u32>)
    ensures
        members_view(final(m)@) == members_view(old(m)@) + opt_member(key@, opt_u32_view(*v)),
{
    match v {
        Some(x) => {
            push_member(m, key, Json::Int(*x as i64));
        },
        None => {
            proof {
                assert(members_view(m@) =~= members_view(m@) + opt_member(
                    key@,
                    opt_u32_view(*v),
                ));
            }
        },
    }
}

/// A vector of plain strings as a JSON array value.
pub fn strings_to_json(v: &Vec<String>) -> (r: Json)
    ensures
        r@ == JsonV::Arr(str_seq_view(v@)),
{
    let n = v.len();
    let mut items: Vec<Json> = Vec::new();
    let mut i: usize = 0;
    while i < n
        invariant
            i <= n,
            n == v@.len(),
            seq_view(items@) =~= str_seq_view(v@).take(i as int),
        decreases n - i,
    {
        let ghost olditems = items@;
        let c = v[i].clone();
        proof {
            assert(c@ == v@[i as int]@);
        }
        let jc = Json::Str(c);
        proof {
            assert(jc@ == JsonV::Str(v@[i as int]@));
        }
        items.push(jc);
        proof {
            assert(seq_view(olditems).len() == olditems.len());
            assert(olditems.len() == i as int);
            assert(items@[i as int]@ == JsonV::Str(v@[i as int]@));
            assert(seq_view(items@) =~= str_seq_view(v@).take(i + 1));
        }
        i = i + 1;
    }
    proof {
        assert(str_seq_view(v@).take(n as int) =~= str_seq_view(v@));
    }
    Json::Arr(items)
}

/// One decimal digit as a character.
fn digit_ch(d: u8) -> (c: char)
    requires
        d < 10,
    ensures
        c == digit_char(d as int),
{
    (0x30u8 + d) as char
}

/// One hexadecimal digit as a lower-case character.
fn hex_ch(d: u8) -> (c: char)
    requires
        d < 16,
    ensures
        c == hex_char(d as int),
{
    if d < 10 {
        (0x30u8 + d) as char
    } else {
        (0x57u8 + d) as char
    }
}

/// Appends the decimal digits of `n`.
fn push_u64(n: u64, out: &mut String)
    ensures
        final(out)@ == old(out)@ + dec_u(n as nat),
    decreases n,
{
    if n < 10 {
        push_char(out, digit_ch(n as u8));
        assert(final(out)@ =~= old(out)@ + dec_u(n as nat));
    } else {
        push_u64(n / 10, out);
        push_char(out, digit_ch((n % 10) as u8));
        assert(final(out)@ =~= old(out)@ + dec_u(n as nat));
    }
}

/// Appends the decimal rendering of `i`.
fn push_i64(i: i64, out: &mut String)
    ensures
        final(out)@ == old(out)@ + dec_i(i as int),
{
    if i < 0 {
        push_char(out, '-');
        let m: u64 = if i == i64::MIN {
            9223372036854775808u64
        } else {
            (-i) as u64
        };
        proof {
            assert(m as nat == (-(i as int)) as nat);
        }
        push_u64(m, out);
        assert(final(out)@ =~= old(out)@ + dec_i(i as int));
    } else {
        push_u64(i as u64, out);
    }
}

/// Appends the escaped body of a JSON string literal holding `s`.
fn push_esc(s: &str, out: &mut String)
    ensures
        final(out)@ == old(out)@ + esc_str(s@),
{
    let n = s.unicode_len();
    let mut i: usize = 0;
    while i < n
        invariant
            i <= n,
            n == s@.len(),
            out@ == old(out)@ + esc_str(s@.take(i as int)),
        decreases n - i,
    {
        let c = s.get_char(i);
        if c == '"' {
            push_char(out, '\\');
            push_char(out, '"');
        } else if c == '\\' {
            push_char(out, '\\');
            push_char(out, '\\');
        } else if c == '\n' {
            push_char(out, '\\');
            push_char(out, 'n');
        } else if c == '\r' {
            push_char(out, '\\');
            push_char(out, 'r');
        } else if c == '\t' {
            push_char(out, '\\');
            push_char(out, 't');
        } else if c == '\u{0008}' {
            push_char(out, '\\');
            push_char(out, 'b');
        } else if c == '\u{000C}' {
            push_char(out, '\\');
            push_char(out, 'f');
        } else {
            let v: u32 = c as u32;
            if v < 0x20 {
                push_char(out, '\\');
                push_char(out, 'u');
                push_char(out, '0');
                push_char(out, '0');
                push_char(out, hex_ch((v / 16) as u8));
                push_char(out, hex_ch((v % 16) as u8));
            } else {
                push_char(out, c);
            }
        }
        proof {
            assert(s@.take(i + 1).drop_last() =~= s@.take(i as int));
            assert(s@.take(i + 1).last() == s@[i as int]);
            assert(out@ =~= old(out)@ + esc_str(s@.take(i + 1)));
        }
        i = i + 1;
    }
    proof {
        assert(s@.take(n as int) =~= s@);
    }
}

/// Appends the compact JSON text of `j`.
fn render_into(j: &Json, out: &mut String)
    ensures
        final(out)@ == old(out)@ + render_spec(j@),
    decreases j,
{
    match j {
        Json::Null => {
            out.append("null");
        },
        Json::Bool(b) => {
            if *b {
                out.append("true");
            } else {
                out.append("false");
            }
        },
        Json::Int(i) => {
            push_i64(*i, out);
        },
        Json::Str(s) => {
            push_char(out, '"');
            push_esc(s.as_str(), out);
            push_char(out, '"');
            assert(final(out)@ =~= old(out)@ + render_spec(j@));
        },
        Json::Arr(items) => {
            let ghost sv = j@->Arr_0;
            proof {
                assert(forall|k: int| 0 <= k < items@.len() ==> sv[k] == #[trigger] items@[k]@);
            }
            push_char(out, '[');
            let n = items.len();
            let mut i: usize = 0;
            while i < n
                invariant
                    i <= n,
                    n == items@.len(),
                    sv == j@->Arr_0,
                    *j == Json::Arr(*items),
                    sv.len() == n,
                    forall|k: int| 0 <= k < n ==> sv[k] == #[trigger] items@[k]@,
                    out@ == old(out)@ + seq!['['] + render_items(sv, i as int),
                decreases n - i,
            {
                if i > 0 {
                    push_char(out, ',');
                }
                proof {
                    assert(decreases_to!(*items => items@));
                    assert(decreases_to!(items@ => items@[i as int]));
                }
                render_into(&items[i], out);
                proof {
                    assert(out@ =~= old(out)@ + seq!['['] + render_items(sv, i + 1));
                }
                i = i + 1;
            }
            push_char(out, ']');
            assert(final(out)@ =~= old(out)@ + render_spec(j@));
        },
        Json::Obj(members) => {
            let ghost mv = j@->Obj_0;
            proof {
                assert(forall|k: int|
                    0 <= k < members@.len() ==> #[trigger] mv[k] == member_view(members@[k]));
            }
            push_char(out, '{');
            let n = members.len();
            let mut i: usize = 0;
            while i < n
                invariant
                    i <= n,
                    n == members@.len(),
                    mv == j@->Obj_0,
                    *j == Json::Obj(*members),
                    mv.len() == n,
                    forall|k: int| 0 <= k < n ==> #[trigger] mv[k] == member_view(members@[k]),
                    out@ == old(out)@ + seq!['{'] + render_members(mv, i as int),
                decreases n - i,
            {
                if i > 0 {
                    push_char(out, ',');
                }
                push_char(out, '"');
                push_esc(members[i].0.as_str(), out);
                push_char(out, '"');
                push_char(out, ':');
                proof {
                    assert(decreases_to!(*members => members@));
                    assert(decreases_to!(members@ => members@[i as int]));
                    assert(decreases_to!(members@[i as int] => members@[i as int].1));
                }
                render_into(&members[i].1, out);
                proof {
                    let ghost m = mv[i as int];
                    assert(m == member_view(members@[i as int]));
                    assert(m.0 == members@[i as int].0@);
                    assert(m.1 == members@[i as int].1@);
                    assert(render_member(m) == seq!['"'] + esc_str(m.0) + seq!['"', ':']
                        + render_spec(m.1));
                    assert(out@ =~= old(out)@ + seq!['{'] + render_members(mv, i + 1));
                }
                i = i + 1;
            }
            push_char(out, '}');
            assert(final(out)@ =~= old(out)@ + render_spec(j@));
        },
    }
}

/// The compact JSON text of `j`.
pub fn render(j: &Json) -> (r: String)
    ensures
        r@ == render_spec(j@),
{
    let mut out = String::new();
    render_into(j, &mut out);
    out
}

} // verus!
