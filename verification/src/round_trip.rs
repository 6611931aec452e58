//! The codec's round-trip law: the compact JSON text of any well-formed
//! value parses back to exactly that value.
//!
//! The proof walks the renderer's output with the parser's grammar, one
//! construct at a time: decimal runs, escaped strings, then values,
//! array elements and object members by mutual induction.

use vstd::prelude::*;

use crate::json::{
    dec_i, dec_u, digit_char, esc_char, esc_str, hex_char, lemma_view_wf, render_items,
    render_member, render_members, render_spec, wf_wire, Json, JsonV,
};
use crate::notification::{description_shape, lemma_description_wire_decodes, Description};
use crate::parse::{
    digit_val, digits_end, digits_val, hex_val, is_digit, is_hex, is_ws, short_escape, skip_ws,
    sp_int, sp_items, sp_members, sp_str_body, sp_value, spec_parse_text,
};

verus! {

/// Every character is a Unicode scalar value: its code lies below
/// 0x110000 and outside the surrogate range.
proof fn lemma_char_bound(c: char)
    ensures
        0 <= c as int <= 0x10FFFF,
        !(0xD800 <= c as int && (c as int) < 0xE000),
{
}

/// Every character of a rendered unsigned decimal is a digit, there is at
/// least one, and only the number zero starts with a zero digit.
proof fn lemma_dec_u_chars(n: nat)
    ensures
        dec_u(n).len() >= 1,
        forall|k: int| 0 <= k < dec_u(n).len() ==> is_digit(#[trigger] dec_u(n)[k]),
        n > 0 ==> dec_u(n)[0] != '0',
        n == 0 ==> dec_u(n) == seq!['0'],
    decreases n,
{
    if n < 10 {
        assert(dec_u(n) == seq![digit_char(n as int)]);
        assert(digit_char(n as int) as int == 0x30 + n);
    } else {
        lemma_dec_u_chars(n / 10);
        assert(dec_u(n) == dec_u(n / 10).push(digit_char((n % 10) as int)));
        assert(digit_char((n % 10) as int) as int == 0x30 + n % 10);
        assert forall|k: int| 0 <= k < dec_u(n).len() implies is_digit(#[trigger] dec_u(n)[k]) by {
            if k < dec_u(n / 10).len() {
                assert(dec_u(n)[k] == dec_u(n / 10)[k]);
            } else {
                assert(dec_u(n)[k] == digit_char((n % 10) as int));
            }
        }
        assert(dec_u(n)[0] == dec_u(n / 10)[0]);
    }
}

/// The first position past an all-digit run that a non-digit follows.
proof fn lemma_digits_end_exact(s: Seq<char>, i: int, e: int)
    requires
        0 <= i <= e <= s.len(),
        forall|k: int| i <= k < e ==> is_digit(#[trigger] s[k]),
        e == s.len() || !is_digit(s[e]),
    ensures
        digits_end(s, i) == e,
    decreases e - i,
{
    if i < e {
        lemma_digits_end_exact(s, i + 1, e);
    }
}

/// A rendered unsigned decimal standing in a text reads back as its value.
proof fn lemma_digits_val_of_dec(s: Seq<char>, i: int, n: nat)
    requires
        0 <= i,
        i + dec_u(n).len() <= s.len(),
        s.subrange(i, i + dec_u(n).len() as int) == dec_u(n),
    ensures
        digits_val(s, i, i + dec_u(n).len() as int) == n,
    decreases n,
{
    let e = i + dec_u(n).len() as int;
    if n < 10 {
        assert(dec_u(n) == seq![digit_char(n as int)]);
        assert(s.subrange(i, e)[0] == s[i]);
        assert(s[i] == digit_char(n as int));
        assert(digit_char(n as int) as int == 0x30 + n);
        assert(digit_val(s[i]) == n);
        assert(digits_val(s, i, e) == digits_val(s, i, i) * 10 + digit_val(s[e - 1]));
    } else {
        assert(dec_u(n) == dec_u(n / 10).push(digit_char((n % 10) as int)));
        assert forall|k: int| 0 <= k < dec_u(n / 10).len() implies #[trigger] s.subrange(
            i,
            e - 1,
        )[k] == dec_u(n / 10)[k] by {
            assert(s.subrange(i, e)[k] == s[i + k]);
            assert(dec_u(n)[k] == dec_u(n / 10)[k]);
        }
        assert(s.subrange(i, e - 1) =~= dec_u(n / 10));
        lemma_digits_val_of_dec(s, i, n / 10);
        assert(s.subrange(i, e)[e - 1 - i] == s[e - 1]);
        assert(s[e - 1] == digit_char((n % 10) as int));
        assert(digit_char((n % 10) as int) as int == 0x30 + n % 10);
        assert(digits_val(s, i, e) == digits_val(s, i, e - 1) * 10 + digit_val(s[e - 1]));
    }
}

/// A rendered integer standing in a text, with no digit after it, parses
/// back as its value.
proof fn lemma_parse_int(s: Seq<char>, i: int, x: int)
    requires
        -0x8000000000000000 <= x <= 0x7fffffffffffffff,
        0 <= i,
        i + dec_i(x).len() <= s.len(),
        s.subrange(i, i + dec_i(x).len() as int) == dec_i(x),
        i + dec_i(x).len() == s.len() || !is_digit(s[i + dec_i(x).len() as int]),
    ensures
        sp_int(s, i) == Some((x, i + dec_i(x).len() as int)),
{
    let e = i + dec_i(x).len() as int;
    if x < 0 {
        let m = (-x) as nat;
        assert(dec_i(x) == seq!['-'] + dec_u(m));
        lemma_dec_u_chars(m);
        assert(s.subrange(i, e)[0] == s[i]);
        assert(s[i] == '-');
        let d0 = i + 1;
        assert forall|k: int| 0 <= k < dec_u(m).len() implies #[trigger] s.subrange(
            d0,
            e,
        )[k] == dec_u(m)[k] by {
            assert(s.subrange(i, e)[k + 1] == s[i + 1 + k]);
            assert(dec_i(x)[k + 1] == dec_u(m)[k]);
        }
        assert(s.subrange(d0, e) =~= dec_u(m));
        assert forall|k: int| d0 <= k < e implies is_digit(#[trigger] s[k]) by {
            assert(s.subrange(d0, e)[k - d0] == s[k]);
        }
        lemma_digits_end_exact(s, d0, e);
        lemma_digits_val_of_dec(s, d0, m);
        assert(s[d0] == dec_u(m)[0]);
        assert(is_digit(s[d0]));
        assert(m > 0 ==> s[d0] != '0');
    } else {
        let m = x as nat;
        assert(dec_i(x) == dec_u(m));
        lemma_dec_u_chars(m);
        assert forall|k: int| i <= k < e implies is_digit(#[trigger] s[k]) by {
            assert(s.subrange(i, e)[k - i] == s[k]);
        }
        lemma_digits_end_exact(s, i, e);
        lemma_digits_val_of_dec(s, i, m);
        assert(s[i] == dec_u(m)[0]);
        assert(is_digit(s[i]));
        assert(s[i] != '-');
        assert(m > 0 ==> s[i] != '0');
        assert(m == 0 ==> e == i + 1);
    }
}

/// The escaped body of a string unfolds from the left as well: first the
/// first character's escape, then the rest.
proof fn lemma_esc_str_left(cs: Seq<char>)
    requires
        cs.len() > 0,
    ensures
        esc_str(cs) == esc_char(cs[0]) + esc_str(cs.drop_first()),
    decreases cs.len(),
{
    if cs.len() == 1 {
        assert(cs.drop_last() =~= Seq::<char>::empty());
        assert(cs.drop_first() =~= Seq::<char>::empty());
        assert(esc_str(cs) =~= esc_char(cs[0]) + esc_str(cs.drop_first()));
    } else {
        let dl = cs.drop_last();
        lemma_esc_str_left(dl);
        assert(dl[0] == cs[0]);
        assert(dl.drop_first() =~= cs.drop_first().drop_last());
        assert(cs.drop_first().last() == cs.last());
        assert(cs.drop_first().len() > 0);
        assert(esc_str(cs.drop_first()) == esc_str(cs.drop_first().drop_last()) + esc_char(
            cs.drop_first().last(),
        ));
        assert(esc_str(cs) == esc_str(dl) + esc_char(cs.last()));
        assert(esc_str(cs) =~= esc_char(cs[0]) + esc_str(cs.drop_first()));
    }
}

/// A rendered string body standing in a text, with the closing quote right
/// after it, parses back as the string's characters.
proof fn lemma_parse_str_body(s: Seq<char>, p: int, cs: Seq<char>)
    requires
        0 <= p,
        p + esc_str(cs).len() < s.len(),
        s.subrange(p, p + esc_str(cs).len() as int) == esc_str(cs),
        s[p + esc_str(cs).len() as int] == '"',
    ensures
        sp_str_body(s, p) == Some((cs, p + esc_str(cs).len() + 1)),
    decreases cs.len(),
{
    let e = p + esc_str(cs).len() as int;
    if cs.len() == 0 {
        assert(esc_str(cs) =~= Seq::<char>::empty());
        assert(sp_str_body(s, p) == Some((Seq::<char>::empty(), p + 1)));
        assert(cs =~= Seq::<char>::empty());
    } else {
        lemma_esc_str_left(cs);
        let c0 = cs[0];
        let ec = esc_char(c0);
        let el = ec.len() as int;
        let rest = cs.drop_first();
        assert(esc_str(cs) == ec + esc_str(rest));
        assert(esc_str(cs).len() == el + esc_str(rest).len());
        assert forall|k: int| 0 <= k < el implies s[p + k] == #[trigger] ec[k] by {
            assert(s.subrange(p, e)[k] == s[p + k]);
            assert(esc_str(cs)[k] == ec[k]);
        }
        let p2 = p + el;
        assert forall|k: int| 0 <= k < esc_str(rest).len() implies #[trigger] s.subrange(
            p2,
            e,
        )[k] == esc_str(rest)[k] by {
            assert(s.subrange(p, e)[el + k] == s[p + el + k]);
            assert(esc_str(cs)[el + k] == esc_str(rest)[k]);
        }
        assert(s.subrange(p2, e) =~= esc_str(rest));
        lemma_parse_str_body(s, p2, rest);
        assert(seq![c0] + rest =~= cs);
        if c0 == '"' {
            assert(s[p] == '\\' && s[p + 1] == '"');
            assert(short_escape(s[p + 1]) == Some('"'));
        } else if c0 == '\\' {
            assert(s[p] == '\\' && s[p + 1] == '\\');
            assert(short_escape(s[p + 1]) == Some('\\'));
        } else if c0 == '\n' {
            assert(s[p] == '\\' && s[p + 1] == 'n');
            assert(short_escape(s[p + 1]) == Some('\n'));
        } else if c0 == '\r' {
            assert(s[p] == '\\' && s[p + 1] == 'r');
            assert(short_escape(s[p + 1]) == Some('\r'));
        } else if c0 == '\t' {
            assert(s[p] == '\\' && s[p + 1] == 't');
            assert(short_escape(s[p + 1]) == Some('\t'));
        } else if c0 == '\u{0008}' {
            assert(s[p] == '\\' && s[p + 1] == 'b');
            assert(short_escape(s[p + 1]) == Some('\u{0008}'));
        } else if c0 == '\u{000C}' {
            assert(s[p] == '\\' && s[p + 1] == 'f');
            assert(short_escape(s[p + 1]) == Some('\u{000C}'));
        } else if (c0 as int) < 0x20 {
            lemma_char_bound(c0);
            let hi = c0 as int / 16;
            let lo = c0 as int % 16;
            assert(s[p] == '\\' && s[p + 1] == 'u' && s[p + 2] == '0' && s[p + 3] == '0');
            assert(s[p + 4] == hex_char(hi) && s[p + 5] == hex_char(lo));
            assert(hex_char(hi) as int == 0x30 + hi);
            assert(is_hex(s[p + 2]) && hex_val(s[p + 2]) == 0);
            assert(is_hex(s[p + 3]) && hex_val(s[p + 3]) == 0);
            assert(is_hex(s[p + 4]) && hex_val(s[p + 4]) == hi);
            if lo < 10 {
                assert(hex_char(lo) as int == 0x30 + lo);
            } else {
                assert(hex_char(lo) as int == 0x57 + lo);
            }
            assert(is_hex(s[p + 5]) && hex_val(s[p + 5]) == lo);
            let code = hex_val(s[p + 2]) * 4096 + hex_val(s[p + 3]) * 256 + hex_val(s[p + 4]) * 16
                + hex_val(s[p + 5]);
            assert(code == c0 as int);
            assert(code < 0xD800);
            assert(((code as int) as char) == c0);
        } else {
            assert(ec == seq![c0]);
            assert(s[p] == c0);
            assert(c0 != '"' && c0 != '\\');
            assert(!((c0 as int) < 0x20));
        }
        assert(sp_str_body(s, p) == Some((seq![c0] + rest, e + 1)));
    }
}

/// A rendered value is never empty, and its first character is neither
/// whitespace nor one of the delimiters that may follow a value.
proof fn lemma_render_first(v: JsonV)
    ensures
        render_spec(v).len() >= 1,
        !is_ws(render_spec(v)[0]),
        render_spec(v)[0] != ',',
        render_spec(v)[0] != ']',
        render_spec(v)[0] != '}',
        render_spec(v)[0] != ':',
        !is_digit(render_spec(v)[0]) || v is Int,
{
    match v {
        JsonV::Null => {
            reveal_strlit("null");
            assert(render_spec(v)[0] == 'n');
        },
        JsonV::Bool(b) => {
            if b {
                reveal_strlit("true");
                assert(render_spec(v)[0] == 't');
            } else {
                reveal_strlit("false");
                assert(render_spec(v)[0] == 'f');
            }
        },
        JsonV::Int(x) => {
            if x < 0 {
                assert(render_spec(v)[0] == '-');
            } else {
                lemma_dec_u_chars(x as nat);
                assert(render_spec(v)[0] == dec_u(x as nat)[0]);
                assert(is_digit(render_spec(v)[0]));
            }
        },
        JsonV::Str(_) => {
            assert(render_spec(v)[0] == '"');
        },
        JsonV::Arr(_) => {
            assert(render_spec(v)[0] == '[');
        },
        JsonV::Obj(_) => {
            assert(render_spec(v)[0] == '{');
        },
    }
}

/// The rendering of the first `n` elements unfolds from the left: the
/// first element's text, then a comma and the remaining elements.
proof fn lemma_items_split(items: Seq<JsonV>, n: int)
    requires
        1 <= n <= items.len(),
    ensures
        render_items(items, n) == render_spec(items[0]) + (if n == 1 {
            Seq::<char>::empty()
        } else {
            seq![','] + render_items(items.drop_first(), n - 1)
        }),
    decreases n,
{
    if n == 1 {
        assert(render_items(items, n) =~= render_spec(items[0]) + Seq::<char>::empty());
    } else {
        lemma_items_split(items, n - 1);
        let df = items.drop_first();
        assert(df[n - 2] == items[n - 1]);
        if n == 2 {
            assert(render_items(df, 1) == render_spec(df[0]));
            assert(df[0] == items[1]);
            assert(render_items(items, 2) == render_items(items, 1) + seq![','] + render_spec(
                items[1],
            ));
            assert(render_items(items, 2) =~= render_spec(items[0]) + (seq![','] + render_items(
                df,
                1,
            )));
        } else {
            assert(render_items(df, n - 1) == render_items(df, n - 2) + seq![','] + render_spec(
                df[n - 2],
            ));
            assert(render_items(items, n) == render_items(items, n - 1) + seq![','] + render_spec(
                items[n - 1],
            ));
            assert(render_items(items, n) =~= render_spec(items[0]) + (seq![','] + render_items(
                df,
                n - 1,
            )));
        }
    }
}

/// The rendering of the first `n` members unfolds from the left: the first
/// member's text, then a comma and the remaining members.
proof fn lemma_members_split(members: Seq<(Seq<char>, JsonV)>, n: int)
    requires
        1 <= n <= members.len(),
    ensures
        render_members(members, n) == render_member(members[0]) + (if n == 1 {
            Seq::<char>::empty()
        } else {
            seq![','] + render_members(members.drop_first(), n - 1)
        }),
    decreases n,
{
    if n == 1 {
        assert(render_members(members, n) =~= render_member(members[0]) + Seq::<char>::empty());
    } else {
        lemma_members_split(members, n - 1);
        let df = members.drop_first();
        assert(df[n - 2] == members[n - 1]);
        if n == 2 {
            assert(render_members(df, 1) == render_member(df[0]));
            assert(df[0] == members[1]);
            assert(render_members(members, 2) == render_members(members, 1) + seq![',']
                + render_member(members[1]));
            assert(render_members(members, 2) =~= render_member(members[0]) + (seq![',']
                + render_members(df, 1)));
        } else {
            assert(render_members(df, n - 1) == render_members(df, n - 2) + seq![',']
                + render_member(df[n - 2]));
            assert(render_members(members, n) == render_members(members, n - 1) + seq![',']
                + render_member(members[n - 1]));
            assert(render_members(members, n) =~= render_member(members[0]) + (seq![',']
                + render_members(df, n - 1)));
        }
    }
}

/// The character of a known region of the text, by its offset.
proof fn lemma_char_at(s: Seq<char>, i: int, t: Seq<char>, k: int)
    requires
        0 <= i,
        0 <= k < t.len(),
        i + t.len() <= s.len(),
        s.subrange(i, i + t.len() as int) == t,
    ensures
        s[i + k] == t[k],
{
    assert(s.subrange(i, i + t.len() as int)[k] == s[i + k]);
}

/// A rendered well-formed value standing in a text, with no digit right
/// after it, parses back as exactly that value.
proof fn lemma_parse_render_value(s: Seq<char>, i: int, v: JsonV)
    requires
        wf_wire(v),
        0 <= i,
        i + render_spec(v).len() <= s.len(),
        s.subrange(i, i + render_spec(v).len() as int) == render_spec(v),
        i + render_spec(v).len() == s.len() || !is_digit(s[i + render_spec(v).len() as int]),
    ensures
        sp_value(s, i) == Some((v, i + render_spec(v).len() as int)),
    decreases v, 0int,
{
    let t = render_spec(v);
    let e = i + t.len() as int;
    match v {
        JsonV::Null => {
            reveal_strlit("null");
            assert(t.len() == 4);
            lemma_char_at(s, i, t, 0);
            lemma_char_at(s, i, t, 1);
            lemma_char_at(s, i, t, 2);
            lemma_char_at(s, i, t, 3);
            assert(s[i] == 'n' && s[i + 1] == 'u' && s[i + 2] == 'l' && s[i + 3] == 'l');
        },
        JsonV::Bool(b) => {
            if b {
                reveal_strlit("true");
                assert(t.len() == 4);
                lemma_char_at(s, i, t, 0);
                lemma_char_at(s, i, t, 1);
                lemma_char_at(s, i, t, 2);
                lemma_char_at(s, i, t, 3);
                assert(s[i] == 't' && s[i + 1] == 'r' && s[i + 2] == 'u' && s[i + 3] == 'e');
            } else {
                reveal_strlit("false");
                assert(t.len() == 5);
                lemma_char_at(s, i, t, 0);
                lemma_char_at(s, i, t, 1);
                lemma_char_at(s, i, t, 2);
                lemma_char_at(s, i, t, 3);
                lemma_char_at(s, i, t, 4);
                assert(s[i] == 'f' && s[i + 1] == 'a' && s[i + 2] == 'l' && s[i + 3] == 's' && s[i
                    + 4] == 'e');
            }
        },
        JsonV::Int(x) => {
            lemma_parse_int(s, i, x);
            if x < 0 {
                assert(t[0] == '-');
                lemma_char_at(s, i, t, 0);
                assert(s[i] == '-');
            } else {
                lemma_dec_u_chars(x as nat);
                lemma_char_at(s, i, t, 0);
                assert(s[i] == dec_u(x as nat)[0]);
                assert(is_digit(s[i]));
            }
        },
        JsonV::Str(cs) => {
            let esc = esc_str(cs);
            assert(t == seq!['"'] + esc + seq!['"']);
            assert(t[0] == '"');
            lemma_char_at(s, i, t, 0);
            assert(s[i] == '"');
            assert(t.len() == esc.len() + 2);
            assert forall|k: int| 0 <= k < esc.len() implies #[trigger] s.subrange(
                i + 1,
                e - 1,
            )[k] == esc[k] by {
                assert(s.subrange(i + 1, e - 1)[k] == s[i + 1 + k]);
                assert(t[1 + k] == esc[k]);
            }
            assert(s.subrange(i + 1, e - 1) =~= esc);
            assert(t[t.len() - 1] == '"');
            lemma_char_at(s, i, t, t.len() - 1);
            assert(s[i + (t.len() - 1)] == '"');
            assert(s[e - 1] == '"');
            lemma_parse_str_body(s, i + 1, cs);
        },
        JsonV::Arr(items) => {
            assert(t[0] == '[');
            lemma_char_at(s, i, t, 0);
            assert(s[i] == '[');
            let body = render_items(items, items.len() as int);
            assert(t == seq!['['] + body + seq![']']);
            assert(t[t.len() - 1] == ']');
            lemma_char_at(s, i, t, t.len() - 1);
            assert(s[i + (t.len() - 1)] == ']');
            assert(s[e - 1] == ']');
            if items.len() == 0 {
                assert(body =~= Seq::<char>::empty());
                assert(t.len() == 2);
                lemma_char_at(s, i, t, 1);
                assert(s[i + 1] == ']');
                assert(skip_ws(s, i + 1) == i + 1);
                assert(items =~= Seq::<JsonV>::empty());
                assert(v == JsonV::Arr(Seq::<JsonV>::empty()));
            } else {
                assert forall|k: int| 0 <= k < body.len() implies #[trigger] s.subrange(
                    i + 1,
                    e - 1,
                )[k] == body[k] by {
                    assert(s.subrange(i + 1, e - 1)[k] == s[i + 1 + k]);
                    assert(t[1 + k] == body[k]);
                }
                assert(s.subrange(i + 1, e - 1) =~= body);
                lemma_items_split(items, items.len() as int);
                lemma_render_first(items[0]);
                assert(body[0] == render_spec(items[0])[0]);
                assert(t[1] == body[0]);
                lemma_char_at(s, i, t, 1);
                assert(s[i + 1] == body[0]);
                assert(!is_ws(s[i + 1]));
                assert(skip_ws(s, i + 1) == i + 1);
                assert(s[i + 1] != ']');
                assert forall|j: int| 0 <= j < items.len() implies wf_wire(
                    #[trigger] items[j],
                ) by {}
                assert(items.skip(0) =~= items);
                lemma_parse_render_items(s, i + 1, items, 0);
            }
        },
        JsonV::Obj(members) => {
            assert(t[0] == '{');
            lemma_char_at(s, i, t, 0);
            assert(s[i] == '{');
            let body = render_members(members, members.len() as int);
            assert(t == seq!['{'] + body + seq!['}']);
            assert(t[t.len() - 1] == '}');
            lemma_char_at(s, i, t, t.len() - 1);
            assert(s[i + (t.len() - 1)] == '}');
            assert(s[e - 1] == '}');
            if members.len() == 0 {
                assert(body =~= Seq::<char>::empty());
                assert(t.len() == 2);
                lemma_char_at(s, i, t, 1);
                assert(s[i + 1] == '}');
                assert(skip_ws(s, i + 1) == i + 1);
                assert(members =~= Seq::<(Seq<char>, JsonV)>::empty());
                assert(v == JsonV::Obj(Seq::<(Seq<char>, JsonV)>::empty()));
            } else {
                assert forall|k: int| 0 <= k < body.len() implies #[trigger] s.subrange(
                    i + 1,
                    e - 1,
                )[k] == body[k] by {
                    assert(s.subrange(i + 1, e - 1)[k] == s[i + 1 + k]);
                    assert(t[1 + k] == body[k]);
                }
                assert(s.subrange(i + 1, e - 1) =~= body);
                lemma_members_split(members, members.len() as int);
                assert(body[0] == render_member(members[0])[0]);
                assert(render_member(members[0])[0] == '"');
                assert(t[1] == body[0]);
                lemma_char_at(s, i, t, 1);
                assert(s[i + 1] == '"');
                assert(skip_ws(s, i + 1) == i + 1);
                assert(s[i + 1] != '}');
                assert(members.skip(0) =~= members);
                lemma_parse_render_members(s, i + 1, members, 0);
            }
        },
    }
}

/// The rendered tail of an element list, from element `q` on and through
/// the closing bracket, parses back as exactly those elements.
proof fn lemma_parse_render_items(s: Seq<char>, i: int, items: Seq<JsonV>, q: int)
    requires
        0 <= q < items.len(),
        forall|j: int| 0 <= j < items.len() ==> wf_wire(#[trigger] items[j]),
        0 <= i,
        i + render_items(items.skip(q), items.len() - q).len() < s.len(),
        s.subrange(i, i + render_items(items.skip(q), items.len() - q).len() as int)
            == render_items(items.skip(q), items.len() - q),
        s[i + render_items(items.skip(q), items.len() - q).len() as int] == ']',
    ensures
        sp_items(s, i) == Some(
            (items.skip(q), i + render_items(items.skip(q), items.len() - q).len() + 1),
        ),
    decreases items, items.len() - q,
{
    let suf = items.skip(q);
    let n = items.len() - q;
    let body = render_items(suf, n);
    let e = i + body.len() as int;
    lemma_items_split(suf, n);
    let v0 = suf[0];
    assert(v0 == items[q]);
    assert(wf_wire(v0));
    let t0 = render_spec(v0);
    let l0 = t0.len() as int;
    assert forall|k: int| 0 <= k < l0 implies #[trigger] s.subrange(i, i + l0)[k] == t0[k] by {
        assert(s.subrange(i, i + l0)[k] == s[i + k]);
        assert(body[k] == t0[k]);
    }
    assert(s.subrange(i, i + l0) =~= t0);
    // the character after the first element is a comma or the bracket
    if n == 1 {
        assert(body.len() == l0);
        assert(i + l0 == e);
        assert(s[i + l0] == ']');
        assert(!is_digit(']'));
        assert(decreases_to!(items => items[q]));
        lemma_parse_render_value(s, i, v0);
        assert(!is_ws(']'));
        assert(skip_ws(s, i + l0) == i + l0);
        assert(seq![v0] =~= suf);
    } else {
        assert(body[l0] == ',');
        lemma_char_at(s, i, body, l0);
        assert(s[i + l0] == ',');
        assert(!is_digit(','));
        assert(decreases_to!(items => items[q]));
        lemma_parse_render_value(s, i, v0);
        assert(!is_ws(','));
        assert(skip_ws(s, i + l0) == i + l0);
        assert(s[i + l0] != ']');
        // the rest of the list starts right after the comma
        let rest = render_items(items.skip(q + 1), items.len() - q - 1);
        assert(suf.drop_first() =~= items.skip(q + 1));
        assert(body == t0 + (seq![','] + rest));
        let p2 = i + l0 + 1;
        assert forall|k: int| 0 <= k < rest.len() implies #[trigger] s.subrange(
            p2,
            e,
        )[k] == rest[k] by {
            assert(s.subrange(p2, e)[k] == s[p2 + k]);
            assert(body[l0 + 1 + k] == rest[k]);
        }
        assert(s.subrange(p2, e) =~= rest);
        assert(s[e] == ']');
        lemma_parse_render_items(s, p2, items, q + 1);
        // the first character after the comma is no whitespace
        lemma_items_split(items.skip(q + 1), items.len() - q - 1);
        lemma_render_first(items[q + 1]);
        assert(items.skip(q + 1)[0] == items[q + 1]);
        assert(rest[0] == render_spec(items[q + 1])[0]);
        assert(body[l0 + 1] == rest[0]);
        lemma_char_at(s, i, body, l0 + 1);
        assert(s[i + (l0 + 1)] == rest[0]);
        assert(s[p2] == rest[0]);
        assert(!is_ws(s[p2]));
        assert(skip_ws(s, i + l0 + 1) == p2);
        assert(seq![v0] + items.skip(q + 1) =~= suf);
    }
}

/// The rendered tail of a member list, from member `q` on and through the
/// closing brace, parses back as exactly those members.
proof fn lemma_parse_render_members(s: Seq<char>, i: int, members: Seq<(Seq<char>, JsonV)>, q: int)
    requires
        0 <= q < members.len(),
        forall|j: int| 0 <= j < members.len() ==> wf_wire((#[trigger] members[j]).1),
        0 <= i,
        i + render_members(members.skip(q), members.len() - q).len() < s.len(),
        s.subrange(i, i + render_members(members.skip(q), members.len() - q).len() as int)
            == render_members(members.skip(q), members.len() - q),
        s[i + render_members(members.skip(q), members.len() - q).len() as int] == '}',
    ensures
        sp_members(s, i) == Some(
            (members.skip(q), i + render_members(members.skip(q), members.len() - q).len() + 1),
        ),
    decreases members, members.len() - q,
{
    let suf = members.skip(q);
    let n = members.len() - q;
    let body = render_members(suf, n);
    let e = i + body.len() as int;
    lemma_members_split(suf, n);
    let m0 = suf[0];
    assert(m0 == members[q]);
    assert(wf_wire(m0.1));
    let t0 = render_member(m0);
    let l0 = t0.len() as int;
    assert(t0 == seq!['"'] + esc_str(m0.0) + seq!['"', ':'] + render_spec(m0.1));
    assert forall|k: int| 0 <= k < l0 implies #[trigger] body[k] == t0[k] by {}
    // the key string
    let esc = esc_str(m0.0);
    let el = esc.len() as int;
    assert(t0[0] == '"');
    assert(body[0] == t0[0]);
    lemma_char_at(s, i, body, 0);
    assert(s[i] == '"');
    assert forall|k: int| 0 <= k < el implies #[trigger] s.subrange(
        i + 1,
        i + 1 + el,
    )[k] == esc[k] by {
        assert(s.subrange(i + 1, i + 1 + el)[k] == s[i + 1 + k]);
        lemma_char_at(s, i, body, 1 + k);
        assert(t0[1 + k] == esc[k]);
    }
    assert(s.subrange(i + 1, i + 1 + el) =~= esc);
    assert(t0[1 + el] == '"');
    lemma_char_at(s, i, body, 1 + el);
    assert(s[i + (1 + el)] == '"');
    assert(s[i + 1 + el] == '"');
    lemma_parse_str_body(s, i + 1, m0.0);
    let e1 = i + el + 2;
    // the colon
    assert(t0[el + 2] == ':');
    lemma_char_at(s, i, body, el + 2);
    assert(s[i + (el + 2)] == ':');
    assert(s[e1] == ':');
    assert(!is_ws(':'));
    assert(skip_ws(s, e1) == e1);
    // the member's value
    let tv = render_spec(m0.1);
    let lv = tv.len() as int;
    let pv = e1 + 1;
    assert(l0 == el + 3 + lv);
    assert forall|k: int| 0 <= k < lv implies #[trigger] s.subrange(pv, pv + lv)[k] == tv[k] by {
        assert(s.subrange(pv, pv + lv)[k] == s[pv + k]);
        lemma_char_at(s, i, body, el + 3 + k);
        assert(t0[el + 3 + k] == tv[k]);
    }
    assert(s.subrange(pv, pv + lv) =~= tv);
    lemma_render_first(m0.1);
    assert(s.subrange(pv, pv + lv)[0] == s[pv]);
    assert(s[pv] == tv[0]);
    assert(!is_ws(s[pv]));
    assert(skip_ws(s, pv) == pv);
    let e2 = pv + lv;
    if n == 1 {
        assert(body.len() == l0);
        assert(e2 == e);
        assert(s[e] == '}');
        assert(s[e2] == '}');
        assert(!is_digit('}'));
        assert(decreases_to!(members => members[q]));
        assert(decreases_to!(members[q] => members[q].1));
        lemma_parse_render_value(s, pv, m0.1);
        assert(!is_ws('}'));
        assert(skip_ws(s, e2) == e2);
        assert(seq![(m0.0, m0.1)] =~= suf);
        assert((m0.0, m0.1) == m0);
    } else {
        assert(body[l0] == ',');
        lemma_char_at(s, i, body, l0);
        assert(e2 == i + l0);
        assert(s[e2] == ',');
        assert(!is_digit(','));
        assert(decreases_to!(members => members[q]));
        assert(decreases_to!(members[q] => members[q].1));
        lemma_parse_render_value(s, pv, m0.1);
        assert(!is_ws(','));
        assert(skip_ws(s, e2) == e2);
        assert(s[e2] != '}');
        let rest = render_members(members.skip(q + 1), members.len() - q - 1);
        assert(suf.drop_first() =~= members.skip(q + 1));
        assert(body == t0 + (seq![','] + rest));
        let p2 = e2 + 1;
        assert forall|k: int| 0 <= k < rest.len() implies #[trigger] s.subrange(
            p2,
            e,
        )[k] == rest[k] by {
            assert(s.subrange(p2, e)[k] == s[p2 + k]);
            assert(body[l0 + 1 + k] == rest[k]);
        }
        assert(s.subrange(p2, e) =~= rest);
        assert(s[e] == '}');
        lemma_parse_render_members(s, p2, members, q + 1);
        lemma_members_split(members.skip(q + 1), members.len() - q - 1);
        assert(members.skip(q + 1)[0] == members[q + 1]);
        assert(rest[0] == render_member(members[q + 1])[0]);
        assert(render_member(members[q + 1])[0] == '"');
        assert(body[l0 + 1] == rest[0]);
        lemma_char_at(s, i, body, l0 + 1);
        assert(s[i + (l0 + 1)] == rest[0]);
        assert(s[p2] == '"');
        assert(!is_ws(s[p2]));
        assert(skip_ws(s, e2 + 1) == p2);
        assert(seq![(m0.0, m0.1)] + members.skip(q + 1) =~= suf);
    }
}

/// Law: the compact JSON text of any well-formed value parses back to
/// exactly that value.
pub proof fn lemma_text_round_trip(v: JsonV)
    requires
        wf_wire(v),
    ensures
        spec_parse_text(render_spec(v)) == Some(v),
{
    let s = render_spec(v);
    lemma_render_first(v);
    assert(s.subrange(0, s.len() as int) =~= s);
    lemma_parse_render_value(s, 0, v);
    assert(!is_ws(s[0]));
    assert(skip_ws(s, 0) == 0);
    assert(skip_ws(s, s.len() as int) == s.len());
}

/// Law: the compact JSON text of any executable value parses back to that
/// value's model — encode-then-decode is the identity at the text level.
pub proof fn lemma_json_text_round_trip(j: Json)
    ensures
        spec_parse_text(render_spec(j@)) == Some(j@),
{
    lemma_view_wf(j);
    lemma_text_round_trip(j@);
}

/// Law: a description's compact JSON text parses back to its own wire
/// value — in whichever of the two shapes it was encoded — and that wire
/// value is one the description decoder accepts.
pub proof fn lemma_description_text_round_trip(d: Description)
    ensures
        spec_parse_text(render_spec(d.wire())) == Some(d.wire()),
        description_shape(d.wire()),
{
    let w = d.wire();
    assert(wf_wire(w)) by {
        match d.format {
            None => {},
            Some(f) => {
                let ms = w->Obj_0;
                assert(ms.len() == 2);
                assert forall|k: int| 0 <= k < ms.len() implies wf_wire(
                    (#[trigger] ms[k]).1,
                ) by {
                    if k == 0 {
                        assert(ms[0].1 == JsonV::Str(d.value@));
                    } else {
                        assert(ms[1].1 == JsonV::Str(f.spec_tag()));
                    }
                }
            },
        }
    }
    lemma_text_round_trip(w);
    lemma_description_wire_decodes(d);
}

} // verus!
