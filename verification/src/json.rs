//! JSON values, their compact canonical text (the byte form that the
//! certificate self-hash and signatures are computed over), and the parse of
//! JSON bytes (through `serde_json`).

use crate::digest::hex_digit;
use crate::sorted_map::keys_ascending;
use vstd::prelude::*;

verus! {

/// A JSON value. Numbers are carried as their rendered text; object members
/// keep the order in which they were supplied. A parsed value is
/// [`json_wf`]: its members come sorted by key, each key once, as a
/// `serde_json` object map iterates.
#[derive(Debug)]
pub enum JsonValue {
    Null,
    Bool(bool),
    Number(String),
    Str(String),
    Array(Vec<JsonValue>),
    Object(Vec<(String, JsonValue)>),
}

/// The escape sequence that stands for `c` inside a JSON string literal:
/// `"` and `\` are backslash-escaped, `\n \r \t \x08 \x0c` use their short
/// forms, other control characters below U+0020 use `\u00XX` (lowercase hex),
/// and everything else is written as itself.
pub open spec fn escape_char(c: char) -> Seq<char> {
    if c == '"' {
        seq!['\\', '"']
    } else if c == '\\' {
        seq!['\\', '\\']
    } else if c == '\n' {
        seq!['\\', 'n']
    } else if c == '\r' {
        seq!['\\', 'r']
    } else if c == '\t' {
        seq!['\\', 't']
    } else if c == '\x08' {
        seq!['\\', 'b']
    } else if c == '\x0c' {
        seq!['\\', 'f']
    } else if (c as u32) < 0x20 {
        seq!['\\', 'u', '0', '0', hex_digit(((c as u32) / 16) as nat), hex_digit(((c as u32) % 16) as nat)]
    } else {
        seq![c]
    }
}

/// The escaped body of a JSON string literal.
pub open spec fn escape(s: Seq<char>) -> Seq<char>
    decreases s.len(),
{
    if s.len() == 0 {
        seq![]
    } else {
        escape(s.drop_last()) + escape_char(s.last())
    }
}

/// A JSON string literal for `s`.
pub open spec fn json_str(s: Seq<char>) -> Seq<char> {
    seq!['"'] + escape(s) + seq!['"']
}

/// Comma-joined sequence of already-encoded parts.
pub open spec fn join_comma(parts: Seq<Seq<char>>) -> Seq<char>
    decreases parts.len(),
{
    if parts.len() == 0 {
        seq![]
    } else if parts.len() == 1 {
        parts[0]
    } else {
        join_comma(parts.drop_last()) + seq![','] + parts.last()
    }
}

/// Compact JSON text of a value.
pub open spec fn enc_json(v: JsonValue) -> Seq<char>
    decreases v, 0nat,
{
    match v {
        JsonValue::Null => seq!['n', 'u', 'l', 'l'],
        JsonValue::Bool(b) => if b { seq!['t', 'r', 'u', 'e'] } else { seq!['f', 'a', 'l', 's', 'e'] },
        JsonValue::Number(t) => t@,
        JsonValue::Str(s) => json_str(s@),
        JsonValue::Array(items) => seq!['['] + enc_items(items@) + seq![']'],
        JsonValue::Object(members) => seq!['{'] + enc_members(members@) + seq!['}'],
    }
}

/// Comma-joined encodings of array items.
pub open spec fn enc_items(items: Seq<JsonValue>) -> Seq<char>
    decreases items, 1nat,
{
    if items.len() == 0 {
        seq![]
    } else if items.len() == 1 {
        enc_json(items[0])
    } else {
        enc_items(items.drop_last()) + seq![','] + enc_json(items.last())
    }
}

/// Comma-joined `"key":value` encodings of object members.
pub open spec fn enc_members(members: Seq<(String, JsonValue)>) -> Seq<char>
    decreases members, 1nat,
{
    if members.len() == 0 {
        seq![]
    } else if members.len() == 1 {
        json_str(members[0].0@) + seq![':'] + enc_json(members[0].1)
    } else {
        enc_members(members.drop_last()) + seq![','] + json_str(members.last().0@) + seq![':']
            + enc_json(members.last().1)
    }
}

/// A value as `serde_json` holds one: every object's member keys ascend
/// strictly (so each key occurs once), at every depth.
pub open spec fn json_wf(v: JsonValue) -> bool
    decreases v, 0nat,
{
    match v {
        JsonValue::Array(items) => items_wf(items@),
        JsonValue::Object(members) => keys_ascending(members@) && members_wf(members@),
        _ => true,
    }
}

/// Every item is [`json_wf`].
pub open spec fn items_wf(items: Seq<JsonValue>) -> bool
    decreases items, 1nat,
{
    if items.len() == 0 {
        true
    } else {
        items_wf(items.drop_last()) && json_wf(items.last())
    }
}

/// Every member's value is [`json_wf`].
pub open spec fn members_wf(members: Seq<(String, JsonValue)>) -> bool
    decreases members, 1nat,
{
    if members.len() == 0 {
        true
    } else {
        members_wf(members.drop_last()) && json_wf(members.last().1)
    }
}

fn hex_nibble(v: u32) -> (c: char)
    requires
        v < 16,
    ensures
        c == hex_digit(v as nat),
{
    if v == 0 { '0' } else if v == 1 { '1' } else if v == 2 { '2' } else if v == 3 { '3' }
    else if v == 4 { '4' } else if v == 5 { '5' } else if v == 6 { '6' } else if v == 7 { '7' }
    else if v == 8 { '8' } else if v == 9 { '9' } else if v == 10 { 'a' } else if v == 11 { 'b' }
    else if v == 12 { 'c' } else if v == 13 { 'd' } else if v == 14 { 'e' } else { 'f' }
}

/// Append the escape sequence for one character.
fn push_escaped_char(out: &mut String, c: char)
    ensures
        final(out)@ == old(out)@ + escape_char(c),
{
    if c == '"' {
        out.push('\\');
        out.push('"');
    } else if c == '\\' {
        out.push('\\');
        out.push('\\');
    } else if c == '\n' {
        out.push('\\');
        out.push('n');
    } else if c == '\r' {
        out.push('\\');
        out.push('r');
    } else if c == '\t' {
        out.push('\\');
        out.push('t');
    } else if c == '\x08' {
        out.push('\\');
        out.push('b');
    } else if c == '\x0c' {
        out.push('\\');
        out.push('f');
    } else if (c as u32) < 0x20 {
        let v = c as u32;
        out.push('\\');
        out.push('u');
        out.push('0');
        out.push('0');
        out.push(hex_nibble(v / 16));
        out.push(hex_nibble(v % 16));
    } else {
        out.push(c);
    }
    assert(out@ =~= old(out)@ + escape_char(c));
}

/// Append the JSON string literal for `s`.
pub fn push_json_str(out: &mut String, s: &str)
    ensures
        final(out)@ == old(out)@ + json_str(s@),
{
    broadcast use vstd::string::group_string_axioms;
    let ghost start = out@;
    out.push('"');
    for c in it: s.chars()
        invariant
            it.seq() == s@,
            out@ == start + seq!['"'] + escape(s@.take(it.index() as int)),
    {
        let ghost k = it.index() as int;
        push_escaped_char(out, c);
        proof {
            let t = s@.take(k + 1);
            assert(t.drop_last() =~= s@.take(k));
            assert(out@ =~= start + seq!['"'] + escape(t));
        }
    }
    assert(s@.take(s@.len() as int) =~= s@);
    out.push('"');
    assert(out@ =~= old(out)@ + json_str(s@));
}


/// Append the compact JSON text of `v`.
pub fn push_json(out: &mut String, v: &JsonValue)
    ensures
        final(out)@ == old(out)@ + enc_json(*v),
    decreases v,
{
    match v {
        JsonValue::Null => {
            out.push('n');
            out.push('u');
            out.push('l');
            out.push('l');
        },
        JsonValue::Bool(b) => {
            if *b {
                out.push('t');
                out.push('r');
                out.push('u');
                out.push('e');
            } else {
                out.push('f');
                out.push('a');
                out.push('l');
                out.push('s');
                out.push('e');
            }
        },
        JsonValue::Number(t) => {
            out.append(t.as_str());
        },
        JsonValue::Str(s) => {
            push_json_str(out, s.as_str());
        },
        JsonValue::Array(items) => {
            let ghost start = out@;
            out.push('[');
            let n = items.len();
            let mut i: usize = 0;
            while i < n
                invariant
                    n == items@.len(),
                    *v == JsonValue::Array(*items),
                    i <= n,
                    out@ == start + seq!['['] + enc_items(items@.take(i as int)),
                decreases n - i,
            {
                let ghost before = out@;
                if i > 0 {
                    out.push(',');
                }
                assert(decreases_to!(*v => v->Array_0));
                assert(decreases_to!(items => items@));
                assert(decreases_to!(items@ => items@[i as int]));
                push_json(out, &items[i]);
                proof {
                    let t = items@.take(i + 1);
                    assert(t.drop_last() =~= items@.take(i as int));
                    assert(t.last() == items@[i as int]);
                    if i == 0 {
                        assert(t =~= seq![items@[0]]);
                    }
                    assert(out@ =~= start + seq!['['] + enc_items(t));
                }
                i = i + 1;
            }
            assert(items@.take(n as int) =~= items@);
            out.push(']');
        },
        JsonValue::Object(members) => {
            let ghost start = out@;
            out.push('{');
            let n = members.len();
            let mut i: usize = 0;
            while i < n
                invariant
                    n == members@.len(),
                    *v == JsonValue::Object(*members),
                    i <= n,
                    out@ == start + seq!['{'] + enc_members(members@.take(i as int)),
                decreases n - i,
            {
                if i > 0 {
                    out.push(',');
                }
                let (key, value) = &members[i];
                push_json_str(out, key.as_str());
                out.push(':');
                assert(decreases_to!(*v => v->Object_0));
                assert(decreases_to!(members => members@));
                assert(decreases_to!(members@ => members@[i as int]));
                assert(decreases_to!(members@[i as int] => members@[i as int].1));
                push_json(out, value);
                proof {
                    let t = members@.take(i + 1);
                    assert(t.drop_last() =~= members@.take(i as int));
                    assert(t.last() == members@[i as int]);
                    if i == 0 {
                        assert(t =~= seq![members@[0]]);
                    }
                    assert(out@ =~= start + seq!['{'] + enc_members(t));
                }
                i = i + 1;
            }
            assert(members@.take(n as int) =~= members@);
            out.push('}');
        },
    }
    assert(out@ =~= old(out)@ + enc_json(*v));
}


// ── Parsing ──────────────────────────────────────────────────────────

#[verifier::external_type_specification]
#[verifier::external_body]
pub struct ExSerdeJsonValue(serde_json::Value);

/// The JSON value `bytes` parse to, or `None` when they are not a JSON text.
pub uninterp spec fn json_parse(bytes: Seq<u8>) -> Option<JsonValue>;

/// Converts a `serde_json::Value` to a [`JsonValue`] variant by variant,
/// numbers by their `Display` text and object members in map order.
#[verifier::external_body]
fn json_value_of(v: &serde_json::Value) -> JsonValue {
    match v {
        serde_json::Value::Null => JsonValue::Null,
        serde_json::Value::Bool(b) => JsonValue::Bool(*b),
        serde_json::Value::Number(n) => JsonValue::Number(n.to_string()),
        serde_json::Value::String(s) => JsonValue::Str(s.clone()),
        serde_json::Value::Array(items) => JsonValue::Array(items.iter().map(json_value_of).collect()),
        serde_json::Value::Object(members) => JsonValue::Object(
            members.iter().map(|(k, v)| (k.clone(), json_value_of(v))).collect(),
        ),
    }
}

/// Calls `serde_json::from_slice::<serde_json::Value>` on `bytes`. Trusted to
/// return the parsed value named by [`json_parse`] (converted to a
/// [`JsonValue`]), or `None` when `bytes` are not JSON; and, since a
/// `serde_json` object is a `BTreeMap` from `String` (the crate's default
/// map), whose walk yields each key once in ascending order, the converted
/// value is [`json_wf`].
#[verifier::external_body]
pub(crate) fn parse_json(bytes: &[u8]) -> (res: Option<JsonValue>)
    ensures
        res == json_parse(bytes@),
        res matches Some(v) ==> json_wf(v),
{
    serde_json::from_slice::<serde_json::Value>(bytes).ok().map(|v| json_value_of(&v))
}

} // verus!
