//! JSON text: string escaping (through `serde_json`), JSON validity of
//! incoming messages, and the compact forms of booleans and string arrays.

use vstd::prelude::*;
use crate::text::hex_digits;

verus! {

/// The JSON escape of one character, as `serde_json` writes it inside a
/// string: `"` and `\` are backslash-escaped, the control characters
/// U+0008, U+0009, U+000A, U+000C, U+000D use their short escapes, the
/// other characters below U+0020 use `\u00XX` with lowercase hex digits,
/// and every other character stands for itself.
pub open spec fn json_escape_char(c: char) -> Seq<char> {
    let v = c as u32;
    if c == '"' {
        seq!['\\', '"']
    } else if c == '\\' {
        seq!['\\', '\\']
    } else if v == 0x08 {
        seq!['\\', 'b']
    } else if v == 0x09 {
        seq!['\\', 't']
    } else if v == 0x0A {
        seq!['\\', 'n']
    } else if v == 0x0C {
        seq!['\\', 'f']
    } else if v == 0x0D {
        seq!['\\', 'r']
    } else if v < 0x20 {
        seq!['\\', 'u', '0', '0', hex_digits()[(v / 16) as int], hex_digits()[(v % 16) as int]]
    } else {
        seq![c]
    }
}

/// The JSON escape of a whole string, character by character.
pub open spec fn json_escape(s: Seq<char>) -> Seq<char>
    decreases s.len(),
{
    if s.len() == 0 {
        Seq::empty()
    } else {
        json_escape(s.drop_last()) + json_escape_char(s.last())
    }
}

/// A string as a JSON string literal: the escaped text between quotes.
pub open spec fn json_quote(s: Seq<char>) -> Seq<char> {
    seq!['"'] + json_escape(s) + seq!['"']
}

/// Whether `serde_json` accepts `bytes` as one JSON value.
pub uninterp spec fn parses_as_json(bytes: Seq<u8>) -> bool;

/// `serde_json::to_string` on a `&str`: the string as a JSON string
/// literal. The contract states the escaping that `serde_json`'s
/// serializer applies (its `ESCAPE` table and `write_char_escape`);
/// serializing a string never fails there.
#[verifier::external_body]
pub fn json_string(s: &str) -> (r: String)
    ensures
        r@ == json_quote(s@),
{
    serde_json::to_string(s).unwrap_or_default()
}

/// `serde_json::from_slice` into a `serde_json::Value`: whether the bytes
/// parse as JSON. The contract only names the outcome, which depends on
/// the bytes alone.
#[verifier::external_body]
pub fn json_parses(bytes: &[u8]) -> (r: bool)
    ensures
        r == parses_as_json(bytes@),
{
    serde_json::from_slice::<serde_json::Value>(bytes).is_ok()
}

/// A boolean in JSON.
pub open spec fn json_bool(b: bool) -> Seq<char> {
    if b {
        "true"@
    } else {
        "false"@
    }
}

/// Executable [`json_bool`].
pub fn json_bool_str(b: bool) -> (r: &'static str)
    ensures
        r@ == json_bool(b),
{
    if b {
        "true"
    } else {
        "false"
    }
}

/// The comma-separated JSON string literals of `items`.
pub open spec fn json_string_items(items: Seq<Seq<char>>) -> Seq<char>
    decreases items.len(),
{
    if items.len() == 0 {
        Seq::empty()
    } else if items.len() == 1 {
        json_quote(items[0])
    } else {
        json_string_items(items.drop_last()) + ","@ + json_quote(items.last())
    }
}

/// A compact JSON array of strings.
pub open spec fn json_string_array(items: Seq<Seq<char>>) -> Seq<char> {
    "["@ + json_string_items(items) + "]"@
}


/// A JSON array of strings is always bracketed, whatever its length: it
/// starts with `[` and ends with `]`; with no items it is `[]`, and with one
/// item it is that item's string literal between brackets.
pub proof fn lemma_json_string_array_bracketed(items: Seq<Seq<char>>)
    ensures
        json_string_array(items).len() >= 2,
        json_string_array(items)[0] == '[',
        json_string_array(items).last() == ']',
        items.len() == 0 ==> json_string_array(items) == seq!['[', ']'],
        items.len() == 1 ==> json_string_array(items) == seq!['['] + json_quote(items[0]) + seq![
            ']',
        ],
{
    reveal_strlit("[");
    reveal_strlit("]");
    let a = json_string_array(items);
    let body = json_string_items(items);
    assert(a == seq!['['] + body + seq![']']);
    assert(a[0] == '[');
    assert(a[a.len() - 1] == ']');
    if items.len() == 0 {
        assert(a =~= seq!['[', ']']);
    }
}

/// The views of a vector of strings.
pub open spec fn string_views(v: Seq<String>) -> Seq<Seq<char>> {
    v.map_values(|s: String| s@)
}

/// Executable [`json_string_array`].
pub fn json_string_array_string(items: &Vec<String>) -> (r: String)
    ensures
        r@ == json_string_array(string_views(items@)),
{
    let ghost views = string_views(items@);
    let mut body = String::new();
    let mut i: usize = 0;
    while i < items.len()
        invariant
            i <= items@.len(),
            views == string_views(items@),
            body@ == json_string_items(views.take(i as int)),
        decreases items@.len() - i,
    {
        let q = json_string(items[i].as_str());
        if i > 0 {
            body.append(",");
        }
        body.append(q.as_str());
        proof {
            assert(views.take(i + 1).drop_last() =~= views.take(i as int));
            assert(views[i as int] == items@[i as int]@);
            if i == 0 {
                assert(views.take(0) =~= Seq::<Seq<char>>::empty());
                assert(Seq::<char>::empty() + q@ =~= q@);
            }
        }
        i = i + 1;
    }
    proof {
        assert(views.take(items@.len() as int) =~= views);
    }
    let mut r = String::from_str("[");
    r.append(body.as_str());
    r.append("]");
    r
}

} // verus!
