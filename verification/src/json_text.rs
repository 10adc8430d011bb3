//! Compact JSON text for the small objects the library writes (event details,
//! capability objects).  Strings are quoted by `serde_json`; objects keep
//! their members in the order given, as `serde_json` does with its
//! order-preserving map.
use vstd::prelude::*;

use crate::text::{decimal, extend_chars, extend_str, join, push_decimal, string_of};

verus! {

/// A lowercase hexadecimal digit, for `0 <= n < 16`.
pub open spec fn hex_digit(n: int) -> char {
    if n < 10 {
        (48 + n) as char
    } else {
        (87 + n) as char
    }
}

/// How `serde_json` writes one character inside a string: `"` and `\` are
/// escaped with a backslash, backspace, tab, line feed, form feed and carriage
/// return as `\b \t \n \f \r`, every other character below U+0020 as
/// `\u00XX` with lowercase hex digits, and every other character as itself.
pub open spec fn escaped_char(c: char) -> Seq<char> {
    if c == '"' {
        seq!['\\', '"']
    } else if c == '\\' {
        seq!['\\', '\\']
    } else if c == '\u{8}' {
        seq!['\\', 'b']
    } else if c == '\t' {
        seq!['\\', 't']
    } else if c == '\n' {
        seq!['\\', 'n']
    } else if c == '\u{c}' {
        seq!['\\', 'f']
    } else if c == '\r' {
        seq!['\\', 'r']
    } else if (c as int) < 0x20 {
        seq!['\\', 'u', '0', '0', hex_digit((c as int) / 16), hex_digit((c as int) % 16)]
    } else {
        seq![c]
    }
}

/// The characters of `s`, each written as [`escaped_char`] gives it.
pub open spec fn escaped_chars(s: Seq<char>) -> Seq<char>
    decreases s.len(),
{
    if s.len() == 0 {
        seq![]
    } else {
        escaped_chars(s.drop_last()) + escaped_char(s.last())
    }
}

/// The JSON text of a string value: the escaped characters between double quotes.
pub open spec fn json_string_text(s: Seq<char>) -> Seq<char> {
    seq!['"'] + escaped_chars(s) + seq!['"']
}

/// `serde_json::to_string(s)`: the quoted, escaped JSON form of a string,
/// as `format_escaped_str` and its escape table write it.
///
/// Serialising a `&str` into a `String` cannot fail in `serde_json` (the
/// writer is in memory and every `str` is valid UTF-8), so the error arm is
/// never taken.
#[verifier::external_body]
fn json_quote(s: &str) -> (r: String)
    ensures
        r@ == json_string_text(s@),
{
    match serde_json::to_string(s) {
        Ok(t) => t,
        Err(_) => String::new(),
    }
}

/// The text `serde_json::to_string_pretty` gives for the JSON value that
/// `text` holds, `None` when `text` is not JSON.
pub uninterp spec fn pretty_json_text(text: Seq<char>) -> Option<Seq<char>>;

/// `serde_json::from_str::<Value>` followed by `serde_json::to_string_pretty`:
/// the JSON text laid out over several lines with two-space indentation,
/// members in the order the text gives them.  The result depends on `text`
/// alone; `None` when `text` does not parse.
#[verifier::external_body]
pub(crate) fn pretty_json(text: &str) -> (r: Option<String>)
    ensures
        match r {
            Some(p) => pretty_json_text(text@) == Some(p@),
            None => pretty_json_text(text@) is None,
        },
{
    match serde_json::from_str::<serde_json::Value>(text) {
        Ok(v) => match serde_json::to_string_pretty(&v) {
            Ok(p) => Some(p),
            Err(_) => None,
        },
        Err(_) => None,
    }
}

/// The JSON text of a string value.
pub fn json_string(s: &str) -> (r: String)
    ensures
        r@ == json_string_text(s@),
{
    json_quote(s)
}

/// One `"key":value` member.
pub open spec fn member_text(key: Seq<char>, value: Seq<char>) -> Seq<char> {
    json_string_text(key) + seq![':'] + value
}

/// Keys and value texts of a member list.
pub open spec fn entries_view(entries: Seq<(String, String)>) -> Seq<(Seq<char>, Seq<char>)> {
    entries.map_values(|e: (String, String)| (e.0@, e.1@))
}

/// A JSON object whose members are `entries` (key, JSON text of the value), in order.
pub open spec fn object_text(entries: Seq<(Seq<char>, Seq<char>)>) -> Seq<char> {
    seq!['{'] + join(
        entries.map_values(|e: (Seq<char>, Seq<char>)| member_text(e.0, e.1)),
        seq![','],
    ) + seq!['}']
}

/// A JSON array of strings.
pub open spec fn string_array_text(items: Seq<Seq<char>>) -> Seq<char> {
    seq!['['] + join(items.map_values(|s: Seq<char>| json_string_text(s)), seq![',']) + seq![']']
}

/// A JSON number for an optional count, `null` when absent.
pub open spec fn opt_number_text(n: Option<u64>) -> Seq<char> {
    match n {
        Some(v) => decimal(v as nat),
        None => "null"@,
    }
}

/// A JSON number for a signed value.
pub open spec fn signed_text(n: int) -> Seq<char> {
    if n < 0 {
        seq!['-'] + decimal((-n) as nat)
    } else {
        decimal(n as nat)
    }
}

/// A JSON number for an optional signed value, `null` when absent.
pub open spec fn opt_signed_text(n: Option<i32>) -> Seq<char> {
    match n {
        Some(v) => signed_text(v as int),
        None => "null"@,
    }
}

fn push_joined(out: &mut Vec<char>, parts: &Vec<Vec<char>>, sep: char)
    ensures
        final(out)@ == old(out)@ + join(crate::text::views(parts@), seq![sep]),
{
    let ghost start = out@;
    let mut i: usize = 0;
    while i < parts.len()
        invariant
            i <= parts.len(),
            out@ == start + join(crate::text::views(parts@).take(i as int), seq![sep]),
        decreases parts.len() - i,
    {
        let ghost before = out@;
        if i > 0 {
            out.push(sep);
        }
        extend_chars(out, &parts[i]);
        proof {
            let ps = crate::text::views(parts@);
            assert(ps.take(i + 1).drop_last() =~= ps.take(i as int));
            assert(ps.take(i + 1).last() == parts@[i as int]@);
            if i == 0 {
                assert(join(ps.take(0), seq![sep]) =~= seq![]);
                assert(join(ps.take(1), seq![sep]) == ps.take(1)[0]);
                assert(out@ =~= start + join(ps.take(i + 1), seq![sep]));
            } else {
                assert(join(ps.take(i + 1), seq![sep]) == join(ps.take(i as int), seq![sep]) + seq![
                    sep,
                ] + parts@[i as int]@);
                assert(out@ =~= start + join(ps.take(i + 1), seq![sep]));
            }
        }
        i = i + 1;
    }
    assert(crate::text::views(parts@).take(parts@.len() as int) =~= crate::text::views(parts@));
}

/// A JSON object with the given members, in order.
pub fn json_object(entries: &Vec<(String, String)>) -> (r: String)
    ensures
        r@ == object_text(entries_view(entries@)),
{
    let mut parts: Vec<Vec<char>> = Vec::new();
    let ghost ev = entries_view(entries@);
    let mut i: usize = 0;
    while i < entries.len()
        invariant
            i <= entries.len(),
            ev == entries_view(entries@),
            crate::text::views(parts@) == ev.take(i as int).map_values(
                |e: (Seq<char>, Seq<char>)| member_text(e.0, e.1),
            ),
        decreases entries.len() - i,
    {
        let k = json_string(entries[i].0.as_str());
        let mut m: Vec<char> = Vec::new();
        extend_str(&mut m, k.as_str());
        m.push(':');
        extend_str(&mut m, entries[i].1.as_str());
        let ghost before = crate::text::views(parts@);
        proof {
            assert(ev[i as int] == (entries@[i as int].0@, entries@[i as int].1@));
            assert(m@ =~= member_text(ev[i as int].0, ev[i as int].1));
        }
        parts.push(m);
        proof {
            assert(crate::text::views(parts@) =~= before.push(m@));
            assert(ev.take(i + 1).map_values(|e: (Seq<char>, Seq<char>)| member_text(e.0, e.1))
                =~= ev.take(i as int).map_values(
                |e: (Seq<char>, Seq<char>)| member_text(e.0, e.1),
            ).push(member_text(ev[i as int].0, ev[i as int].1)));
        }
        i = i + 1;
    }
    assert(ev.take(ev.len() as int) =~= ev);
    let mut out: Vec<char> = Vec::new();
    out.push('{');
    push_joined(&mut out, &parts, ',');
    out.push('}');
    assert(out@ =~= object_text(ev));
    string_of(&out)
}

/// A JSON array of the given strings.
pub fn json_string_array(items: &Vec<String>) -> (r: String)
    ensures
        r@ == string_array_text(crate::text::strs(items@)),
{
    let ghost iv = crate::text::strs(items@);
    let mut parts: Vec<Vec<char>> = Vec::new();
    let mut i: usize = 0;
    while i < items.len()
        invariant
            i <= items.len(),
            iv == crate::text::strs(items@),
            crate::text::views(parts@) == iv.take(i as int).map_values(
                |s: Seq<char>| json_string_text(s),
            ),
        decreases items.len() - i,
    {
        let q = json_string(items[i].as_str());
        let mut m: Vec<char> = Vec::new();
        extend_str(&mut m, q.as_str());
        let ghost before = crate::text::views(parts@);
        parts.push(m);
        proof {
            assert(crate::text::views(parts@) =~= before.push(m@));
            assert(iv.take(i + 1).map_values(|s: Seq<char>| json_string_text(s)) =~= iv.take(
                i as int,
            ).map_values(|s: Seq<char>| json_string_text(s)).push(json_string_text(iv[i as int])));
        }
        i = i + 1;
    }
    assert(iv.take(iv.len() as int) =~= iv);
    let mut out: Vec<char> = Vec::new();
    out.push('[');
    push_joined(&mut out, &parts, ',');
    out.push(']');
    assert(out@ =~= string_array_text(iv));
    string_of(&out)
}

/// A JSON number, or `null`.
pub fn json_opt_number(n: Option<u64>) -> (r: String)
    ensures
        r@ == opt_number_text(n),
{
    match n {
        Some(v) => crate::text::decimal_string(v),
        None => crate::text::string_from("null"),
    }
}

/// A JSON number for a signed value, or `null`.
pub fn json_opt_signed(n: Option<i32>) -> (r: String)
    ensures
        r@ == opt_signed_text(n),
{
    match n {
        None => crate::text::string_from("null"),
        Some(v) => {
            let mut out: Vec<char> = Vec::new();
            if v < 0 {
                out.push('-');
                let mag: u64 = (-(v as i64)) as u64;
                push_decimal(&mut out, mag);
                assert(out@ =~= signed_text(v as int));
            } else {
                push_decimal(&mut out, v as u64);
                assert(out@ =~= signed_text(v as int));
            }
            string_of(&out)
        },
    }
}

} // verus!
