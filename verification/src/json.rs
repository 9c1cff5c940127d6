//! JSON text: string literals as serde_json writes them, and the helpers that
//! assemble the compact JSON lines and bodies this server sends.
use vstd::prelude::*;
use crate::text::{chars_of, push_all, decimal, decimal_chars, hex_digit_lower};

verus! {

/// How serde_json writes one character inside a JSON string: quote, reverse
/// solidus and the control characters below U+0020 are escaped (the usual
/// short escapes where JSON has one, `\u00XX` with lower-case hex otherwise);
/// every other character stands for itself.
pub open spec fn json_escape_char(c: char) -> Seq<char> {
    if c == '"' {
        seq!['\\', '"']
    } else if c == '\\' {
        seq!['\\', '\\']
    } else if c == '\u{8}' {
        seq!['\\', 'b']
    } else if c == '\t' {
        seq!['\\', 't']
    } else if c == '\n' {
        seq!['\\', 'n']
    } else if c == '\u{c}' {
        seq!['\\', 'f']
    } else if c == '\r' {
        seq!['\\', 'r']
    } else if (c as u32) < 0x20 {
        seq!['\\', 'u', '0', '0', hex_digit_lower(((c as u32) / 16) as nat), hex_digit_lower(((c as u32) % 16) as nat)]
    } else {
        seq![c]
    }
}

/// The escaped contents of a JSON string holding `s`.
pub open spec fn json_escaped(s: Seq<char>) -> Seq<char>
    decreases s.len(),
{
    if s.len() == 0 {
        Seq::<char>::empty()
    } else {
        json_escaped(s.drop_last()) + json_escape_char(s.last())
    }
}

/// The JSON string literal for `s`, quotes included.
pub open spec fn json_quoted(s: Seq<char>) -> Seq<char> {
    seq!['"'] + json_escaped(s) + seq!['"']
}

/// Calls `serde_json::to_string` on a string slice. Per serde_json's source
/// (`format_escaped_str` and its `ESCAPE` table), the output is the quoted
/// string with exactly the escapes of `json_escape_char`; serialising a
/// string cannot fail.
#[verifier::external_body]
pub fn json_quote(s: &str) -> (res: String)
    ensures
        res@ == json_quoted(s@),
{
    match serde_json::to_string(s) {
        Ok(t) => t,
        Err(_) => String::new(),
    }
}

/// No escaped character is a line feed.
pub proof fn lemma_escape_char_has_no_line_feed(c: char)
    ensures
        !json_escape_char(c).contains('\n'),
{
    let e = json_escape_char(c);
    if c == '\n' {
        assert(e[0] != '\n' && e[1] != '\n');
    } else if (c as u32) < 0x20 && c != '\u{8}' && c != '\t' && c != '\u{c}' && c != '\r' {
        let hi = ((c as u32) / 16) as nat;
        let lo = ((c as u32) % 16) as nat;
        assert(hex_digit_lower(hi) != '\n' && hex_digit_lower(lo) != '\n');
    }
    assert(forall|i: int| 0 <= i < e.len() ==> e[i] != '\n');
}

/// An escaped JSON string never holds a raw line feed.
pub proof fn lemma_escaped_has_no_line_feed(s: Seq<char>)
    ensures
        !json_escaped(s).contains('\n'),
    decreases s.len(),
{
    if s.len() > 0 {
        lemma_escaped_has_no_line_feed(s.drop_last());
        lemma_escape_char_has_no_line_feed(s.last());
        let a = json_escaped(s.drop_last());
        let b = json_escape_char(s.last());
        assert forall|i: int| 0 <= i < (a + b).len() implies (a + b)[i] != '\n' by {
            if i < a.len() {
                assert((a + b)[i] == a[i]);
            } else {
                assert((a + b)[i] == b[i - a.len()]);
            }
        }
    }
}

/// A quoted JSON string never holds a raw line feed.
pub proof fn lemma_quoted_has_no_line_feed(s: Seq<char>)
    ensures
        !json_quoted(s).contains('\n'),
{
    lemma_escaped_has_no_line_feed(s);
    let q = json_quoted(s);
    let e = json_escaped(s);
    assert forall|i: int| 0 <= i < q.len() implies q[i] != '\n' by {
        if i > 0 && i < q.len() - 1 {
            assert(q[i] == e[i - 1]);
        }
    }
}

/// Appends the text `lit`.
pub fn push_text(out: &mut Vec<char>, lit: &str)
    ensures
        final(out)@ == old(out)@ + lit@,
{
    let l = chars_of(lit);
    push_all(out, &l);
}

/// Appends `s` as a quoted JSON string.
pub fn push_json_string(out: &mut Vec<char>, s: &str)
    ensures
        final(out)@ == old(out)@ + json_quoted(s@),
{
    let q = json_quote(s);
    let l = chars_of(q.as_str());
    push_all(out, &l);
}

/// Appends `n` in decimal.
pub fn push_decimal(out: &mut Vec<char>, n: u64)
    ensures
        final(out)@ == old(out)@ + decimal(n as nat),
{
    let d = decimal_chars(n);
    push_all(out, &d);
}

} // verus!

verus! {

/// `serde_json::Value`, carried through as an opaque value: option and
/// embedding values are passed on unread.
#[verifier::external_type_specification]
#[verifier::external_body]
pub struct ExJsonValue(serde_json::Value);

/// Calls `Clone::clone` on a `serde_json::Value`, whose `Clone` is derived:
/// the copy is the same value.
#[verifier::external_body]
pub fn clone_json(v: &serde_json::Value) -> (res: serde_json::Value)
    ensures
        res == *v,
{
    v.clone()
}

/// The members of a JSON object as (key, value) pairs, keys as characters.
pub open spec fn members_view(m: Seq<(String, serde_json::Value)>) -> Seq<(Seq<char>, serde_json::Value)> {
    m.map_values(|p: (String, serde_json::Value)| (p.0@, p.1))
}

/// The value of the first member named `key`, if any.
pub open spec fn member(m: Seq<(Seq<char>, serde_json::Value)>, key: Seq<char>) -> Option<serde_json::Value>
    decreases m.len(),
{
    if m.len() == 0 {
        None
    } else if m[0].0 == key {
        Some(m[0].1)
    } else {
        member(m.subrange(1, m.len() as int), key)
    }
}

/// The value of the first member of `m` named `key`.
pub fn get_member(m: &Vec<(String, serde_json::Value)>, key: &str) -> (res: Option<serde_json::Value>)
    ensures
        res == member(members_view(m@), key@),
{
    let n = m.len();
    let k = crate::text::chars_of(key);
    let ghost all = members_view(m@);
    assert(all.subrange(0, n as int) == all);
    for i in 0..n
        invariant
            n == m@.len(),
            all == members_view(m@),
            k@ == key@,
            member(all, key@) == member(all.subrange(i as int, n as int), key@),
    {
        let ghost rest = all.subrange(i as int, n as int);
        assert(rest[0] == (m@[i as int].0@, m@[i as int].1));
        assert(rest.subrange(1, rest.len() as int) == all.subrange(i + 1, n as int));
        let name = crate::text::chars_of(m[i].0.as_str());
        if crate::text::same_chars(&name, &k) {
            return Some(clone_json(&m[i].1));
        }
    }
    None
}

} // verus!

verus! {

/// A JSON value as the library reads it. Numbers are kept as their text;
/// an object's members are in the order its map keeps them, each key once.
pub enum Json {
    Null,
    Bool(bool),
    Number(String),
    Text(String),
    Array(Vec<Json>),
    Object(Vec<(String, Json)>),
}

/// The JSON document that `text` holds, when it parses.
pub uninterp spec fn json_document(text: Seq<char>) -> Option<Json>;

/// Parses `text` with `serde_json::from_str` into a `serde_json::Value`
/// and converts it, variant by variant, into a [`Json`]; `None` when it
/// does not parse. The result is named `json_document` of the text.
#[verifier::external_body]
pub fn parse_json(text: &str) -> (res: Option<Json>)
    ensures
        res == json_document(text@),
{
    match serde_json::from_str::<serde_json::Value>(text) {
        Ok(v) => Some(json_from_value(&v)),
        Err(_) => None,
    }
}

/// The conversion inside [`parse_json`]: each `serde_json::Value` variant
/// to the [`Json`] variant of the same name, a number to its `Display` text,
/// arrays and objects element by element in their order.
#[verifier::external_body]
fn json_from_value(v: &serde_json::Value) -> (res: Json) {
    match v {
        serde_json::Value::Null => Json::Null,
        serde_json::Value::Bool(b) => Json::Bool(*b),
        serde_json::Value::Number(n) => Json::Number(n.to_string()),
        serde_json::Value::String(s) => Json::Text(s.clone()),
        serde_json::Value::Array(a) => Json::Array(a.iter().map(json_from_value).collect()),
        serde_json::Value::Object(m) => Json::Object(m.iter().map(|(k, x)| (k.clone(), json_from_value(x))).collect()),
    }
}

/// The value of the first of `members` named `key`.
pub open spec fn member_in(members: Seq<(String, Json)>, key: Seq<char>) -> Option<Json>
    decreases members.len(),
{
    if members.len() == 0 {
        None
    } else if members[0].0@ == key {
        Some(members[0].1)
    } else {
        member_in(members.subrange(1, members.len() as int), key)
    }
}

/// The member `key` of `j`, when `j` is an object that has one.
pub open spec fn at_key(j: Option<Json>, key: Seq<char>) -> Option<Json> {
    match j {
        Some(Json::Object(m)) => member_in(m@, key),
        _ => None,
    }
}

/// The element `i` of `j`, when `j` is an array that long.
pub open spec fn at_index(j: Option<Json>, i: int) -> Option<Json> {
    match j {
        Some(Json::Array(a)) => if 0 <= i < a@.len() { Some(a@[i]) } else { None },
        _ => None,
    }
}

/// The text of `j`, when it is a string.
pub open spec fn text_in(j: Option<Json>) -> Option<Seq<char>> {
    match j {
        Some(Json::Text(s)) => Some(s@),
        _ => None,
    }
}

/// The value of `j`, when it is a boolean.
pub open spec fn flag_in(j: Option<Json>) -> Option<bool> {
    match j {
        Some(Json::Bool(b)) => Some(b),
        _ => None,
    }
}

/// Takes the member `key` out of `j`.
pub fn take_key(j: Option<Json>, key: &str) -> (res: Option<Json>)
    ensures
        res == at_key(j, key@),
{
    let ghost given = j;
    match j {
        Some(Json::Object(m)) => {
            let mut m = m;
            let ghost all = m@;
            assert(at_key(given, key@) == member_in(all, key@));
            let k = chars_of(key);
            let n = m.len();
            assert(all.subrange(0, n as int) == all);
            for i in 0..n
                invariant
                    n == m@.len(),
                    m@ == all,
                    k@ == key@,
                    at_key(given, key@) == member_in(all, key@),
                    given == j,
                    member_in(all, key@) == member_in(all.subrange(i as int, n as int), key@),
            {
                let ghost rest = all.subrange(i as int, n as int);
                assert(rest.subrange(1, rest.len() as int) == all.subrange(i + 1, n as int));
                assert(rest[0] == all[i as int]);
                if crate::text::same_chars(&chars_of(m[i].0.as_str()), &k) {
                    assert(all[i as int].0@ == key@);
                    assert(member_in(rest, key@) == Some(rest[0].1));
                    let found = m.remove(i);
                    assert(found == all[i as int]);
                    return Some(found.1);
                }
            }
            assert(all.subrange(n as int, n as int).len() == 0);
            None
        },
        _ => None,
    }
}

/// Takes the element `i` out of `j`.
pub fn take_index(j: Option<Json>, i: usize) -> (res: Option<Json>)
    ensures
        res == at_index(j, i as int),
{
    match j {
        Some(Json::Array(a)) => {
            let mut a = a;
            if i < a.len() {
                Some(a.remove(i))
            } else {
                None
            }
        },
        _ => None,
    }
}

/// The text of `j`, when it is a string.
pub fn take_text(j: Option<Json>) -> (res: Option<String>)
    ensures
        crate::text::opt_text(res) == text_in(j),
{
    match j {
        Some(Json::Text(s)) => Some(s),
        _ => None,
    }
}

/// The position of the first of `m` named `key`, if any.
fn key_position(m: &Vec<(String, Json)>, key: &str) -> (res: Option<usize>)
    ensures
        match res {
            Some(i) => i < m@.len() && member_in(m@, key@) == Some(m@[i as int].1),
            None => member_in(m@, key@) is None,
        },
{
    let k = chars_of(key);
    let n = m.len();
    assert(m@.subrange(0, n as int) == m@);
    for i in 0..n
        invariant
            n == m@.len(),
            k@ == key@,
            member_in(m@, key@) == member_in(m@.subrange(i as int, n as int), key@),
    {
        let ghost rest = m@.subrange(i as int, n as int);
        assert(rest.subrange(1, rest.len() as int) == m@.subrange(i + 1, n as int));
        assert(rest[0] == m@[i as int]);
        if crate::text::same_chars(&chars_of(m[i].0.as_str()), &k) {
            return Some(i);
        }
    }
    assert(m@.subrange(n as int, n as int).len() == 0);
    None
}

/// The text of member `key` of `j`, when `j` is an object whose member
/// `key` is a string.
pub fn text_at(j: &Json, key: &str) -> (res: Option<String>)
    ensures
        crate::text::opt_text(res) == text_in(at_key(Some(*j), key@)),
{
    match j {
        Json::Object(m) => match key_position(m, key) {
            Some(i) => match &m[i].1 {
                Json::Text(t) => Some(crate::text::owned(t.as_str())),
                _ => None,
            },
            None => None,
        },
        _ => None,
    }
}

/// The value of member `key` of `j`, when `j` is an object whose member
/// `key` is a boolean.
pub fn flag_at(j: &Json, key: &str) -> (res: Option<bool>)
    ensures
        res == flag_in(at_key(Some(*j), key@)),
{
    match j {
        Json::Object(m) => match key_position(m, key) {
            Some(i) => match &m[i].1 {
                Json::Bool(b) => Some(*b),
                _ => None,
            },
            None => None,
        },
        _ => None,
    }
}

} // verus!
