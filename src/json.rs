//! The JSON the protocol speaks: values as a driver replies with them, and
//! the text of the flat objects that requests carry.
use vstd::prelude::*;
use crate::text::{push_char, push_str};

verus! {

/// A JSON value. A number keeps the text it was written with.
#[derive(Debug)]
pub enum Json {
    Null,
    Bool(bool),
    Number(String),
    Str(String),
    Array(Vec<Json>),
    Object(Vec<(String, Json)>),
}

/// The value of the first member of an object named `key`.
pub open spec fn field(members: Seq<(String, Json)>, key: Seq<char>) -> Option<Json>
    decreases members.len(),
{
    if members.len() == 0 {
        None
    } else if members[0].0@ == key {
        Some(members[0].1)
    } else {
        field(members.drop_first(), key)
    }
}

/// The member named `key` of `v`, where `v` is an object that has one.
pub open spec fn member(v: Json, key: Seq<char>) -> Option<Json> {
    match v {
        Json::Object(members) => field(members@, key),
        _ => None,
    }
}

proof fn lemma_field_first(members: Seq<(String, Json)>, key: Seq<char>, i: int)
    requires
        0 <= i <= members.len(),
        forall|j: int| 0 <= j < i ==> members[j].0@ != key,
    ensures
        i < members.len() && members[i].0@ == key ==> field(members, key) == Some(members[i].1),
        i == members.len() ==> field(members, key) == None::<Json>,
    decreases i,
{
    if i > 0 {
        let rest = members.drop_first();
        assert forall|j: int| 0 <= j < i - 1 implies rest[j].0@ != key by {
            assert(rest[j] == members[j + 1]);
        }
        lemma_field_first(rest, key, i - 1);
    }
}

/// Takes the value of the first member named `key` out of an object's
/// members.
pub fn take_field(members: Vec<(String, Json)>, key: &str) -> (r: Option<Json>)
    ensures
        r == field(members@, key@),
{
    let ghost all = members@;
    let mut ms = members;
    let name = crate::text::owned(key);
    let mut i: usize = 0;
    while i < ms.len()
        invariant
            ms@ == all,
            all == members@,
            name@ == key@,
            i <= ms@.len(),
            forall|j: int| 0 <= j < i ==> ms@[j].0@ != key@,
        decreases ms@.len() - i,
    {
        let same = ms[i].0 == name;
        if same {
            proof {
                assert(ms@[i as int].0@ == key@);
                lemma_field_first(all, key@, i as int);
            }
            let pair = ms.remove(i);
            assert(pair == all[i as int]);
            return Some(pair.1);
        }
        i = i + 1;
    }
    proof {
        lemma_field_first(all, key@, i as int);
    }
    None
}

/// Takes the member named `key` out of `v`, where `v` is an object that has
/// one.
pub fn take_member(v: Json, key: &str) -> (r: Option<Json>)
    ensures
        r == member(v, key@),
{
    match v {
        Json::Object(members) => take_field(members, key),
        _ => None,
    }
}

/// The hexadecimal digit for `d`, lower case.
pub open spec fn hex_digit(d: u32) -> char {
    if d == 0 { '0' } else if d == 1 { '1' } else if d == 2 { '2' } else if d == 3 { '3' }
    else if d == 4 { '4' } else if d == 5 { '5' } else if d == 6 { '6' } else if d == 7 { '7' }
    else if d == 8 { '8' } else if d == 9 { '9' } else if d == 10 { 'a' } else if d == 11 { 'b' }
    else if d == 12 { 'c' } else if d == 13 { 'd' } else if d == 14 { 'e' } else { 'f' }
}

/// How a character stands inside a JSON string: quote and backslash
/// escaped, control characters by their short escape or as `\u00XX`, every
/// other character as it is.
pub open spec fn escape_char(c: char) -> Seq<char> {
    if c == '"' {
        seq!['\\', '"']
    } else if c == '\\' {
        seq!['\\', '\\']
    } else if c == '\n' {
        seq!['\\', 'n']
    } else if c == '\r' {
        seq!['\\', 'r']
    } else if c == '\t' {
        seq!['\\', 't']
    } else if c == '\u{8}' {
        seq!['\\', 'b']
    } else if c == '\u{c}' {
        seq!['\\', 'f']
    } else if (c as u32) < 0x20 {
        seq!['\\', 'u', '0', '0', hex_digit((c as u32) / 16), hex_digit((c as u32) % 16)]
    } else {
        seq![c]
    }
}

/// The characters of `s`, each escaped.
pub open spec fn escaped(s: Seq<char>) -> Seq<char>
    decreases s.len(),
{
    if s.len() == 0 {
        Seq::empty()
    } else {
        escaped(s.drop_last()) + escape_char(s.last())
    }
}

/// A JSON string literal holding `s`.
pub open spec fn quoted(s: Seq<char>) -> Seq<char> {
    seq!['"'] + escaped(s) + seq!['"']
}

/// One member of a flat object: `"name":"value"`.
pub open spec fn member_text(m: (String, String)) -> Seq<char> {
    quoted(m.0@) + seq![':'] + quoted(m.1@)
}

/// The members of a flat object, separated by commas.
pub open spec fn members_text(ms: Seq<(String, String)>) -> Seq<char>
    decreases ms.len(),
{
    if ms.len() == 0 {
        Seq::empty()
    } else if ms.len() == 1 {
        member_text(ms[0])
    } else {
        members_text(ms.drop_last()) + seq![','] + member_text(ms.last())
    }
}

/// The text of a JSON object whose members all hold strings.
pub open spec fn object_text(ms: Seq<(String, String)>) -> Seq<char> {
    seq!['{'] + members_text(ms) + seq!['}']
}

fn hex_char(d: u32) -> (c: char)
    requires
        d < 16,
    ensures
        c == hex_digit(d),
{
    if d == 0 { '0' } else if d == 1 { '1' } else if d == 2 { '2' } else if d == 3 { '3' }
    else if d == 4 { '4' } else if d == 5 { '5' } else if d == 6 { '6' } else if d == 7 { '7' }
    else if d == 8 { '8' } else if d == 9 { '9' } else if d == 10 { 'a' } else if d == 11 { 'b' }
    else if d == 12 { 'c' } else if d == 13 { 'd' } else if d == 14 { 'e' } else { 'f' }
}

fn push_escaped_char(out: &mut String, c: char)
    ensures
        final(out)@ == old(out)@ + escape_char(c),
{
    let ghost start = out@;
    let short: char = if c == '"' {
        '"'
    } else if c == '\\' {
        '\\'
    } else if c == '\n' {
        'n'
    } else if c == '\r' {
        'r'
    } else if c == '\t' {
        't'
    } else if c == '\u{8}' {
        'b'
    } else if c == '\u{c}' {
        'f'
    } else {
        ' '
    };
    if short != ' ' {
        push_char(out, '\\');
        push_char(out, short);
    } else if (c as u32) < 0x20 {
        push_char(out, '\\');
        push_char(out, 'u');
        push_char(out, '0');
        push_char(out, '0');
        push_char(out, hex_char((c as u32) / 16));
        push_char(out, hex_char((c as u32) % 16));
    } else {
        push_char(out, c);
    }
    proof {
        assert(out@ =~= start + escape_char(c));
    }
}

/// Appends `s` as a JSON string literal.
pub fn push_quoted(out: &mut String, s: &str)
    ensures
        final(out)@ == old(out)@ + quoted(s@),
{
    let ghost start = out@;
    push_char(out, '"');
    let n = s.unicode_len();
    let mut i: usize = 0;
    proof {
        assert(s@.subrange(0, 0) =~= Seq::<char>::empty());
        assert(out@ =~= start + seq!['"'] + escaped(s@.subrange(0, 0)));
    }
    while i < n
        invariant
            n == s@.len(),
            i <= n,
            out@ =~= start + seq!['"'] + escaped(s@.subrange(0, i as int)),
        decreases n - i,
    {
        let c = s.get_char(i);
        push_escaped_char(out, c);
        i = i + 1;
        proof {
            let pre = s@.subrange(0, i as int);
            assert(pre.drop_last() =~= s@.subrange(0, i - 1));
            assert(pre.last() == c);
        }
    }
    push_char(out, '"');
    proof {
        assert(s@.subrange(0, n as int) =~= s@);
        assert(out@ =~= start + quoted(s@));
    }
}

/// The text of a JSON object whose members all hold strings, in the order
/// given.
pub fn object_to_text(ms: &Vec<(String, String)>) -> (r: String)
    ensures
        r@ == object_text(ms@),
{
    let mut r = String::new();
    push_char(&mut r, '{');
    let mut i: usize = 0;
    while i < ms.len()
        invariant
            i <= ms@.len(),
            r@ =~= seq!['{'] + members_text(ms@.subrange(0, i as int)),
        decreases ms@.len() - i,
    {
        let ghost before = r@;
        if i > 0 {
            push_char(&mut r, ',');
        }
        push_quoted(&mut r, ms[i].0.as_str());
        push_char(&mut r, ':');
        push_quoted(&mut r, ms[i].1.as_str());
        i = i + 1;
        proof {
            let pre = ms@.subrange(0, i as int);
            assert(pre.drop_last() =~= ms@.subrange(0, i - 1));
            assert(pre.last() == ms@[i - 1]);
            if i == 1 {
                assert(r@ =~= before + member_text(ms@[0]));
            } else {
                assert(r@ =~= before + seq![','] + member_text(ms@[i - 1]));
            }
        }
    }
    push_char(&mut r, '}');
    proof {
        assert(ms@.subrange(0, i as int) =~= ms@);
    }
    r
}

} // verus!
