//! JSON text production for the request bodies this SDK sends.
//!
//! The serializer is written here directly, so that every body the SDK puts
//! on the wire is pinned down character by character by the spec functions
//! below.  Strings are escaped the canonical way: `"` and `\` get a
//! backslash, the common control characters get their short escapes, and any
//! other control character becomes `\u00XX`.
use vstd::prelude::*;
use crate::strutil::{push_char, i32_to_string, int_str};

verus! {

/// Hexadecimal digit characters (lower case), for `\u00XX` escapes.
pub open spec fn hex_digit(d: int) -> char {
    if d == 0 { '0' }
    else if d == 1 { '1' }
    else if d == 2 { '2' }
    else if d == 3 { '3' }
    else if d == 4 { '4' }
    else if d == 5 { '5' }
    else if d == 6 { '6' }
    else if d == 7 { '7' }
    else if d == 8 { '8' }
    else if d == 9 { '9' }
    else if d == 10 { 'a' }
    else if d == 11 { 'b' }
    else if d == 12 { 'c' }
    else if d == 13 { 'd' }
    else if d == 14 { 'e' }
    else { 'f' }
}

/// How a single character appears inside a JSON string literal.
pub open spec fn escape_char(c: char) -> Seq<char> {
    if c == '"' {
        seq!['\\', '"']
    } else if c == '\\' {
        seq!['\\', '\\']
    } else if c == '\n' {
        seq!['\\', 'n']
    } else if c == '\r' {
        seq!['\\', 'r']
    } else if c == '\t' {
        seq!['\\', 't']
    } else if (c as u32) < 32 {
        seq!['\\', 'u', '0', '0', hex_digit(c as u32 as int / 16), hex_digit(c as u32 as int % 16)]
    } else {
        seq![c]
    }
}

/// How a whole character sequence appears inside a JSON string literal.
pub open spec fn escape_str(s: Seq<char>) -> Seq<char>
    decreases s.len(),
{
    if s.len() == 0 {
        Seq::empty()
    } else {
        escape_char(s[0]) + escape_str(s.drop_first())
    }
}

/// Escaping distributes over appending one character at the end.
pub proof fn lemma_escape_push(s: Seq<char>, c: char)
    ensures
        escape_str(s.push(c)) == escape_str(s) + escape_char(c),
    decreases s.len(),
{
    let t = s.push(c);
    if s.len() == 0 {
        assert(t[0] == c);
        assert(t.drop_first() =~= Seq::<char>::empty());
        assert(escape_str(t.drop_first()) =~= Seq::<char>::empty());
        assert(escape_str(t) =~= escape_char(c) + escape_str(t.drop_first()));
        assert(escape_str(s) =~= Seq::<char>::empty());
        assert(escape_str(t) =~= escape_str(s) + escape_char(c));
    } else {
        assert(t[0] == s[0]);
        assert(t.drop_first() =~= s.drop_first().push(c));
        lemma_escape_push(s.drop_first(), c);
        assert(escape_str(t) =~= escape_char(s[0]) + (escape_str(s.drop_first()) + escape_char(c)));
        assert(escape_str(t) =~= escape_str(s) + escape_char(c));
    }
}

/// A JSON string literal: quote, escaped contents, quote.
pub open spec fn json_string(s: Seq<char>) -> Seq<char> {
    seq!['"'] + escape_str(s) + seq!['"']
}

/// A JSON number literal for an integer value.
pub open spec fn json_int(n: int) -> Seq<char> {
    int_str(n)
}

fn hex_digit_char(d: u32) -> (c: char)
    requires
        d < 16,
    ensures
        c == hex_digit(d as int),
{
    if d == 0 { '0' }
    else if d == 1 { '1' }
    else if d == 2 { '2' }
    else if d == 3 { '3' }
    else if d == 4 { '4' }
    else if d == 5 { '5' }
    else if d == 6 { '6' }
    else if d == 7 { '7' }
    else if d == 8 { '8' }
    else if d == 9 { '9' }
    else if d == 10 { 'a' }
    else if d == 11 { 'b' }
    else if d == 12 { 'c' }
    else if d == 13 { 'd' }
    else if d == 14 { 'e' }
    else { 'f' }
}

fn append_escaped_char(out: &mut String, c: char)
    ensures
        final(out)@ == old(out)@ + escape_char(c),
{
    if c == '"' {
        push_char(out, '\\');
        push_char(out, '"');
    } else if c == '\\' {
        push_char(out, '\\');
        push_char(out, '\\');
    } else if c == '\n' {
        push_char(out, '\\');
        push_char(out, 'n');
    } else if c == '\r' {
        push_char(out, '\\');
        push_char(out, 'r');
    } else if c == '\t' {
        push_char(out, '\\');
        push_char(out, 't');
    } else if (c as u32) < 32 {
        let v = c as u32;
        push_char(out, '\\');
        push_char(out, 'u');
        push_char(out, '0');
        push_char(out, '0');
        push_char(out, hex_digit_char(v / 16));
        push_char(out, hex_digit_char(v % 16));
        assert(final(out)@ =~= old(out)@ + escape_char(c));
    } else {
        push_char(out, c);
    }
    assert(final(out)@ =~= old(out)@ + escape_char(c));
}

/// Appends the escaped form of `s` to `out`.
pub fn append_escaped(out: &mut String, s: &str)
    ensures
        final(out)@ == old(out)@ + escape_str(s@),
{
    let len = s.unicode_len();
    let mut i: usize = 0;
    while i < len
        invariant
            len == s@.len(),
            i <= len,
            out@ == old(out)@ + escape_str(s@.subrange(0, i as int)),
        decreases len - i,
    {
        let c = s.get_char(i);
        append_escaped_char(out, c);
        proof {
            assert(s@.subrange(0, i + 1) =~= s@.subrange(0, i as int).push(s@[i as int]));
            lemma_escape_push(s@.subrange(0, i as int), s@[i as int]);
            assert(out@ =~= old(out)@ + escape_str(s@.subrange(0, i + 1)));
        }
        i += 1;
    }
    assert(s@.subrange(0, len as int) =~= s@);
}

/// Appends a JSON string literal holding `s` to `out`.
pub fn append_json_string(out: &mut String, s: &str)
    ensures
        final(out)@ == old(out)@ + json_string(s@),
{
    push_char(out, '"');
    append_escaped(out, s);
    push_char(out, '"');
    assert(final(out)@ =~= old(out)@ + json_string(s@));
}

/// Appends a JSON number literal holding `n` to `out`.
pub fn append_json_int(out: &mut String, n: i32)
    ensures
        final(out)@ == old(out)@ + json_int(n as int),
{
    let digits = i32_to_string(n);
    out.append(digits.as_str());
}

/// A `"key":` prefix for an object member.
pub open spec fn json_key(name: Seq<char>) -> Seq<char> {
    json_string(name) + seq![':']
}

/// Appends `"name":` to `out`.
pub fn append_json_key(out: &mut String, name: &str)
    ensures
        final(out)@ == old(out)@ + json_key(name@),
{
    append_json_string(out, name);
    push_char(out, ':');
    assert(final(out)@ =~= old(out)@ + json_key(name@));
}

} // verus!
