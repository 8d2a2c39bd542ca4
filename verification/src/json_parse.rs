//! JSON text consumption for the response bodies this SDK reads.
//!
//! The upstream token and error responses are flat JSON objects whose member
//! values are strings and integers.  The grammar accepted here is exactly
//! that: one object, any member order, surrounding whitespace, string values
//! with the short escapes (`\"`, `\\`, `\/`, `\n`, `\t`, `\r`) and integer
//! values of up to 18 digits.  Anything else fails to parse and is reported
//! as a decode error by the callers.
//!
//! The spec functions below are the grammar; each executable parser returns
//! exactly what its spec function denotes.
use vstd::prelude::*;
use crate::strutil::push_char;

verus! {

/// Spec-level form of one member value: a string or an integer.
pub enum ScalarV {
    Str(Seq<char>),
    Int(int),
}

/// Spec-level form of one object member.
pub struct FieldV {
    pub key: Seq<char>,
    pub val: ScalarV,
}

/// One member value as parsed.
#[derive(Debug, Clone)]
pub enum JsonScalar {
    Str(String),
    Int(i64),
}

impl View for JsonScalar {
    type V = ScalarV;

    open spec fn view(&self) -> ScalarV {
        match self {
            JsonScalar::Str(s) => ScalarV::Str(s@),
            JsonScalar::Int(i) => ScalarV::Int(*i as int),
        }
    }
}

/// One object member as parsed.
#[derive(Debug, Clone)]
pub struct JsonField {
    pub key: String,
    pub value: JsonScalar,
}

impl View for JsonField {
    type V = FieldV;

    open spec fn view(&self) -> FieldV {
        FieldV { key: self.key@, val: self.value@ }
    }
}

/// The members of a parsed object, member by member.
pub open spec fn fields_view(v: Seq<JsonField>) -> Seq<FieldV> {
    v.map_values(|f: JsonField| f@)
}

/// JSON insignificant whitespace.
pub open spec fn is_ws(c: char) -> bool {
    c == ' ' || c == '\t' || c == '\n' || c == '\r'
}

/// The first position at or after `i` holding a non-whitespace character.
pub open spec fn skip_ws(s: Seq<char>, i: int) -> int
    decreases s.len() - i,
    when 0 <= i <= s.len()
{
    if i < s.len() && is_ws(s[i]) {
        skip_ws(s, i + 1)
    } else {
        i
    }
}

pub proof fn lemma_skip_ws_bounds(s: Seq<char>, i: int)
    requires
        0 <= i <= s.len(),
    ensures
        i <= skip_ws(s, i) <= s.len(),
    decreases s.len() - i,
{
    if i < s.len() && is_ws(s[i]) {
        lemma_skip_ws_bounds(s, i + 1);
    }
}

/// The character named by a backslash escape, if the escape is accepted.
pub open spec fn unescape_char(c: char) -> Option<char> {
    if c == '"' { Some('"') }
    else if c == '\\' { Some('\\') }
    else if c == '/' { Some('/') }
    else if c == 'n' { Some('\n') }
    else if c == 't' { Some('\t') }
    else if c == 'r' { Some('\r') }
    else { None }
}

/// Parses the rest of a string literal, starting just after a `"` or an
/// already-consumed character, up to and including the closing quote.
/// Returns the denoted contents and the position after the closing quote.
pub open spec fn parse_string_rest(s: Seq<char>, i: int) -> Option<(Seq<char>, int)>
    decreases s.len() - i,
    when 0 <= i <= s.len()
{
    if i >= s.len() {
        None
    } else if s[i] == '"' {
        Some((Seq::empty(), i + 1))
    } else if s[i] == '\\' {
        if i + 1 >= s.len() {
            None
        } else {
            match unescape_char(s[i + 1]) {
                Some(c) => match parse_string_rest(s, i + 2) {
                    Some(p) => Some((seq![c] + p.0, p.1)),
                    None => None,
                },
                None => None,
            }
        }
    } else if (s[i] as u32) < 32 {
        None
    } else {
        match parse_string_rest(s, i + 1) {
            Some(p) => Some((seq![s[i]] + p.0, p.1)),
            None => None,
        }
    }
}

pub proof fn lemma_parse_string_rest_bounds(s: Seq<char>, i: int)
    requires
        0 <= i <= s.len(),
    ensures
        parse_string_rest(s, i) matches Some(p) ==> i < p.1 <= s.len(),
    decreases s.len() - i,
{
    if i < s.len() && s[i] != '"' {
        if s[i] == '\\' {
            if i + 1 < s.len() {
                lemma_parse_string_rest_bounds(s, i + 2);
            }
        } else {
            lemma_parse_string_rest_bounds(s, i + 1);
        }
    }
}

/// A decimal digit.
pub open spec fn is_digit(c: char) -> bool {
    '0' as u32 <= c as u32 <= '9' as u32
}

/// The value of a decimal digit character.
pub open spec fn digit_val(c: char) -> int {
    c as u32 - '0' as u32
}

/// Parses a run of decimal digits into `acc`, capped at 18 digits in all so
/// that every accepted number fits comfortably in an `i64`.
pub open spec fn parse_digits(s: Seq<char>, i: int, acc: int, count: int) -> Option<(int, int)>
    decreases s.len() - i,
    when 0 <= i <= s.len()
{
    if i < s.len() && is_digit(s[i]) {
        if count >= 18 {
            None
        } else {
            parse_digits(s, i + 1, acc * 10 + digit_val(s[i]), count + 1)
        }
    } else if count > 0 {
        Some((acc, i))
    } else {
        None
    }
}

pub proof fn lemma_parse_digits_bounds(s: Seq<char>, i: int, acc: int, count: int)
    requires
        0 <= i <= s.len(),
    ensures
        parse_digits(s, i, acc, count) matches Some(p) ==> i <= p.1 <= s.len(),
    decreases s.len() - i,
{
    if i < s.len() && is_digit(s[i]) && count < 18 {
        lemma_parse_digits_bounds(s, i + 1, acc * 10 + digit_val(s[i]), count + 1);
    }
}

/// Parses an integer literal: an optional minus sign, then digits.
pub open spec fn parse_int_at(s: Seq<char>, i: int) -> Option<(int, int)> {
    if i < s.len() && s[i] == '-' {
        match parse_digits(s, i + 1, 0, 0) {
            Some(p) => Some((-p.0, p.1)),
            None => None,
        }
    } else {
        parse_digits(s, i, 0, 0)
    }
}

pub proof fn lemma_parse_int_at_bounds(s: Seq<char>, i: int)
    requires
        0 <= i <= s.len(),
    ensures
        parse_int_at(s, i) matches Some(p) ==> i <= p.1 <= s.len(),
{
    if i < s.len() && s[i] == '-' {
        lemma_parse_digits_bounds(s, i + 1, 0, 0);
    } else {
        lemma_parse_digits_bounds(s, i, 0, 0);
    }
}

/// Parses one member value: a string literal or an integer literal.
pub open spec fn parse_value_at(s: Seq<char>, i: int) -> Option<(ScalarV, int)> {
    if i < s.len() && s[i] == '"' {
        match parse_string_rest(s, i + 1) {
            Some(p) => Some((ScalarV::Str(p.0), p.1)),
            None => None,
        }
    } else if i < s.len() && (s[i] == '-' || is_digit(s[i])) {
        match parse_int_at(s, i) {
            Some(p) => Some((ScalarV::Int(p.0), p.1)),
            None => None,
        }
    } else {
        None
    }
}

pub proof fn lemma_parse_value_at_bounds(s: Seq<char>, i: int)
    requires
        0 <= i <= s.len(),
    ensures
        parse_value_at(s, i) matches Some(p) ==> i <= p.1 <= s.len(),
{
    if i < s.len() && s[i] == '"' {
        lemma_parse_string_rest_bounds(s, i + 1);
    } else if i < s.len() && (s[i] == '-' || is_digit(s[i])) {
        lemma_parse_int_at_bounds(s, i);
    }
}

/// Parses one `"key" : value` member, leading whitespace included.
pub open spec fn parse_member_at(s: Seq<char>, i: int) -> Option<(FieldV, int)>
    recommends
        0 <= i <= s.len(),
{
    let j = skip_ws(s, i);
    if j < s.len() && s[j] == '"' {
        match parse_string_rest(s, j + 1) {
            Some(kp) => {
                let m = skip_ws(s, kp.1);
                if m < s.len() && s[m] == ':' {
                    let v = skip_ws(s, m + 1);
                    match parse_value_at(s, v) {
                        Some(vp) => Some((FieldV { key: kp.0, val: vp.0 }, vp.1)),
                        None => None,
                    }
                } else {
                    None
                }
            },
            None => None,
        }
    } else {
        None
    }
}

pub proof fn lemma_parse_member_at_bounds(s: Seq<char>, i: int)
    requires
        0 <= i <= s.len(),
    ensures
        parse_member_at(s, i) matches Some(p) ==> i < p.1 <= s.len(),
{
    lemma_skip_ws_bounds(s, i);
    let j = skip_ws(s, i);
    if j < s.len() && s[j] == '"' {
        lemma_parse_string_rest_bounds(s, j + 1);
        match parse_string_rest(s, j + 1) {
            Some(kp) => {
                lemma_skip_ws_bounds(s, kp.1);
                let m = skip_ws(s, kp.1);
                if m < s.len() && s[m] == ':' {
                    lemma_skip_ws_bounds(s, m + 1);
                    lemma_parse_value_at_bounds(s, skip_ws(s, m + 1));
                }
            },
            None => {},
        }
    }
}

/// Parses the members of an object, starting after the opening `{` or after
/// a `,`, up to and including the closing `}`.
pub open spec fn parse_members_at(s: Seq<char>, i: int) -> Option<(Seq<FieldV>, int)>
    decreases s.len() - i,
    when 0 <= i <= s.len()
    via parse_members_at_dec
{
    match parse_member_at(s, i) {
        Some(fp) => {
            let k = skip_ws(s, fp.1);
            if k < s.len() && s[k] == ',' {
                match parse_members_at(s, k + 1) {
                    Some(rp) => Some((seq![fp.0] + rp.0, rp.1)),
                    None => None,
                }
            } else if k < s.len() && s[k] == '}' {
                Some((seq![fp.0], k + 1))
            } else {
                None
            }
        },
        None => None,
    }
}

#[via_fn]
proof fn parse_members_at_dec(s: Seq<char>, i: int) {
    lemma_parse_member_at_bounds(s, i);
    match parse_member_at(s, i) {
        Some(fp) => {
            lemma_skip_ws_bounds(s, fp.1);
        },
        None => {},
    }
}

pub proof fn lemma_parse_members_at_bounds(s: Seq<char>, i: int)
    requires
        0 <= i <= s.len(),
    ensures
        parse_members_at(s, i) matches Some(p) ==> i < p.1 <= s.len(),
    decreases s.len() - i,
{
    lemma_parse_member_at_bounds(s, i);
    match parse_member_at(s, i) {
        Some(fp) => {
            lemma_skip_ws_bounds(s, fp.1);
            let k = skip_ws(s, fp.1);
            if k < s.len() && s[k] == ',' {
                lemma_parse_members_at_bounds(s, k + 1);
            }
        },
        None => {},
    }
}

/// The members denoted by a complete JSON text, which must be one object
/// with nothing but whitespace around it.
pub open spec fn json_fields_of(s: Seq<char>) -> Option<Seq<FieldV>> {
    let i = skip_ws(s, 0);
    if i < s.len() && s[i] == '{' {
        let j = skip_ws(s, i + 1);
        if j < s.len() && s[j] == '}' {
            if skip_ws(s, j + 1) == s.len() {
                Some(Seq::empty())
            } else {
                None
            }
        } else {
            match parse_members_at(s, j) {
                Some(p) => if skip_ws(s, p.1) == s.len() {
                    Some(p.0)
                } else {
                    None
                },
                None => None,
            }
        }
    } else {
        None
    }
}

/// The value of the first member with the given key, if any.
pub open spec fn lookup_field(fs: Seq<FieldV>, key: Seq<char>) -> Option<ScalarV>
    decreases fs.len(),
{
    if fs.len() == 0 {
        None
    } else if fs[0].key == key {
        Some(fs[0].val)
    } else {
        lookup_field(fs.drop_first(), key)
    }
}

/// The string value of the member with the given key, if present with a
/// string value.
pub open spec fn str_field(fs: Seq<FieldV>, key: Seq<char>) -> Option<Seq<char>> {
    match lookup_field(fs, key) {
        Some(ScalarV::Str(s)) => Some(s),
        _ => None,
    }
}

/// The integer value of the member with the given key, if present with an
/// integer value.
pub open spec fn int_field(fs: Seq<FieldV>, key: Seq<char>) -> Option<int> {
    match lookup_field(fs, key) {
        Some(ScalarV::Int(n)) => Some(n),
        _ => None,
    }
}

/// Ten to the given power.
pub open spec fn pow10(n: nat) -> int
    decreases n,
{
    if n == 0 {
        1
    } else {
        10 * pow10((n - 1) as nat)
    }
}

proof fn lemma_pow10_mono(a: nat, b: nat)
    requires
        a <= b,
    ensures
        1 <= pow10(a) <= pow10(b),
    decreases b,
{
    if b == 0 {
    } else if a == b {
        lemma_pow10_mono((a - 1) as nat, (b - 1) as nat);
    } else {
        lemma_pow10_mono(a, (b - 1) as nat);
    }
}

/// Ten to the eighteenth, spelled out for the digit cap.
pub proof fn lemma_pow10_18()
    ensures
        pow10(18) == 1000000000000000000,
{
    assert(pow10(0) == 1);
    assert(pow10(1) == 10);
    assert(pow10(2) == 100);
    assert(pow10(3) == 1000);
    assert(pow10(4) == 10000);
    assert(pow10(5) == 100000);
    assert(pow10(6) == 1000000);
    assert(pow10(7) == 10000000);
    assert(pow10(8) == 100000000);
    assert(pow10(9) == 1000000000);
    assert(pow10(10) == 10000000000);
    assert(pow10(11) == 100000000000);
    assert(pow10(12) == 1000000000000);
    assert(pow10(13) == 10000000000000);
    assert(pow10(14) == 100000000000000);
    assert(pow10(15) == 1000000000000000);
    assert(pow10(16) == 10000000000000000);
    assert(pow10(17) == 100000000000000000);
    assert(pow10(18) == 1000000000000000000);
}

/// Advances past whitespace, returning the position of the first
/// non-whitespace character.
pub fn skip_ws_exec(s: &str, i: usize) -> (r: usize)
    requires
        i <= s@.len(),
    ensures
        i <= r <= s@.len(),
        r as int == skip_ws(s@, i as int),
{
    let len = s.unicode_len();
    let mut j = i;
    while j < len && is_ws_exec(s.get_char(j))
        invariant
            i <= j <= len,
            len == s@.len(),
            skip_ws(s@, i as int) == skip_ws(s@, j as int),
        decreases len - j,
    {
        j += 1;
    }
    j
}

fn is_ws_exec(c: char) -> (r: bool)
    ensures
        r == is_ws(c),
{
    c == ' ' || c == '\t' || c == '\n' || c == '\r'
}

fn unescape_char_exec(c: char) -> (r: Option<char>)
    ensures
        r == unescape_char(c),
{
    if c == '"' { Some('"') }
    else if c == '\\' { Some('\\') }
    else if c == '/' { Some('/') }
    else if c == 'n' { Some('\n') }
    else if c == 't' { Some('\t') }
    else if c == 'r' { Some('\r') }
    else { None }
}

fn parse_string_rest_exec(s: &str, i: usize) -> (r: Option<(String, usize)>)
    requires
        i <= s@.len(),
    ensures
        match r {
            Some(p) => parse_string_rest(s@, i as int) == Some((p.0@, p.1 as int)) && i < p.1
                <= s@.len(),
            None => parse_string_rest(s@, i as int) is None,
        },
    decreases s@.len() - i,
{
    let len = s.unicode_len();
    if i >= len {
        return None;
    }
    let c = s.get_char(i);
    if c == '"' {
        Some((String::new(), i + 1))
    } else if c == '\\' {
        if i + 1 >= len {
            None
        } else {
            match unescape_char_exec(s.get_char(i + 1)) {
                Some(u) => match parse_string_rest_exec(s, i + 2) {
                    Some((t, j)) => {
                        let mut out = String::new();
                        push_char(&mut out, u);
                        out.append(t.as_str());
                        assert(out@ =~= seq![u] + t@);
                        Some((out, j))
                    },
                    None => None,
                },
                None => None,
            }
        }
    } else if (c as u32) < 32 {
        None
    } else {
        match parse_string_rest_exec(s, i + 1) {
            Some((t, j)) => {
                let mut out = String::new();
                push_char(&mut out, c);
                out.append(t.as_str());
                assert(out@ =~= seq![c] + t@);
                Some((out, j))
            },
            None => None,
        }
    }
}

fn parse_digits_exec(s: &str, i: usize, acc: i64, count: u8) -> (r: Option<(i64, usize)>)
    requires
        i <= s@.len(),
        count <= 18,
        0 <= acc < pow10(count as nat),
    ensures
        match r {
            Some(p) => parse_digits(s@, i as int, acc as int, count as int) == Some(
                (p.0 as int, p.1 as int),
            ) && i <= p.1 <= s@.len() && 0 <= p.0,
            None => parse_digits(s@, i as int, acc as int, count as int) is None,
        },
    decreases s@.len() - i,
{
    let len = s.unicode_len();
    if i < len {
        let c = s.get_char(i);
        if '0' as u32 <= c as u32 && c as u32 <= '9' as u32 {
            if count >= 18 {
                return None;
            }
            let d = (c as u32 - '0' as u32) as i64;
            proof {
                lemma_pow10_mono((count + 1) as nat, 18);
                lemma_pow10_18();
                assert(pow10((count + 1) as nat) == 10 * pow10(count as nat));
                assert(acc * 10 + d < pow10((count + 1) as nat));
            }
            parse_digits_exec(s, i + 1, acc * 10 + d, count + 1)
        } else {
            if count > 0 {
                Some((acc, i))
            } else {
                None
            }
        }
    } else {
        if count > 0 {
            Some((acc, i))
        } else {
            None
        }
    }
}

fn parse_int_exec(s: &str, i: usize) -> (r: Option<(i64, usize)>)
    requires
        i <= s@.len(),
    ensures
        match r {
            Some(p) => parse_int_at(s@, i as int) == Some((p.0 as int, p.1 as int)) && i <= p.1
                <= s@.len(),
            None => parse_int_at(s@, i as int) is None,
        },
{
    let len = s.unicode_len();
    proof {
        assert(pow10(0) == 1);
    }
    if i < len && s.get_char(i) == '-' {
        match parse_digits_exec(s, i + 1, 0, 0) {
            Some((v, j)) => Some((-v, j)),
            None => None,
        }
    } else {
        parse_digits_exec(s, i, 0, 0)
    }
}

/// Parses one member value at `i`.
pub fn parse_value_exec(s: &str, i: usize) -> (r: Option<(JsonScalar, usize)>)
    requires
        i <= s@.len(),
    ensures
        match r {
            Some(p) => parse_value_at(s@, i as int) == Some((p.0@, p.1 as int)) && i <= p.1
                <= s@.len(),
            None => parse_value_at(s@, i as int) is None,
        },
{
    let len = s.unicode_len();
    if i < len && s.get_char(i) == '"' {
        match parse_string_rest_exec(s, i + 1) {
            Some((t, j)) => Some((JsonScalar::Str(t), j)),
            None => None,
        }
    } else if i < len && {
        let c = s.get_char(i);
        c == '-' || ('0' as u32 <= c as u32 && c as u32 <= '9' as u32)
    } {
        match parse_int_exec(s, i) {
            Some((v, j)) => Some((JsonScalar::Int(v), j)),
            None => None,
        }
    } else {
        None
    }
}

fn parse_member_exec(s: &str, i: usize) -> (r: Option<(JsonField, usize)>)
    requires
        i <= s@.len(),
    ensures
        match r {
            Some(p) => parse_member_at(s@, i as int) == Some((p.0@, p.1 as int)) && i < p.1
                <= s@.len(),
            None => parse_member_at(s@, i as int) is None,
        },
{
    let len = s.unicode_len();
    let j = skip_ws_exec(s, i);
    if j < len && s.get_char(j) == '"' {
        match parse_string_rest_exec(s, j + 1) {
            Some((key, k)) => {
                let m = skip_ws_exec(s, k);
                if m < len && s.get_char(m) == ':' {
                    let v = skip_ws_exec(s, m + 1);
                    match parse_value_exec(s, v) {
                        Some((val, e)) => Some((JsonField { key, value: val }, e)),
                        None => None,
                    }
                } else {
                    None
                }
            },
            None => None,
        }
    } else {
        None
    }
}

fn parse_members_exec(s: &str, i: usize) -> (r: Option<(Vec<JsonField>, usize)>)
    requires
        i <= s@.len(),
    ensures
        match r {
            Some(p) => parse_members_at(s@, i as int) == Some((fields_view(p.0@), p.1 as int))
                && i < p.1 <= s@.len(),
            None => parse_members_at(s@, i as int) is None,
        },
    decreases s@.len() - i,
{
    let len = s.unicode_len();
    match parse_member_exec(s, i) {
        Some((f, e)) => {
            let k = skip_ws_exec(s, e);
            if k < len && s.get_char(k) == ',' {
                match parse_members_exec(s, k + 1) {
                    Some((mut rest, j)) => {
                        let ghost old_rest = rest@;
                        rest.insert(0, f);
                        assert(fields_view(rest@) =~= seq![f@] + fields_view(old_rest));
                        Some((rest, j))
                    },
                    None => None,
                }
            } else if k < len && s.get_char(k) == '}' {
                let mut v: Vec<JsonField> = Vec::new();
                v.push(f);
                assert(fields_view(v@) =~= seq![f@]);
                Some((v, k + 1))
            } else {
                None
            }
        },
        None => None,
    }
}

/// Parses a complete JSON text holding one flat object, returning its
/// members in order.
pub fn parse_json_object(s: &str) -> (r: Option<Vec<JsonField>>)
    ensures
        match r {
            Some(v) => json_fields_of(s@) == Some(fields_view(v@)),
            None => json_fields_of(s@) is None,
        },
{
    let len = s.unicode_len();
    let i = skip_ws_exec(s, 0);
    if i < len && s.get_char(i) == '{' {
        let j = skip_ws_exec(s, i + 1);
        if j < len && s.get_char(j) == '}' {
            if skip_ws_exec(s, j + 1) == len {
                let v: Vec<JsonField> = Vec::new();
                assert(fields_view(v@) =~= Seq::<FieldV>::empty());
                Some(v)
            } else {
                None
            }
        } else {
            match parse_members_exec(s, j) {
                Some((v, k)) => {
                    if skip_ws_exec(s, k) == len {
                        Some(v)
                    } else {
                        None
                    }
                },
                None => None,
            }
        }
    } else {
        None
    }
}

/// Finds the first member with the given key.
pub fn lookup<'a>(fields: &'a Vec<JsonField>, key: &str) -> (r: Option<&'a JsonScalar>)
    ensures
        match r {
            Some(v) => lookup_field(fields_view(fields@), key@) == Some(v@),
            None => lookup_field(fields_view(fields@), key@) is None,
        },
{
    let n = fields.len();
    assert(fields_view(fields@).skip(0) =~= fields_view(fields@));
    let mut i: usize = 0;
    while i < n
        invariant
            i <= n,
            n == fields@.len(),
            lookup_field(fields_view(fields@), key@) == lookup_field(
                fields_view(fields@).skip(i as int),
                key@,
            ),
        decreases n - i,
    {
        let f = &fields[i];
        proof {
            let suffix = fields_view(fields@).skip(i as int);
            assert(suffix[0] == fields_view(fields@)[i as int]);
            assert(suffix.drop_first() =~= fields_view(fields@).skip(i + 1));
        }
        if crate::strutil::str_eq(f.key.as_str(), key) {
            return Some(&f.value);
        }
        i += 1;
    }
    assert(fields_view(fields@).skip(n as int) =~= Seq::<FieldV>::empty());
    None
}

/// The string value of the member with the given key, if present with a
/// string value.
pub fn get_str_field(fields: &Vec<JsonField>, key: &str) -> (r: Option<String>)
    ensures
        match r {
            Some(v) => str_field(fields_view(fields@), key@) == Some(v@),
            None => str_field(fields_view(fields@), key@) is None,
        },
{
    match lookup(fields, key) {
        Some(JsonScalar::Str(s)) => Some(s.clone()),
        _ => None,
    }
}

/// The integer value of the member with the given key, if present with an
/// integer value.
pub fn get_int_field(fields: &Vec<JsonField>, key: &str) -> (r: Option<i64>)
    ensures
        match r {
            Some(v) => int_field(fields_view(fields@), key@) == Some(v as int),
            None => int_field(fields_view(fields@), key@) is None,
        },
{
    match lookup(fields, key) {
        Some(JsonScalar::Int(n)) => Some(*n),
        _ => None,
    }
}

} // verus!
