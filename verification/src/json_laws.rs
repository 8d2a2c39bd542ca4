//! Laws tying the JSON serializer to the JSON parser.
//!
//! The serializer in [`crate::json`] and the grammar in
//! [`crate::json_parse`] are written independently; the lemmas here prove
//! that they agree: a string literal produced by the escaper parses back to
//! the text it was built from, an integer literal written by the decimal
//! formatter parses back to its value, and the flat object bodies the SDK
//! sends (the session-login, listener-registration and plain device-list
//! bodies among them) parse back, member for member, to exactly the values
//! they were built from.
use vstd::prelude::*;
use crate::json::{escape_char, escape_str, json_string};
use crate::strutil::{dec_digit, dec_str, int_str};
use crate::json_parse::{FieldV, ScalarV, digit_val, is_digit, is_ws, json_fields_of,
    lemma_pow10_18, parse_digits, parse_int_at, parse_member_at, parse_members_at,
    parse_string_rest, parse_value_at, pow10, skip_ws, unescape_char};
use crate::access::session_request_json;
use crate::devices::{AccountDeviceListRequest, adl_request_json};
use crate::listeners::{CallbackListener, callback_listener_json};

verus! {

/// Text the serializer can send without loss: every control character other
/// than newline, tab and carriage return would be escaped as `\u00XX`,
/// which the deliberately small response grammar does not read back.
pub open spec fn json_text_char_ok(c: char) -> bool {
    c as u32 >= 32 || c == '\n' || c == '\t' || c == '\r'
}

/// Lossless text: every character is [`json_text_char_ok`].
pub open spec fn json_text_ok(s: Seq<char>) -> bool {
    forall|i: int| 0 <= i < s.len() ==> json_text_char_ok(s[i])
}

proof fn lemma_skip_ws_at_nonws(s: Seq<char>, i: int)
    requires
        0 <= i <= s.len(),
        i == s.len() || !is_ws(s[i]),
    ensures
        skip_ws(s, i) == i,
{
}

/// An escaped text followed by a closing quote parses back to the text.
///
/// For every lossless `s`: wherever `escape_str(s) + "\""` stands in a
/// larger text, the string-literal parser started there returns exactly
/// `s`, stopping right after the quote.
pub proof fn lemma_escaped_string_parses_back(t: Seq<char>, s: Seq<char>, i: int)
    requires
        json_text_ok(s),
        0 <= i,
        i + escape_str(s).len() + 1 <= t.len(),
        t.subrange(i, i + escape_str(s).len() + 1) == escape_str(s) + seq!['"'],
    ensures
        parse_string_rest(t, i) == Some((s, i + escape_str(s).len() + 1)),
    decreases s.len(),
{
    let e = escape_str(s);
    let k = e.len() as int;
    assert forall|j: int| i <= j <= i + k implies t[j] == (e + seq!['"'])[j - i] by {
        assert(t.subrange(i, i + k + 1)[j - i] == t[j]);
    }
    if s.len() == 0 {
        assert(t[i] == '"');
    } else {
        let c = s[0];
        let cs = s.drop_first();
        let ec = escape_char(c);
        let ecs = escape_str(cs);
        assert(e == ec + ecs);
        assert(json_text_ok(cs)) by {
            assert(forall|j: int| 0 <= j < cs.len() ==> cs[j] == s[j + 1]);
        }
        let i2 = i + ec.len() as int;
        assert(t.subrange(i2, i2 + ecs.len() + 1) =~= ecs + seq!['"']) by {
            assert(forall|j: int| 0 <= j <= ecs.len() ==> (e + seq!['"'])[j + ec.len()] == (ecs
                + seq!['"'])[j]);
        }
        lemma_escaped_string_parses_back(t, cs, i2);
        assert(seq![c] + cs =~= s);
        assert(json_text_char_ok(c));
        if c == '"' {
            assert(t[i] == '\\' && t[i + 1] == '"');
            assert(unescape_char(t[i + 1]) == Some('"'));
        } else if c == '\\' {
            assert(t[i] == '\\' && t[i + 1] == '\\');
            assert(unescape_char(t[i + 1]) == Some('\\'));
        } else if c == '\n' {
            assert(t[i] == '\\' && t[i + 1] == 'n');
            assert(unescape_char(t[i + 1]) == Some('\n'));
        } else if c == '\r' {
            assert(t[i] == '\\' && t[i + 1] == 'r');
            assert(unescape_char(t[i + 1]) == Some('\r'));
        } else if c == '\t' {
            assert(t[i] == '\\' && t[i + 1] == 't');
            assert(unescape_char(t[i + 1]) == Some('\t'));
        } else {
            assert(ec == seq![c]);
            assert(t[i] == c);
            assert(c as u32 >= 32);
        }
    }
}

/// The numeric value of a run of digit characters, most significant first.
pub open spec fn digits_val(ds: Seq<char>) -> int
    decreases ds.len(),
{
    if ds.len() == 0 {
        0
    } else {
        digits_val(ds.drop_last()) * 10 + digit_val(ds.last())
    }
}

proof fn lemma_digits_val_concat(x: Seq<char>, y: Seq<char>)
    ensures
        digits_val(x + y) == digits_val(x) * pow10(y.len()) + digits_val(y),
    decreases y.len(),
{
    if y.len() == 0 {
        assert(x + y =~= x);
        assert(pow10(0) == 1);
    } else {
        let y0 = y.drop_last();
        assert((x + y).drop_last() =~= x + y0);
        assert((x + y).last() == y.last());
        lemma_digits_val_concat(x, y0);
        assert(pow10(y.len()) == 10 * pow10(y0.len()));
        assert(digits_val(x + y) == (digits_val(x) * pow10(y0.len()) + digits_val(y0)) * 10
            + digit_val(y.last()));
        assert((digits_val(x) * pow10(y0.len()) + digits_val(y0)) * 10 == digits_val(x) * pow10(
            y.len(),
        ) + digits_val(y0) * 10) by (nonlinear_arith)
            requires
                pow10(y.len()) == 10 * pow10(y0.len()),
        ;
    }
}

proof fn lemma_dec_str_digits(n: nat)
    ensures
        forall|i: int| 0 <= i < dec_str(n).len() ==> is_digit(#[trigger] dec_str(n)[i]),
        digits_val(dec_str(n)) == n,
        dec_str(n).len() >= 1,
        is_digit(dec_str(n)[0]),
    decreases n,
{
    if n < 10 {
        assert(dec_str(n) =~= seq![dec_digit(n as int)]);
        assert(dec_str(n).drop_last() =~= Seq::<char>::empty());
        assert(digits_val(Seq::<char>::empty()) == 0);
        assert(digit_val(dec_digit(n as int)) == n);
    } else {
        lemma_dec_str_digits(n / 10);
        let tail = seq![dec_digit((n % 10) as int)];
        assert(dec_str(n) == dec_str(n / 10) + tail);
        lemma_digits_val_concat(dec_str(n / 10), tail);
        assert(digits_val(tail) == n % 10) by {
            assert(tail.drop_last() =~= Seq::<char>::empty());
            assert(digits_val(Seq::<char>::empty()) == 0);
        }
        assert(pow10(0) == 1);
        assert(pow10(tail.len()) == 10);
        assert(digits_val(dec_str(n)) == (n / 10) * 10 + n % 10);
        assert(forall|i: int| 0 <= i < dec_str(n).len() ==> is_digit(#[trigger] dec_str(n)[i]))
            by {
            assert(forall|i: int| 0 <= i < dec_str(n / 10).len() ==> dec_str(n)[i] == dec_str(
                n / 10,
            )[i]);
            assert(dec_str(n)[dec_str(n).len() - 1] == dec_digit((n % 10) as int));
        }
    }
}

proof fn lemma_dec_str_len(n: nat, k: nat)
    requires
        1 <= k,
        n < pow10(k),
    ensures
        dec_str(n).len() <= k,
    decreases n,
{
    if n < 10 {
    } else {
        assert(pow10(k) == 10 * pow10((k - 1) as nat));
        if k == 1 {
            assert(pow10(1) == 10);
            assert(false);
        }
        assert(n / 10 < pow10((k - 1) as nat)) by (nonlinear_arith)
            requires
                n < 10 * pow10((k - 1) as nat),
                n >= 10,
        ;
        lemma_dec_str_len(n / 10, (k - 1) as nat);
    }
}

/// A run of digit characters in a larger text, followed by a non-digit or
/// the end, parses to exactly its numeric value.
proof fn lemma_parse_digits_run(t: Seq<char>, ds: Seq<char>, i: int, acc: int, count: int)
    requires
        0 <= i,
        i + ds.len() <= t.len(),
        t.subrange(i, i + ds.len()) == ds,
        forall|j: int| 0 <= j < ds.len() ==> is_digit(#[trigger] ds[j]),
        i + ds.len() == t.len() || !is_digit(t[i + ds.len()]),
        0 <= count,
        count + ds.len() <= 18,
        0 <= acc,
        ds.len() > 0 || count > 0,
    ensures
        parse_digits(t, i, acc, count) == Some(
            (acc * pow10(ds.len()) + digits_val(ds), i + ds.len()),
        ),
    decreases ds.len(),
{
    assert forall|j: int| i <= j < i + ds.len() implies t[j] == ds[j - i] && is_digit(t[j]) by {
        assert(t.subrange(i, i + ds.len())[j - i] == t[j]);
    }
    if ds.len() == 0 {
        assert(pow10(0) == 1);
    } else {
        let d0 = ds[0];
        let rest = ds.drop_first();
        assert(t[i] == d0);
        assert(t.subrange(i + 1, i + 1 + rest.len()) =~= rest) by {
            assert(forall|j: int| 0 <= j < rest.len() ==> #[trigger] rest[j] == ds[j + 1]);
        }
        lemma_parse_digits_run(t, rest, i + 1, acc * 10 + digit_val(d0), count + 1);
        assert(ds =~= seq![d0] + rest);
        lemma_digits_val_concat(seq![d0], rest);
        assert(digits_val(seq![d0]) == digit_val(d0)) by {
            assert(seq![d0].drop_last() =~= Seq::<char>::empty());
            assert(digits_val(Seq::<char>::empty()) == 0);
        }
        assert(pow10(ds.len()) == 10 * pow10(rest.len()));
        assert((acc * 10 + digit_val(d0)) * pow10(rest.len()) == acc * pow10(ds.len()) + digit_val(
            d0,
        ) * pow10(rest.len())) by (nonlinear_arith)
            requires
                pow10(ds.len()) == 10 * pow10(rest.len()),
        ;
    }
}

/// An integer literal written by the decimal formatter, followed by a
/// non-digit or the end, parses back to exactly its value.
#[verifier::rlimit(100)]
pub proof fn lemma_int_literal_parses_back(t: Seq<char>, n: int, i: int)
    requires
        -1000000000000000000 < n < 1000000000000000000,
        0 <= i,
        i + int_str(n).len() <= t.len(),
        t.subrange(i, i + int_str(n).len()) == int_str(n),
        i + int_str(n).len() == t.len() || !is_digit(t[i + int_str(n).len()]),
    ensures
        parse_int_at(t, i) == Some((n, i + int_str(n).len())),
{
    lemma_pow10_18();
    let ln = int_str(n).len() as int;
    assert(t[i] == int_str(n)[0]) by {
        assert(t.subrange(i, i + ln)[0] == t[i]);
    }
    if n >= 0 {
        lemma_dec_str_digits(n as nat);
        lemma_dec_str_len(n as nat, 18);
        assert(!(t[i] == '-'));
        lemma_parse_digits_run(t, dec_str(n as nat), i, 0, 0);
        assert(pow10(0) == 1);
    } else {
        let m = (-n) as nat;
        lemma_dec_str_digits(m);
        lemma_dec_str_len(m, 18);
        assert(t[i] == '-');
        let sub = t.subrange(i + 1, i + 1 + dec_str(m).len());
        assert forall|j: int| 0 <= j < dec_str(m).len() implies sub[j] == dec_str(m)[j] by {
            assert(sub[j] == t[i + 1 + j]);
            assert(t.subrange(i, i + ln)[j + 1] == t[i + 1 + j]);
            assert(int_str(n)[j + 1] == dec_str(m)[j]);
        }
        assert(sub =~= dec_str(m));
        lemma_parse_digits_run(t, dec_str(m), i + 1, 0, 0);
        assert(pow10(0) == 1);
    }
}

/// The JSON object holding exactly one string member.
pub open spec fn one_string_object(k: Seq<char>, v: Seq<char>) -> Seq<char> {
    seq!['{'] + json_string(k) + seq![':'] + json_string(v) + seq!['}']
}

/// A serialized one-string-member object parses back to exactly the key
/// and value it was built from, whatever they are.
pub proof fn lemma_one_string_object_round_trip(k: Seq<char>, v: Seq<char>)
    requires
        json_text_ok(k),
        json_text_ok(v),
    ensures
        json_fields_of(one_string_object(k, v)) == Some(
            seq![FieldV { key: k, val: ScalarV::Str(v) }],
        ),
{
    let t = one_string_object(k, v);
    let a = escape_str(k).len() as int;
    let b = escape_str(v).len() as int;
    assert(t.len() == 7 + a + b);

    assert(t[0] == '{');
    assert(t[1] == '"');
    assert(t[3 + a] == ':');
    assert(t[4 + a] == '"');
    assert(t[6 + a + b] == '}');

    assert(t.subrange(2, 3 + a) =~= escape_str(k) + seq!['"']);
    lemma_escaped_string_parses_back(t, k, 2);
    assert(t.subrange(5 + a, 6 + a + b) =~= escape_str(v) + seq!['"']);
    lemma_escaped_string_parses_back(t, v, 5 + a);

    lemma_skip_ws_at_nonws(t, 0);
    lemma_skip_ws_at_nonws(t, 1);
    lemma_skip_ws_at_nonws(t, 3 + a);
    lemma_skip_ws_at_nonws(t, 4 + a);
    lemma_skip_ws_at_nonws(t, 6 + a + b);
    lemma_skip_ws_at_nonws(t, 7 + a + b);

    let f = FieldV { key: k, val: ScalarV::Str(v) };
    assert(parse_value_at(t, 4 + a) == Some((ScalarV::Str(v), 6 + a + b)));
    assert(parse_member_at(t, 1) == Some((f, 6 + a + b)));
    assert(parse_members_at(t, 1) == Some((seq![f], 7 + a + b)));
    assert(json_fields_of(t) == Some(seq![f]));
}

/// The JSON object holding exactly two string members, in order.
pub open spec fn two_string_object(
    k1: Seq<char>,
    v1: Seq<char>,
    k2: Seq<char>,
    v2: Seq<char>,
) -> Seq<char> {
    seq!['{'] + json_string(k1) + seq![':'] + json_string(v1) + seq![','] + json_string(k2)
        + seq![':'] + json_string(v2) + seq!['}']
}

/// A serialized two-string-member object parses back, member for member, to
/// exactly the keys and values it was built from, whatever they are.
pub proof fn lemma_two_string_object_round_trip(
    k1: Seq<char>,
    v1: Seq<char>,
    k2: Seq<char>,
    v2: Seq<char>,
)
    requires
        json_text_ok(k1),
        json_text_ok(v1),
        json_text_ok(k2),
        json_text_ok(v2),
    ensures
        json_fields_of(two_string_object(k1, v1, k2, v2)) == Some(
            seq![
                FieldV { key: k1, val: ScalarV::Str(v1) },
                FieldV { key: k2, val: ScalarV::Str(v2) },
            ],
        ),
{
    let t = two_string_object(k1, v1, k2, v2);
    let a = escape_str(k1).len() as int;
    let b = escape_str(v1).len() as int;
    let c = escape_str(k2).len() as int;
    let d = escape_str(v2).len() as int;
    assert(t.len() == 13 + a + b + c + d);

    // Single characters of the scaffolding.
    assert(t[0] == '{');
    assert(t[1] == '"');
    assert(t[3 + a] == ':');
    assert(t[4 + a] == '"');
    assert(t[6 + a + b] == ',');
    assert(t[7 + a + b] == '"');
    assert(t[9 + a + b + c] == ':');
    assert(t[10 + a + b + c] == '"');
    assert(t[12 + a + b + c + d] == '}');

    // Each escaped text with its closing quote, in place.
    assert(t.subrange(2, 3 + a) =~= escape_str(k1) + seq!['"']);
    lemma_escaped_string_parses_back(t, k1, 2);
    assert(t.subrange(5 + a, 6 + a + b) =~= escape_str(v1) + seq!['"']);
    lemma_escaped_string_parses_back(t, v1, 5 + a);
    assert(t.subrange(8 + a + b, 9 + a + b + c) =~= escape_str(k2) + seq!['"']);
    lemma_escaped_string_parses_back(t, k2, 8 + a + b);
    assert(t.subrange(11 + a + b + c, 12 + a + b + c + d) =~= escape_str(v2) + seq!['"']);
    lemma_escaped_string_parses_back(t, v2, 11 + a + b + c);

    // No whitespace stands at any position the parser skips from.
    lemma_skip_ws_at_nonws(t, 1);
    lemma_skip_ws_at_nonws(t, 3 + a);
    lemma_skip_ws_at_nonws(t, 4 + a);
    lemma_skip_ws_at_nonws(t, 6 + a + b);
    lemma_skip_ws_at_nonws(t, 7 + a + b);
    lemma_skip_ws_at_nonws(t, 9 + a + b + c);
    lemma_skip_ws_at_nonws(t, 10 + a + b + c);
    lemma_skip_ws_at_nonws(t, 12 + a + b + c + d);
    lemma_skip_ws_at_nonws(t, 13 + a + b + c + d);
    lemma_skip_ws_at_nonws(t, 0);

    let f1 = FieldV { key: k1, val: ScalarV::Str(v1) };
    let f2 = FieldV { key: k2, val: ScalarV::Str(v2) };

    // The first member: key, colon, string value.
    assert(parse_value_at(t, 4 + a) == Some((ScalarV::Str(v1), 6 + a + b)));
    assert(parse_member_at(t, 1) == Some((f1, 6 + a + b)));

    // The second member, after the comma.
    assert(parse_value_at(t, 10 + a + b + c) == Some((ScalarV::Str(v2), 12 + a + b + c + d)));
    assert(parse_member_at(t, 7 + a + b) == Some((f2, 12 + a + b + c + d)));

    // The member list: second member, closing brace.
    assert(parse_members_at(t, 7 + a + b) == Some((seq![f2], 13 + a + b + c + d)));
    // Then the whole list from the first member.
    assert(parse_members_at(t, 1) == Some((seq![f1] + seq![f2], 13 + a + b + c + d)));

    assert(seq![f1] + seq![f2] =~= seq![f1, f2]);
    assert(json_fields_of(t) == Some(seq![f1, f2]));
}

/// The JSON object holding one string member, then one integer member.
pub open spec fn string_int_object(
    k1: Seq<char>,
    v1: Seq<char>,
    k2: Seq<char>,
    n: int,
) -> Seq<char> {
    seq!['{'] + json_string(k1) + seq![':'] + json_string(v1) + seq![','] + json_string(k2)
        + seq![':'] + int_str(n) + seq!['}']
}

/// A serialized object of one string member and one integer member parses
/// back to exactly the keys and values it was built from.
#[verifier::rlimit(100)]
pub proof fn lemma_string_int_object_round_trip(
    k1: Seq<char>,
    v1: Seq<char>,
    k2: Seq<char>,
    n: int,
)
    requires
        json_text_ok(k1),
        json_text_ok(v1),
        json_text_ok(k2),
        -1000000000000000000 < n < 1000000000000000000,
    ensures
        json_fields_of(string_int_object(k1, v1, k2, n)) == Some(
            seq![
                FieldV { key: k1, val: ScalarV::Str(v1) },
                FieldV { key: k2, val: ScalarV::Int(n) },
            ],
        ),
{
    let t = string_int_object(k1, v1, k2, n);
    let a = escape_str(k1).len() as int;
    let b = escape_str(v1).len() as int;
    let c = escape_str(k2).len() as int;
    let ln = int_str(n).len() as int;
    assert(t.len() == 11 + a + b + c + ln);

    assert(t[0] == '{');
    assert(t[1] == '"');
    assert(t[3 + a] == ':');
    assert(t[4 + a] == '"');
    assert(t[6 + a + b] == ',');
    assert(t[7 + a + b] == '"');
    assert(t[9 + a + b + c] == ':');
    assert(t[10 + a + b + c + ln] == '}');

    assert(t.subrange(2, 3 + a) =~= escape_str(k1) + seq!['"']);
    lemma_escaped_string_parses_back(t, k1, 2);
    assert(t.subrange(5 + a, 6 + a + b) =~= escape_str(v1) + seq!['"']);
    lemma_escaped_string_parses_back(t, v1, 5 + a);
    assert(t.subrange(8 + a + b, 9 + a + b + c) =~= escape_str(k2) + seq!['"']);
    lemma_escaped_string_parses_back(t, k2, 8 + a + b);

    let p = 10 + a + b + c;
    assert(t.subrange(p, p + ln) =~= int_str(n));
    lemma_int_literal_parses_back(t, n, p);
    if n >= 0 {
        lemma_dec_str_digits(n as nat);
        assert(is_digit(t[p]));
    } else {
        assert(t[p] == '-');
    }
    assert(!(t[p] == '"'));

    lemma_skip_ws_at_nonws(t, 0);
    lemma_skip_ws_at_nonws(t, 1);
    lemma_skip_ws_at_nonws(t, 3 + a);
    lemma_skip_ws_at_nonws(t, 4 + a);
    lemma_skip_ws_at_nonws(t, 6 + a + b);
    lemma_skip_ws_at_nonws(t, 7 + a + b);
    lemma_skip_ws_at_nonws(t, 9 + a + b + c);
    lemma_skip_ws_at_nonws(t, p);
    lemma_skip_ws_at_nonws(t, p + ln);
    lemma_skip_ws_at_nonws(t, 11 + a + b + c + ln);

    let f1 = FieldV { key: k1, val: ScalarV::Str(v1) };
    let f2 = FieldV { key: k2, val: ScalarV::Int(n) };

    assert(parse_value_at(t, 4 + a) == Some((ScalarV::Str(v1), 6 + a + b)));
    assert(parse_member_at(t, 1) == Some((f1, 6 + a + b)));

    assert(parse_value_at(t, p) == Some((ScalarV::Int(n), p + ln)));
    assert(parse_member_at(t, 7 + a + b) == Some((f2, p + ln)));

    assert(parse_members_at(t, 7 + a + b) == Some((seq![f2], 11 + a + b + c + ln)));
    assert(parse_members_at(t, 1) == Some((seq![f1] + seq![f2], 11 + a + b + c + ln)));

    assert(seq![f1] + seq![f2] =~= seq![f1, f2]);
    assert(json_fields_of(t) == Some(seq![f1, f2]));
}

/// A device-list body whose only filter is the page limit parses back to
/// exactly its `accountName` and `maxNumberOfDevices` members.
pub proof fn lemma_adl_body_with_limit_round_trip(r: AccountDeviceListRequest, n: i32)
    requires
        json_text_ok(r.account_name@),
        r.device_id is None,
        r.filter is None,
        r.current_state is None,
        r.earliest is None,
        r.latest is None,
        r.service_plan is None,
        r.max_number_of_devices == Some(n),
        r.largest_device_id_seen is None,
    ensures
        json_fields_of(adl_request_json(r)) == Some(
            seq![
                FieldV { key: "accountName"@, val: ScalarV::Str(r.account_name@) },
                FieldV { key: "maxNumberOfDevices"@, val: ScalarV::Int(n as int) },
            ],
        ),
{
    reveal_strlit("accountName");
    reveal_strlit("maxNumberOfDevices");
    assert(json_text_ok("accountName"@));
    assert(json_text_ok("maxNumberOfDevices"@));
    lemma_string_int_object_round_trip(
        "accountName"@,
        r.account_name@,
        "maxNumberOfDevices"@,
        n as int,
    );
    assert(adl_request_json(r) =~= string_int_object(
        "accountName"@,
        r.account_name@,
        "maxNumberOfDevices"@,
        n as int,
    ));
}

/// What the SDK sends to the session endpoint parses back, member for
/// member, to exactly the username and password it was built from.
pub proof fn lemma_session_request_round_trip(username: Seq<char>, password: Seq<char>)
    requires
        json_text_ok(username),
        json_text_ok(password),
    ensures
        json_fields_of(session_request_json(username, password)) == Some(
            seq![
                FieldV { key: "username"@, val: ScalarV::Str(username) },
                FieldV { key: "password"@, val: ScalarV::Str(password) },
            ],
        ),
{
    reveal_strlit("username");
    reveal_strlit("password");
    assert(json_text_ok("username"@));
    assert(json_text_ok("password"@));
    lemma_two_string_object_round_trip("username"@, username, "password"@, password);
    assert(session_request_json(username, password) =~= two_string_object(
        "username"@,
        username,
        "password"@,
        password,
    ));
}

/// A device-list body without any optional filter parses back to exactly
/// the one `accountName` member it was built from.
pub proof fn lemma_adl_body_round_trip(r: AccountDeviceListRequest)
    requires
        json_text_ok(r.account_name@),
        r.device_id is None,
        r.filter is None,
        r.current_state is None,
        r.earliest is None,
        r.latest is None,
        r.service_plan is None,
        r.max_number_of_devices is None,
        r.largest_device_id_seen is None,
    ensures
        json_fields_of(adl_request_json(r)) == Some(
            seq![FieldV { key: "accountName"@, val: ScalarV::Str(r.account_name@) }],
        ),
{
    reveal_strlit("accountName");
    assert(json_text_ok("accountName"@));
    lemma_one_string_object_round_trip("accountName"@, r.account_name@);
    assert(adl_request_json(r) =~= one_string_object("accountName"@, r.account_name@));
}

/// A listener registration body without optional credentials parses back,
/// member for member, to exactly the service name and URL it was built
/// from.
pub proof fn lemma_listener_body_round_trip(l: CallbackListener)
    requires
        json_text_ok(l.service_name@),
        json_text_ok(l.url@),
        l.username is None,
        l.password is None,
    ensures
        json_fields_of(callback_listener_json(l)) == Some(
            seq![
                FieldV { key: "name"@, val: ScalarV::Str(l.service_name@) },
                FieldV { key: "url"@, val: ScalarV::Str(l.url@) },
            ],
        ),
{
    reveal_strlit("name");
    reveal_strlit("url");
    assert(json_text_ok("name"@));
    assert(json_text_ok("url"@));
    lemma_two_string_object_round_trip("name"@, l.service_name@, "url"@, l.url@);
    assert(callback_listener_json(l) =~= two_string_object(
        "name"@,
        l.service_name@,
        "url"@,
        l.url@,
    ));
}

} // verus!
