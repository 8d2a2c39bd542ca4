//! Authorization header values: the Basic-Auth header built from the
//! operator's key pair, and the Bearer-Auth header built from a token.
//!
//! The Base64 step is done by the `base64ct` crate; everything around it is
//! verified, and decoding a header built here is proved to give the original
//! `public:private` pair back.
use vstd::prelude::*;
use crate::strutil::push_char;

verus! {

/// What base64ct's standard padded Base64 alphabet produces for the UTF-8
/// bytes of the given text.  The result depends on the text alone.
pub uninterp spec fn base64_of(s: Seq<char>) -> Seq<char>;

/// Relies on base64ct's `Base64::encode_string` (standard alphabet, with
/// padding): returns the Base64 encoding of the input's UTF-8 bytes.
/// `encode_string` panics on inputs longer than `usize::MAX / 4` bytes; the
/// precondition keeps every input far below that.
#[verifier::external_body]
fn base64_encode(s: &str) -> (r: String)
    requires
        s@.len() <= usize::MAX / 16,
    ensures
        r@ == base64_of(s@),
{
    <base64ct::Base64 as base64ct::Encoding>::encode_string(s.as_bytes())
}

/// Relies on base64ct's `Base64::decode_vec` (standard alphabet, with
/// padding), which inverts `encode_string`: decoding the encoding of any
/// text yields that text's bytes, and those bytes read back as the text
/// itself.
#[verifier::external_body]
fn base64_decode(s: &str) -> (r: Option<String>)
    ensures
        forall|t: Seq<char>| s@ == base64_of(t) ==> r is Some,
        forall|t: Seq<char>| s@ == base64_of(t) && r is Some ==> r.unwrap()@ == t,
{
    match <base64ct::Base64 as base64ct::Encoding>::decode_vec(s) {
        Ok(bytes) => String::from_utf8(bytes).ok(),
        Err(_) => None,
    }
}

/// The credential pair as it is encoded: `public`, a colon, `private`.
pub open spec fn login_pair(public_key: Seq<char>, private_key: Seq<char>) -> Seq<char> {
    public_key + seq![':'] + private_key
}

/// The value of an `Authorization` header holding Basic-Auth credentials.
pub open spec fn basic_auth_spec(public_key: Seq<char>, private_key: Seq<char>) -> Seq<char> {
    "Basic "@ + base64_of(login_pair(public_key, private_key))
}

/// Builds the `Authorization` header value
/// `"Basic " + base64(public_key + ":" + private_key)`.
pub fn encode_login_field(public_key: &str, private_key: &str) -> (r: String)
    requires
        public_key@.len() + private_key@.len() + 1 <= usize::MAX / 16,
    ensures
        r@ == basic_auth_spec(public_key@, private_key@),
{
    let mut pair = String::new();
    pair.append(public_key);
    push_char(&mut pair, ':');
    pair.append(private_key);
    assert(pair@ =~= login_pair(public_key@, private_key@));
    let encoded = base64_encode(pair.as_str());
    let mut out = String::new();
    out.append("Basic ");
    out.append(encoded.as_str());
    assert(out@ =~= basic_auth_spec(public_key@, private_key@));
    out
}

/// Decodes a Basic-Auth header value back to the credential pair it holds.
///
/// Every header built by [`encode_login_field`] decodes back to exactly
/// `public_key + ":" + private_key`, whatever the keys were.
pub fn decode_login_field(header: &str) -> (r: Option<String>)
    ensures
        forall|p: Seq<char>, q: Seq<char>|
            header@ == basic_auth_spec(p, q) ==> (r matches Some(v) && v@ == login_pair(p, q)),
{
    proof {
        reveal_strlit("Basic ");
    }
    let len = header.unicode_len();
    if len < 6 {
        assert forall|p: Seq<char>, q: Seq<char>| header@ != basic_auth_spec(p, q) by {
            assert(basic_auth_spec(p, q).len() >= 6);
        }
        return None;
    }
    let prefix = header.substring_char(0, 6);
    if !crate::strutil::str_eq(prefix, "Basic ") {
        assert forall|p: Seq<char>, q: Seq<char>| header@ != basic_auth_spec(p, q) by {
            if header@ == basic_auth_spec(p, q) {
                assert(prefix@ =~= "Basic "@);
            }
        }
        return None;
    }
    let rest = header.substring_char(6, len);
    let r = base64_decode(rest);
    assert forall|p: Seq<char>, q: Seq<char>|
        header@ == basic_auth_spec(p, q) implies (r matches Some(v) && v@ == login_pair(p, q)) by {
        assert(rest@ =~= base64_of(login_pair(p, q)));
    }
    r
}

/// The value of an `Authorization` header holding a bearer token.
pub open spec fn bearer_auth_spec(token: Seq<char>) -> Seq<char> {
    "Bearer "@ + token
}

/// Builds the `Authorization` header value `"Bearer " + access_token`.
pub fn oauth_field(access_token: &str) -> (r: String)
    ensures
        r@ == bearer_auth_spec(access_token@),
{
    let auth = String::from_str("Bearer ");
    auth.concat(access_token)
}

} // verus!
