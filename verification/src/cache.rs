//! The read-through token cache.
//!
//! Tokens live in an external key-value store under the fixed keys
//! `"access_token"` and `"session_token"`; [`TokenStore`] is the SDK's
//! model of those two entries, and the surrounding application keeps it in
//! step with the real store.  A lookup either hands back the cached value
//! or says which exchange request must be sent; the matching completion
//! function reads the exchange response and writes the fresh token into the
//! store with the TTL the provider granted.
//!
//! A session-token miss with no cached access token fails with
//! [`Error::MissingAccessToken`] instead of cascading into a fresh
//! access-token exchange: the fail-fast policy, kept deliberately.
use vstd::prelude::*;
use crate::access::{access_outcome_ok, access_token_request, access_token_response,
    is_access_token_request, is_session_token_request, login_response_of, session_of,
    session_outcome_ok, session_token_request, session_token_response};
use crate::http::{HttpRequest, is_provider_error_status};
use crate::models::{Error, SessionRequestBody};

verus! {

/// The two kinds of token the cache owns, and their store keys.
#[derive(Clone, Copy, Debug, PartialEq, Eq, Structural)]
pub enum TokenKind {
    Access,
    Session,
}

/// The store key under which each token kind is cached.
pub open spec fn token_key_spec(kind: TokenKind) -> Seq<char> {
    match kind {
        TokenKind::Access => "access_token"@,
        TokenKind::Session => "session_token"@,
    }
}

impl TokenKind {
    /// The store key under which this token kind is cached.
    pub fn key(&self) -> (r: &'static str)
        ensures
            r@ == token_key_spec(*self),
    {
        match self {
            TokenKind::Access => "access_token",
            TokenKind::Session => "session_token",
        }
    }
}

/// One cached token value and the TTL, in seconds, the provider granted it.
#[derive(Debug, Clone)]
pub struct CachedTokenEntry {
    pub value: String,
    pub ttl: u32,
}

/// The SDK's model of the external key-value store: the two token entries,
/// each either absent or cached.  Expiry is the external store's job (its
/// TTL eviction); an entry simply disappears when it lapses.
#[derive(Debug)]
pub struct TokenStore {
    pub access: Option<CachedTokenEntry>,
    pub session: Option<CachedTokenEntry>,
}

impl TokenStore {
    /// The entry cached under the given kind.
    pub open spec fn spec_get(&self, kind: TokenKind) -> Option<CachedTokenEntry> {
        match kind {
            TokenKind::Access => self.access,
            TokenKind::Session => self.session,
        }
    }

    /// An empty store: nothing cached.
    pub fn new() -> (r: TokenStore)
        ensures
            r.access is None,
            r.session is None,
    {
        TokenStore { access: None, session: None }
    }

    /// Reads the entry cached under the given kind.
    pub fn get(&self, kind: TokenKind) -> (r: Option<&CachedTokenEntry>)
        ensures
            match r {
                Some(e) => self.spec_get(kind) == Some(*e),
                None => self.spec_get(kind) is None,
            },
    {
        match kind {
            TokenKind::Access => self.access.as_ref(),
            TokenKind::Session => self.session.as_ref(),
        }
    }

    /// Writes a value under the given kind with the given TTL, leaving the
    /// other kind untouched.
    pub fn put(&mut self, kind: TokenKind, value: String, ttl: u32)
        ensures
            final(self).spec_get(kind) == Some(CachedTokenEntry { value, ttl }),
            forall|k: TokenKind| k != kind ==> final(self).spec_get(k) == old(self).spec_get(k),
    {
        match kind {
            TokenKind::Access => {
                self.access = Some(CachedTokenEntry { value, ttl });
            },
            TokenKind::Session => {
                self.session = Some(CachedTokenEntry { value, ttl });
            },
        }
    }
}

/// The outcome of a cache lookup: either the cached token, or the exchange
/// request that must be sent to obtain one.
#[derive(Debug)]
pub enum TokenStep {
    Cached(String),
    Exchange(HttpRequest),
}

/// Read-through lookup of the access token.
///
/// A cache hit hands the cached value straight back and asks for no
/// exchange; a miss hands back the access-token exchange request to send.
pub fn get_access_token(store: &TokenStore, public_key: &str, private_key: &str) -> (r: TokenStep)
    requires
        public_key@.len() + private_key@.len() + 1 <= usize::MAX / 16,
    ensures
        match store.spec_get(TokenKind::Access) {
            Some(e) => r matches TokenStep::Cached(v) && v@ == e.value@,
            None => r matches TokenStep::Exchange(req) && is_access_token_request(
                req,
                public_key@,
                private_key@,
            ),
        },
{
    match store.get(TokenKind::Access) {
        Some(entry) => TokenStep::Cached(entry.value.clone()),
        None => TokenStep::Exchange(access_token_request(public_key, private_key)),
    }
}

/// Completes an access-token exchange: reads the identity endpoint's
/// response, and on success caches the fresh token under `"access_token"`
/// with the TTL the provider granted before handing it back.  On failure
/// the store is untouched and nothing is cached.
pub fn complete_access_token(store: &mut TokenStore, status: u16, body: String) -> (r: Result<
    String,
    Error,
>)
    ensures
        match r {
            Ok(v) => {
                &&& !is_provider_error_status(status)
                &&& login_response_of(body@) matches Some(t) && v@ == t.0
                    && final(store).spec_get(TokenKind::Access) == Some(
                    CachedTokenEntry { value: v, ttl: t.3 as u32 },
                )
                &&& final(store).spec_get(TokenKind::Session) == old(store).spec_get(
                    TokenKind::Session,
                )
            },
            Err(e) => {
                &&& *final(store) == *old(store)
                &&& access_outcome_ok(status, body@, Err(e))
            },
        },
{
    match access_token_response(status, body) {
        Ok(lr) => {
            let token = lr.access_token;
            store.put(TokenKind::Access, token.clone(), lr.expires_in as u32);
            Ok(token)
        },
        Err(e) => Err(e),
    }
}

/// Read-through lookup of the session token.
///
/// A cache hit hands the cached value straight back.  On a miss the cached
/// access token is read; if it is absent the lookup fails fast with
/// [`Error::MissingAccessToken`] and no request is produced, otherwise the
/// session-login exchange request to send is handed back.
pub fn get_session_token(store: &TokenStore, username: &str, password: &str) -> (r: Result<
    TokenStep,
    Error,
>)
    ensures
        match store.spec_get(TokenKind::Session) {
            Some(e) => r matches Ok(TokenStep::Cached(v)) && v@ == e.value@,
            None => match store.spec_get(TokenKind::Access) {
                None => r matches Err(Error::MissingAccessToken),
                Some(a) => r matches Ok(TokenStep::Exchange(req)) && is_session_token_request(
                    req,
                    username@,
                    password@,
                    a.value@,
                ),
            },
        },
{
    match store.get(TokenKind::Session) {
        Some(entry) => Ok(TokenStep::Cached(entry.value.clone())),
        None => match store.get(TokenKind::Access) {
            None => Err(Error::MissingAccessToken),
            Some(access) => {
                let cred = SessionRequestBody {
                    username: String::from_str(username),
                    password: String::from_str(password),
                };
                Ok(TokenStep::Exchange(session_token_request(&cred, access.value.as_str())))
            },
        },
    }
}

/// Completes a session-token exchange: reads the session endpoint's
/// response, and on success caches the fresh token under `"session_token"`
/// with the TTL the provider granted before handing it back.  On failure
/// the store is untouched and nothing is cached.
pub fn complete_session_token(store: &mut TokenStore, status: u16, body: String) -> (r: Result<
    String,
    Error,
>)
    ensures
        match r {
            Ok(v) => {
                &&& !is_provider_error_status(status)
                &&& session_of(body@) matches Some(t) && v@ == t.0 && final(store).spec_get(
                    TokenKind::Session,
                ) == Some(CachedTokenEntry { value: v, ttl: t.1 as u32 })
                &&& final(store).spec_get(TokenKind::Access) == old(store).spec_get(
                    TokenKind::Access,
                )
            },
            Err(e) => {
                &&& *final(store) == *old(store)
                &&& session_outcome_ok(status, body@, Err(e))
            },
        },
{
    match session_token_response(status, body) {
        Ok(s) => {
            let token = s.session_token;
            store.put(TokenKind::Session, token.clone(), s.expires_in as u32);
            Ok(token)
        },
        Err(e) => Err(e),
    }
}

} // verus!
