use thingspace_sdk::cache::{complete_access_token, complete_session_token, get_access_token,
    get_session_token, TokenKind, TokenStep, TokenStore};
use thingspace_sdk::http::Method;
use thingspace_sdk::models::Error;

#[test]
fn token_kind_keys() {
    assert_eq!(TokenKind::Access.key(), "access_token");
    assert_eq!(TokenKind::Session.key(), "session_token");
}

#[test]
fn empty_store_asks_for_access_exchange() {
    let store = TokenStore::new();
    match get_access_token(&store, "pub", "priv") {
        TokenStep::Exchange(req) => {
            assert_eq!(req.method, Method::Post);
            assert_eq!(req.url, "https://thingspace.verizon.com/api/ts/v1/oauth2/token");
            assert_eq!(req.body.as_deref(), Some("grant_type=client_credentials"));
            // base64("pub:priv") == "cHViOnByaXY="
            assert!(req.headers.contains(&(
                "Authorization".to_string(),
                "Basic cHViOnByaXY=".to_string(),
            )));
            assert!(req.headers.contains(&(
                "Content-Type".to_string(),
                "application/x-www-form-urlencoded".to_string(),
            )));
        }
        TokenStep::Cached(_) => panic!("an empty store cannot hit"),
    }
}

#[test]
fn access_exchange_success_caches_token_with_ttl() {
    let mut store = TokenStore::new();
    let body = "{\"access_token\":\"abc\",\"scope\":\"read\",\"token_type\":\"Bearer\",\
                 \"expires_in\":3600}";
    let token = complete_access_token(&mut store, 200, body.to_string()).expect("exchange ok");
    assert_eq!(token, "abc");
    let entry = store.get(TokenKind::Access).expect("token was cached");
    assert_eq!(entry.value, "abc");
    assert_eq!(entry.ttl, 3600);
    assert!(store.get(TokenKind::Session).is_none());
}

#[test]
fn access_exchange_failure_caches_nothing() {
    let mut store = TokenStore::new();
    let r = complete_access_token(&mut store, 200, "not json".to_string());
    assert!(matches!(r, Err(Error::Decode(_))));
    assert!(store.get(TokenKind::Access).is_none());
}

#[test]
fn populated_store_hits_without_exchange() {
    let mut store = TokenStore::new();
    store.put(TokenKind::Access, "cached123".to_string(), 60);
    match get_access_token(&store, "pub", "priv") {
        TokenStep::Cached(v) => assert_eq!(v, "cached123"),
        TokenStep::Exchange(_) => panic!("a hit must not ask for an exchange"),
    }
}

#[test]
fn session_lookup_without_access_token_fails_fast() {
    let store = TokenStore::new();
    match get_session_token(&store, "user", "pass") {
        Err(Error::MissingAccessToken) => {}
        _ => panic!("an empty store must fail with the missing-access-token error"),
    }
}

#[test]
fn session_lookup_with_access_token_asks_for_session_exchange() {
    let mut store = TokenStore::new();
    store.put(TokenKind::Access, "atok".to_string(), 3600);
    match get_session_token(&store, "user", "pass").expect("lookup proceeds") {
        TokenStep::Exchange(req) => {
            assert_eq!(req.method, Method::Post);
            assert_eq!(req.url, "https://thingspace.verizon.com/api/m2m/v1/session/login");
            assert!(req.headers.contains(&(
                "Authorization".to_string(),
                "Bearer atok".to_string(),
            )));
            assert_eq!(
                req.body.as_deref(),
                Some("{\"username\":\"user\",\"password\":\"pass\"}"),
            );
        }
        TokenStep::Cached(_) => panic!("nothing cached under the session key"),
    }
}

#[test]
fn session_lookup_hits_cached_session() {
    let mut store = TokenStore::new();
    store.put(TokenKind::Session, "stok".to_string(), 1200);
    match get_session_token(&store, "user", "pass").expect("lookup proceeds") {
        TokenStep::Cached(v) => assert_eq!(v, "stok"),
        TokenStep::Exchange(_) => panic!("a hit must not ask for an exchange"),
    }
}

#[test]
fn session_exchange_success_caches_token_with_ttl() {
    let mut store = TokenStore::new();
    store.put(TokenKind::Access, "atok".to_string(), 3600);
    let body = "{\"sessionToken\":\"sess1\",\"expiresIn\":1200}";
    let token = complete_session_token(&mut store, 200, body.to_string()).expect("exchange ok");
    assert_eq!(token, "sess1");
    let entry = store.get(TokenKind::Session).expect("token was cached");
    assert_eq!(entry.value, "sess1");
    assert_eq!(entry.ttl, 1200);
    let access = store.get(TokenKind::Access).expect("access entry untouched");
    assert_eq!(access.value, "atok");
}

#[test]
fn put_overwrites_only_its_kind() {
    let mut store = TokenStore::new();
    store.put(TokenKind::Access, "a1".to_string(), 10);
    store.put(TokenKind::Session, "s1".to_string(), 20);
    store.put(TokenKind::Access, "a2".to_string(), 30);
    assert_eq!(store.get(TokenKind::Access).unwrap().value, "a2");
    assert_eq!(store.get(TokenKind::Access).unwrap().ttl, 30);
    assert_eq!(store.get(TokenKind::Session).unwrap().value, "s1");
}
