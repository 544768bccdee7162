use redfish_auth::auth::{AuthenticatedUser, StaticAuthenticator};
use redfish_auth::role::Role;
use redfish_auth::session::{issue_session, SessionStore};

fn principal(name: &str) -> AuthenticatedUser {
    AuthenticatedUser { username: name.to_string(), role: Role::Operator }
}

#[test]
fn create_then_lookup_returns_the_same_principal() {
    let mut store = SessionStore::new(60);
    let session = store.create_at(principal("alice"), 1000);
    let found = store.lookup_at(&session.token, 1000).expect("fresh session must be found");
    assert_eq!(found.username, "alice");
    assert_eq!(found.role, Role::Operator);
}

#[test]
fn lookup_at_the_ttl_boundary_still_succeeds() {
    let mut store = SessionStore::new(60);
    let session = store.create_at(principal("alice"), 1000);
    assert!(store.lookup_at(&session.token, 1060).is_some());
}

#[test]
fn lookup_after_ttl_returns_none() {
    let mut store = SessionStore::new(60);
    let session = store.create_at(principal("alice"), 1000);
    assert!(store.lookup_at(&session.token, 1061).is_none());
}

#[test]
fn revoke_then_lookup_returns_none_idempotently() {
    let mut store = SessionStore::new(60);
    let session = store.create_at(principal("bob"), 500);
    store.revoke(&session.token);
    assert!(store.lookup_at(&session.token, 500).is_none());
    store.revoke(&session.token);
    assert!(store.lookup_at(&session.token, 500).is_none());
}

#[test]
fn revoking_one_token_leaves_others_alone() {
    let mut store = SessionStore::new(60);
    let a = store.create_at(principal("alice"), 100);
    let b = store.create_at(principal("bob"), 100);
    store.revoke(&a.token);
    assert!(store.lookup_at(&a.token, 100).is_none());
    let found = store.lookup_at(&b.token, 100).expect("the other session must survive");
    assert_eq!(found.username, "bob");
}

#[test]
fn tokens_are_long_hex_strings() {
    let mut store = SessionStore::new(60);
    let session = store.create_at(principal("alice"), 0);
    assert_eq!(session.token.len(), 32);
    assert!(session.token.chars().all(|c| c.is_ascii_hexdigit()));
}

#[test]
fn unknown_token_is_not_found() {
    let store = SessionStore::new(60);
    assert!(store.lookup_at("deadbeef", 0).is_none());
}

#[test]
fn sweep_drops_expired_sessions_and_keeps_live_ones() {
    let mut store = SessionStore::new(60);
    let stale = store.create_at(principal("stale"), 100);
    let live = store.create_at(principal("live"), 200);
    store.sweep(230);
    assert!(store.lookup_at(&stale.token, 230).is_none());
    let found = store.lookup_at(&live.token, 230).expect("a live session must survive a sweep");
    assert_eq!(found.username, "live");
}

#[test]
fn clock_based_create_and_lookup_find_a_fresh_session() {
    let mut store = SessionStore::new(u64::MAX);
    let session = store.create(principal("dora"));
    let found = store.lookup(&session.token).expect("a session that cannot expire must be found");
    assert_eq!(found.username, "dora");
}

#[test]
fn issuing_a_session_verifies_credentials_first() {
    let verifier = StaticAuthenticator {
        username: "alice".to_string(),
        password: "secret".to_string(),
        role: Role::Administrator,
    };
    let mut store = SessionStore::new(60);
    let session = issue_session(
        &mut store,
        &verifier,
        "alice".to_string(),
        "secret".to_string(),
        100,
    )
    .expect("valid credentials must issue a session");
    let found = store.lookup_at(&session.token, 120).expect("issued session must be live");
    assert_eq!(found.username, "alice");
    assert_eq!(found.role, Role::Administrator);

    match issue_session(&mut store, &verifier, "alice".to_string(), "wrong".to_string(), 100) {
        Err(resp) => assert_eq!(resp.status, 401),
        Ok(_) => panic!("wrong credentials must not issue a session"),
    }
}

#[test]
fn session_records_its_creation_time_and_principal() {
    let mut store = SessionStore::new(60);
    let session = store.create_at(principal("carol"), 777);
    assert_eq!(session.created_at, 777);
    assert_eq!(session.principal.username, "carol");
    assert_eq!(store.ttl_seconds(), 60);
}
