use redfish_auth::auth::{AuthenticatedUser, ExampleBasicAuthenticator, StaticAuthenticator};
use redfish_auth::base64::b64_decode_str;
use redfish_auth::basic::parse_basic_header;
use redfish_auth::response::Response;
use redfish_auth::role::Role;
use redfish_auth::session::SessionStore;
use redfish_auth::strategy::{
    basic_authenticate, combine, session_authenticate, AuthRequest, CombinedAuthenticationProxy,
};

fn reject(challenge: &str) -> Response {
    Response {
        status: 401,
        challenges: vec![challenge.to_string()],
        message: "Unauthorized".to_string(),
        required_privilege: None,
    }
}

fn granted(name: &str) -> Result<Option<AuthenticatedUser>, Response> {
    Ok(Some(AuthenticatedUser { username: name.to_string(), role: Role::Operator }))
}

#[test]
fn base64_decodes_exact_values() {
    assert_eq!(b64_decode_str(""), Some(vec![]));
    assert_eq!(b64_decode_str("QQ=="), Some(vec![65]));
    assert_eq!(b64_decode_str("QUI="), Some(vec![65, 66]));
    assert_eq!(b64_decode_str("QUJD"), Some(vec![65, 66, 67]));
    assert_eq!(b64_decode_str("dXNlcjpwYXNz"), Some(b"user:pass".to_vec()));
}

#[test]
fn base64_rejects_bad_input() {
    assert_eq!(b64_decode_str("QQ="), None);
    assert_eq!(b64_decode_str("Q"), None);
    assert_eq!(b64_decode_str("Q==="), None);
    assert_eq!(b64_decode_str("QR=="), None);
    assert_eq!(b64_decode_str("Q!JD"), None);
}

#[test]
fn basic_header_parses_credentials() {
    let c = parse_basic_header("Basic dXNlcjpwYXNz").expect("well-formed header");
    assert_eq!(c.username, "user");
    assert_eq!(c.password, "pass");
}

#[test]
fn basic_header_keeps_colons_in_the_secret() {
    // "user:pa:ss"
    let c = parse_basic_header("Basic dXNlcjpwYTpzcw==").expect("well-formed header");
    assert_eq!(c.username, "user");
    assert_eq!(c.password, "pa:ss");
}

#[test]
fn malformed_basic_headers_are_refused() {
    assert!(parse_basic_header("Bearer abc").is_none());
    assert!(parse_basic_header("Basic !!!").is_none());
    // "userpass" holds no colon
    assert!(parse_basic_header("Basic dXNlcnBhc3M=").is_none());
    assert!(parse_basic_header("").is_none());
}

#[test]
fn basic_strategy_accepts_and_rejects() {
    let verifier = StaticAuthenticator {
        username: "user".to_string(),
        password: "pass".to_string(),
        role: Role::ReadOnly,
    };
    let good = AuthRequest {
        authorization: Some("Basic dXNlcjpwYXNz".to_string()),
        session_token: None,
    };
    match basic_authenticate(&verifier, &good) {
        Ok(Some(user)) => {
            assert_eq!(user.username, "user");
            assert_eq!(user.role, Role::ReadOnly);
        }
        _ => panic!("valid credentials must authenticate"),
    }
    let wrong = AuthRequest {
        // "user:wrong"
        authorization: Some("Basic dXNlcjp3cm9uZw==".to_string()),
        session_token: None,
    };
    match basic_authenticate(&verifier, &wrong) {
        Err(resp) => {
            assert_eq!(resp.status, 401);
            assert_eq!(resp.challenges, vec!["Basic".to_string()]);
        }
        _ => panic!("wrong credentials must be rejected"),
    }
    let absent = AuthRequest { authorization: None, session_token: None };
    assert!(matches!(basic_authenticate(&verifier, &absent), Ok(None)));
}

#[test]
fn malformed_basic_header_is_a_400_hard_error() {
    let verifier = StaticAuthenticator {
        username: "user".to_string(),
        password: "pass".to_string(),
        role: Role::ReadOnly,
    };
    let malformed = AuthRequest {
        authorization: Some("Basic !!!".to_string()),
        session_token: None,
    };
    match basic_authenticate(&verifier, &malformed) {
        Err(resp) => {
            assert_eq!(resp.status, 400);
            assert_eq!(resp.challenges, vec!["Basic".to_string()]);
        }
        _ => panic!("a malformed header must be a hard error"),
    }
}

#[test]
fn session_strategy_treats_unknown_tokens_as_anonymous() {
    let store = SessionStore::new(60);
    let req = AuthRequest {
        authorization: None,
        session_token: Some("deadbeef".to_string()),
    };
    assert!(matches!(session_authenticate(&store, &req, 0), Ok(None)));
}

#[test]
fn combined_prefers_success_in_either_order() {
    let r = combine(vec![Err(reject("Basic")), granted("alice")]);
    match r {
        Ok(Some(user)) => assert_eq!(user.username, "alice"),
        _ => panic!("a later success must win over an earlier failure"),
    }
    let r = combine(vec![granted("alice"), Err(reject("Basic"))]);
    match r {
        Ok(Some(user)) => assert_eq!(user.username, "alice"),
        _ => panic!("an earlier success must win over a later failure"),
    }
}

#[test]
fn combined_of_all_anonymous_is_anonymous() {
    let r = combine(vec![Ok(None), Ok(None), Ok(None)]);
    assert!(matches!(r, Ok(None)));
}

#[test]
fn combined_of_all_failures_merges_every_challenge() {
    let r = combine(vec![Err(reject("Token")), Err(reject("Basic"))]);
    match r {
        Err(resp) => {
            assert_eq!(resp.status, 401);
            assert_eq!(resp.challenges, vec!["Token".to_string(), "Basic".to_string()]);
        }
        _ => panic!("all failures must combine to a failure"),
    }
}

#[test]
fn combined_failure_keeps_the_first_rejections_status_and_message() {
    let malformed = Response {
        status: 400,
        challenges: vec!["Basic".to_string()],
        message: "Malformed authorization header".to_string(),
        required_privilege: None,
    };
    let r = combine(vec![Err(malformed), Err(reject("Token"))]);
    match r {
        Err(resp) => {
            assert_eq!(resp.status, 400);
            assert_eq!(resp.message, "Malformed authorization header");
            assert_eq!(resp.challenges, vec!["Basic".to_string(), "Token".to_string()]);
        }
        _ => panic!("all failures must combine to a failure"),
    }
}

#[test]
fn invalid_cookie_with_valid_basic_credentials_still_succeeds() {
    let store = SessionStore::new(60);
    let proxy = CombinedAuthenticationProxy::new(store, ExampleBasicAuthenticator);
    let req = AuthRequest {
        authorization: Some("Basic dXNlcjpwYXNz".to_string()),
        session_token: Some("stale-token".to_string()),
    };
    match proxy.authenticate(&req, 0) {
        Ok(Some(user)) => {
            assert_eq!(user.username, "user");
            assert_eq!(user.role, Role::Administrator);
        }
        _ => panic!("valid Basic credentials must rescue a stale session token"),
    }
}

#[test]
fn proxy_finds_a_live_session() {
    let mut store = SessionStore::new(60);
    let session = store.create_at(
        AuthenticatedUser { username: "alice".to_string(), role: Role::Operator },
        100,
    );
    let proxy = CombinedAuthenticationProxy::new(store, ExampleBasicAuthenticator);
    let req = AuthRequest { authorization: None, session_token: Some(session.token.clone()) };
    match proxy.authenticate(&req, 130) {
        Ok(Some(user)) => assert_eq!(user.username, "alice"),
        _ => panic!("a live session must authenticate"),
    }
}
