//! The authentication gate and the token service, exercised with the real
//! signing and hashing crates linked in.

use blog_core::gate::{
    contains_substr, extract_bearer, path_allowed, str_eq_check, trim_spaces, CheckAuth,
    CheckAuthMiddleware, GateOutcome,
};
use blog_core::jwt::Claims;
use blog_core::AppData;

const NOW: u64 = 1_700_000_000;
const DAY: u64 = 86_400;

#[test]
fn token_round_trip_validates_immediately() {
    let token = Claims::encode_req("user-1", NOW).unwrap();
    let claims = Claims::decode_req(token.as_str(), NOW).unwrap();
    assert_eq!(claims.sub, "user-1");
    assert_eq!(claims.exp, NOW + DAY);
}

#[test]
fn token_fails_once_expiry_passes() {
    let token = Claims::encode_req("user-1", NOW).unwrap();
    assert!(Claims::decode_req(token.as_str(), NOW + DAY - 1).is_ok());
    assert!(Claims::decode_req(token.as_str(), NOW + DAY).is_err());
    assert!(Claims::decode_req(token.as_str(), NOW + DAY + 1).is_err());
}

#[test]
fn garbage_token_is_rejected() {
    let e = Claims::decode_req("not-a-token", NOW).unwrap_err();
    assert_eq!(e.status_code(), 401);
}

#[test]
fn tampered_token_is_rejected() {
    let token = Claims::encode_req("user-1", NOW).unwrap();
    let mut tampered = token.clone();
    tampered.push('x');
    assert!(Claims::decode_req(tampered.as_str(), NOW).is_err());
}

#[test]
fn allow_listed_paths_bypass_without_header() {
    let paths = [
        "/auth/user",
        "/user",
        "/user/65f1aa0000000000000000aa",
        "/blogs",
        "/blog/65f1aa0000000000000000aa",
        "/comment/65f1aa0000000000000000aa",
    ];
    for p in paths {
        match CheckAuth::decide("GET", p, None, NOW) {
            GateOutcome::Bypass => {}
            _ => panic!("expected bypass for {}", p),
        }
    }
}

#[test]
fn non_listed_path_without_header_is_rejected() {
    match CheckAuth::decide("GET", "/admin", None, NOW) {
        GateOutcome::Rejected(e) => assert_eq!(e.status_code(), 401),
        _ => panic!("expected rejection"),
    }
}

#[test]
fn options_probe_bypasses() {
    match CheckAuth::decide("OPTIONS", "/admin", None, NOW) {
        GateOutcome::Bypass => {}
        _ => panic!("expected bypass"),
    }
}

#[test]
fn malformed_header_is_rejected() {
    match CheckAuth::decide("GET", "/admin", Some("Token abc"), NOW) {
        GateOutcome::Rejected(e) => assert_eq!(e.status_code(), 401),
        _ => panic!("expected rejection"),
    }
}

#[test]
fn valid_bearer_token_authenticates() {
    let token = Claims::encode_req("user-7", NOW).unwrap();
    let header = format!("Bearer {}", token);
    match CheckAuth::decide("GET", "/admin", Some(header.as_str()), NOW) {
        GateOutcome::Authenticated(c) => assert_eq!(c.sub, "user-7"),
        _ => panic!("expected authentication"),
    }
}

#[test]
fn expired_bearer_token_is_rejected() {
    let token = Claims::encode_req("user-7", NOW).unwrap();
    let header = format!("Bearer {}", token);
    match CheckAuth::decide("GET", "/admin", Some(header.as_str()), NOW + DAY) {
        GateOutcome::Rejected(e) => assert_eq!(e.status_code(), 401),
        _ => panic!("expected rejection"),
    }
}

#[test]
fn middleware_publishes_identity_once() {
    let token = Claims::encode_req("user-9", NOW).unwrap();
    let header = format!("Bearer {}", token);
    let mw = CheckAuthMiddleware { service: 0u8 };
    let mut data = AppData::new();
    match mw.call("GET", "/admin", Some(header.as_str()), NOW, &mut data) {
        GateOutcome::Authenticated(_) => {}
        _ => panic!("expected authentication"),
    }
    assert_eq!(data.user_id.as_deref(), Some("user-9"));

    let mut empty = AppData::new();
    match mw.call("GET", "/blogs", None, NOW, &mut empty) {
        GateOutcome::Bypass => {}
        _ => panic!("expected bypass"),
    }
    assert!(empty.user_id.is_none());
}

#[test]
fn bearer_extraction_trims_the_scheme() {
    assert_eq!(extract_bearer("Bearer   abc  ").as_deref(), Some("abc"));
    assert_eq!(extract_bearer("Bearer x").as_deref(), Some("x"));
    assert!(extract_bearer("Basic abc").is_none());
    assert!(extract_bearer("").is_none());
}

#[test]
fn substring_and_trim_helpers() {
    assert!(contains_substr("/api/blog/12", "/blog/"));
    assert!(!contains_substr("/api/blag/12", "/blog/"));
    assert!(contains_substr("abc", ""));
    assert!(path_allowed("/x/comment/9"));
    assert!(!path_allowed("/x/comments"));
    assert_eq!(trim_spaces("  a b  "), "a b");
    assert_eq!(trim_spaces("   "), "");
    assert!(str_eq_check("same", "same"));
    assert!(!str_eq_check("same", "sane"));
}
