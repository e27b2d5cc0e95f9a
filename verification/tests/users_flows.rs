//! Accounts, credentials and the end-to-end journey: create a user, log in,
//! pass the authentication gate, and vote.

use blog_core::crypto::CryptoService;
use blog_core::errors::{AppError, AppErrorType};
use blog_core::flows::{create_post, forget_password, post_login, register_user, LoginOutcome};
use blog_core::gate::{CheckAuth, GateOutcome};
use blog_core::jwt::Claims;
use blog_core::models::{PostBlog, User, UserCreds};
use blog_core::reactions::IncOrDec;
use blog_core::store::Store;
use blog_core::{Config, Emailer, Tmpfile};

const NOW: u64 = 1_700_000_000;

fn alice() -> User {
    User {
        id: None,
        username: "alice".to_string(),
        email: "alice@example.com".to_string(),
        password: "secret".to_string(),
        user_avatar: Some("/alice.png".to_string()),
        recovery_code: None,
    }
}

#[test]
fn end_to_end_register_login_gate_and_upvote() {
    let mut store = Store::new();

    // create user alice/secret
    let mut user = alice();
    register_user(&mut store, &mut user).unwrap();
    let alice_id = store.users[0].id.clone().unwrap();
    assert!(blog_core::ids::validate_object_id(alice_id.as_str()));
    assert_eq!(
        store.users[0].user_avatar.as_deref(),
        Some("https://test-blog-static.s3.ap-south-1.amazonaws.com/alice.png")
    );

    // login returns a token for alice's id
    let creds = UserCreds { email: "alice@example.com".to_string(), password: "secret".to_string() };
    let jwt = match post_login(&store, &creds, NOW).unwrap() {
        LoginOutcome::Success(resp) => {
            assert_eq!(resp.username, "alice");
            assert_eq!(resp.user_id, alice_id);
            resp.jwt
        }
        LoginOutcome::IncorrectPassword => panic!("login should succeed"),
    };
    let claims = Claims::decode_req(jwt.as_str(), NOW).unwrap();
    assert_eq!(claims.sub, alice_id);

    // the allow-listed read path passes without a token; a non-listed
    // variant of the same read does not
    let read_path = format!("/user/{}", alice_id);
    match CheckAuth::decide("GET", read_path.as_str(), None, NOW) {
        GateOutcome::Bypass => {}
        _ => panic!("expected bypass"),
    }
    let private_path = format!("/account/{}", alice_id);
    match CheckAuth::decide("GET", private_path.as_str(), None, NOW) {
        GateOutcome::Rejected(e) => assert_eq!(e.status_code(), 401),
        _ => panic!("expected rejection"),
    }

    // create a post as alice and upvote it: 0 -> 1, and alice joins the set
    let body = PostBlog { title: "hello".to_string(), content: "world".to_string() };
    create_post(&mut store, &body, alice_id.as_str(), 42).unwrap();
    let post_id = store.posts[0].id.clone().unwrap();
    assert_eq!(store.posts[0].username, "alice");
    assert_eq!(store.posts[0].upvotes.count, 0);

    store.upvote(post_id.as_str(), alice_id.as_str(), IncOrDec::INC).unwrap();
    assert_eq!(store.posts[0].upvotes.count, 1);
    assert_eq!(store.posts[0].upvotes.users, vec![alice_id.clone()]);
}

#[test]
fn registration_without_avatar_keeps_none() {
    let mut store = Store::new();
    let mut user = alice();
    user.user_avatar = None;
    register_user(&mut store, &mut user).unwrap();
    assert!(store.users[0].user_avatar.is_none());
    assert_eq!(store.users[0].username, "alice");
}

#[test]
fn wrong_password_is_turned_away() {
    let mut store = Store::new();
    let mut user = alice();
    register_user(&mut store, &mut user).unwrap();
    let creds = UserCreds { email: "alice@example.com".to_string(), password: "nope".to_string() };
    match post_login(&store, &creds, NOW).unwrap() {
        LoginOutcome::IncorrectPassword => {}
        LoginOutcome::Success(_) => panic!("wrong password must not log in"),
    }
}

#[test]
fn login_of_unknown_email_is_not_found() {
    let store = Store::new();
    let creds = UserCreds { email: "x@example.com".to_string(), password: "p".to_string() };
    let e = post_login(&store, &creds, NOW).unwrap_err();
    assert_eq!(e.message(), "No User Found");
}

#[test]
fn duplicate_username_and_email_are_refused() {
    let mut store = Store::new();
    let mut first = alice();
    register_user(&mut store, &mut first).unwrap();

    let mut same_name = alice();
    same_name.email = "other@example.com".to_string();
    let e = register_user(&mut store, &mut same_name).unwrap_err();
    assert_eq!(e.cause(), "USERNAME_EXISTS");
    assert_eq!(e.status_code(), 409);

    let mut same_mail = alice();
    same_mail.username = "bob".to_string();
    let e = register_user(&mut store, &mut same_mail).unwrap_err();
    assert_eq!(e.cause(), "EMAIL_EXISTS");
    assert_eq!(store.users.len(), 1);
}

#[test]
fn stored_digest_verifies_only_the_right_password() {
    let digest = CryptoService::hash_password("hunter2".to_string()).unwrap();
    assert_ne!(digest, "hunter2");
    assert!(CryptoService::verify_hash(digest.clone(), "hunter2".to_string()).unwrap());
    assert!(!CryptoService::verify_hash(digest, "hunter3".to_string()).unwrap());
}

#[test]
fn recovery_flow_issues_and_checks_a_code() {
    let mut store = Store::new();
    let mut user = alice();
    register_user(&mut store, &mut user).unwrap();

    let code = forget_password(&mut store, "alice@example.com").unwrap();
    assert!((1000..9999).contains(&code));
    assert!(store.check_validity("alice@example.com", code).is_ok());
    let wrong = if code == 1000 { 1001 } else { 1000 };
    assert!(store.check_validity("alice@example.com", wrong).is_err());
    assert!(store.check_validity("bob@example.com", code).is_err());

    let e = forget_password(&mut store, "bob@example.com").unwrap_err();
    assert_eq!(e.message(), "No User Found");
}

#[test]
fn password_change_takes_effect() {
    let mut store = Store::new();
    let mut user = alice();
    register_user(&mut store, &mut user).unwrap();
    let alice_id = store.users[0].id.clone().unwrap();

    store.change_password(alice_id.as_str(), "newpass").unwrap();
    let stored = store.users[0].password.clone();
    assert!(CryptoService::verify_hash(stored.clone(), "newpass".to_string()).unwrap());
    assert!(!CryptoService::verify_hash(stored, "secret".to_string()).unwrap());

    store.change_password_email("alice@example.com", "third").unwrap();
    let stored = store.users[0].password.clone();
    assert!(CryptoService::verify_hash(stored, "third".to_string()).unwrap());
}

#[test]
fn user_reads_and_details() {
    let mut store = Store::new();
    let mut user = alice();
    register_user(&mut store, &mut user).unwrap();
    let alice_id = store.users[0].id.clone().unwrap();

    let by_id = store.get_user_by_id(alice_id.as_str()).unwrap();
    assert_eq!(by_id.username, "alice");
    let details = by_id.details();
    assert_eq!(details.username, "alice");
    assert_eq!(details.email, "alice@example.com");

    assert_eq!(store.get_user_by_id("zz").unwrap_err().status_code(), 404);
    assert_eq!(
        store
            .get_user_by_id("eeeeeeeeeeeeeeeeeeeeeeee")
            .unwrap_err()
            .message(),
        "No User Found"
    );
    assert_eq!(store.get_users().len(), 1);
}

#[test]
fn patch_user_details_updates_profile_fields() {
    let mut store = Store::new();
    let mut user = alice();
    register_user(&mut store, &mut user).unwrap();
    let alice_id = store.users[0].id.clone().unwrap();
    let old_password = store.users[0].password.clone();

    let body = blog_core::models::PatchUser {
        email: "new@example.com".to_string(),
        username: "alicia".to_string(),
    };
    body.patch_user_details(&mut store, alice_id.as_str()).unwrap();
    assert_eq!(store.users[0].username, "alicia");
    assert_eq!(store.users[0].email, "new@example.com");
    assert_eq!(store.users[0].password, old_password);
}

#[test]
fn error_envelope_applies_fallbacks() {
    let e = AppError {
        message: None,
        cause: Some("boom".to_string()),
        error_type: AppErrorType::DatabaseError,
    };
    assert_eq!(e.message(), "Unexpected Error");
    assert_eq!(e.cause(), "boom");
    assert_eq!(e.status_code(), 500);
    let body = e.error_response();
    assert_eq!(body.error, "Unexpected Error");
    assert_eq!(body.cause, "boom");

    let auth = AppError {
        message: Some("Add the JWT token Header".to_string()),
        cause: None,
        error_type: AppErrorType::JWtTokenError,
    };
    assert_eq!(auth.status_code(), 401);
    assert_eq!(auth.cause(), "Unexpected Error");

    let of = |t: AppErrorType| AppError { message: None, cause: None, error_type: t }.status_code();
    assert_eq!(of(AppErrorType::NotFoundError), 404);
    assert_eq!(of(AppErrorType::InavlidId), 404);
    assert_eq!(of(AppErrorType::JWTParsingError), 500);
    assert_eq!(of(AppErrorType::FileUploadError), 500);
    assert_eq!(of(AppErrorType::HashingError), 500);
    assert_eq!(of(AppErrorType::EmailError), 500);
    assert_eq!(of(AppErrorType::ALREADYEXIST), 409);
}

#[test]
fn small_constructors_carry_their_values() {
    let t = Tmpfile::new("pic.png");
    assert_eq!(t.name, "pic.png");
    assert_eq!(t.tmp_path, "./tmp/pic.png");

    let c = Config::new(
        "127.0.0.1".to_string(),
        "8080".to_string(),
        "mongodb://localhost".to_string(),
        "blog".to_string(),
        "mail@example.com".to_string(),
        "mailpass".to_string(),
    );
    assert_eq!(c.host, "127.0.0.1");
    assert_eq!(c.port, "8080");
    let _svc = c.crypto_services();

    let m = Emailer::new("mail@example.com".to_string(), "mailpass".to_string());
    assert_eq!(m.email, "mail@example.com");

    let cl = Claims::new("u".to_string(), 5);
    assert_eq!(cl.sub, "u");
    assert_eq!(cl.exp, 5);
}
