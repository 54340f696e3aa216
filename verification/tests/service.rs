//! Tests of the service layer's decision cores.

use workpool::controllers::users::{
    authenticate, plan_session_upsert, prepare_new_user, SessionPlan,
};
use workpool::errors::CustomError;
use workpool::middlewares::auth::{
    establish_cookie_id, session_user_id, Session, SessionManagerLayer, COOKIE_USER_IDENT,
};
use workpool::models::sessions;
use workpool::models::users::{CreateUserForm, User};

fn sample_row() -> sessions::Session {
    sessions::Session {
        id: 7,
        cookie_id: String::from("abcd1234"),
        user_id: 42,
        last_active: String::from("2024-01-01 00:00:00"),
    }
}

#[test]
fn created_user_logs_in_with_its_password_only() {
    let form = CreateUserForm {
        name: String::from("alice"),
        password: String::from("hunter2"),
    };
    let user = prepare_new_user(form).unwrap();
    assert_eq!(user.name, "alice");
    assert!(user.active);
    assert_eq!(user.id, 0);
    assert_eq!(user.password_hash.len(), 60);
    // The stored hash is a real bcrypt hash, not the password itself.
    assert_ne!(user.password_hash, "hunter2");
    assert!(user.password_hash.starts_with("$2"));

    assert!(authenticate(Some(&user), "hunter2").is_ok());
    assert_eq!(
        authenticate(Some(&user), "wrong-password"),
        Err(CustomError::BadRequest)
    );
    assert_eq!(
        authenticate(None, "hunter2"),
        Err(CustomError::InvalidCredentials)
    );
}

#[test]
fn unreadable_stored_hash_rejects_the_login() {
    let user = User {
        id: 1,
        name: String::from("bob"),
        active: true,
        password_hash: String::from("not-a-bcrypt-hash"),
    };
    assert_eq!(
        authenticate(Some(&user), "anything"),
        Err(CustomError::BadRequest)
    );
}

#[test]
fn presented_cookie_identity_is_kept() {
    let (id, fresh) = establish_cookie_id(Some(String::from("abcd1234")));
    assert_eq!(id, "abcd1234");
    assert!(!fresh);
}

#[test]
fn missing_or_empty_cookie_identity_is_minted() {
    let (id, fresh) = establish_cookie_id(None);
    assert_eq!(id.chars().count(), 8);
    assert!(fresh);
    assert!(id
        .chars()
        .all(|c| c == '_' || c == '-' || c.is_ascii_alphanumeric()));

    let (id2, fresh2) = establish_cookie_id(Some(String::new()));
    assert_eq!(id2.chars().count(), 8);
    assert!(fresh2);
}

#[test]
fn session_resolves_to_found_row_or_nobody() {
    let row = sample_row();
    assert_eq!(session_user_id(Some(&row)), 42);
    assert_eq!(session_user_id(None), 0);

    let session = Session::new(String::from("abcd1234"), 42);
    assert_eq!(session.cookie_id, "abcd1234");
    assert_eq!(session.user_id, 42);
}

#[test]
fn login_session_is_refreshed_or_created() {
    let row = sample_row();
    let plan = plan_session_upsert(Some(&row), String::from("abcd1234"), 42);
    assert!(matches!(plan, SessionPlan::Refresh(7)));

    let plan = plan_session_upsert(None, String::from("abcd1234"), 42);
    match plan {
        SessionPlan::Create(cookie, uid) => {
            assert_eq!(cookie, "abcd1234");
            assert_eq!(uid, 42);
        }
        _ => panic!("a missing session must be created"),
    }
}

#[test]
fn layer_wraps_and_returns_the_inner_service() {
    let layer = SessionManagerLayer;
    let svc = layer.layer(5u32);
    assert_eq!(svc.into_inner(), 5u32);
    assert_eq!(COOKIE_USER_IDENT, "user_identity");
}

#[test]
fn error_categories_map_to_their_status_and_message() {
    assert_eq!(CustomError::BadRequest.status_code(), 400);
    assert_eq!(CustomError::InternalServerError.status_code(), 500);
    assert_eq!(CustomError::InvalidCredentials.status_code(), 401);
    assert_eq!(CustomError::BadRequest.message(), "Bad Request");
    assert_eq!(
        CustomError::InternalServerError.message(),
        "Internal Server Error"
    );
    assert_eq!(CustomError::InvalidCredentials.message(), "Invalid Credentials");
}
