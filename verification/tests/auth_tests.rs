use auth_core::auth::AuthService;
use auth_core::responses::StatusCode;
use auth_core::sessions::SessionsImpl;
use auth_core::users::{Users, UsersImpl};

#[test]
fn sign_in_should_fail_if_user_not_found() {
    let users_service = UsersImpl::default();
    let sessions_service = SessionsImpl::default();

    let mut auth_service = AuthService::new(users_service, sessions_service);

    let result = auth_service.sign_in("123456".to_owned(), "654321".to_owned());

    assert_eq!(result.status_code, StatusCode::Failure);
    assert_eq!(result.user_uuid.is_empty(), true);
    assert_eq!(result.session_token.is_empty(), true);
}

#[test]
fn sign_in_should_fail_if_incorrect_password() {
    let mut users_service = UsersImpl::default();

    let _ = users_service.create_user("123456".to_owned(), "654321".to_owned());

    let sessions_service = SessionsImpl::default();

    let mut auth_service = AuthService::new(users_service, sessions_service);

    let result = auth_service.sign_in("123456".to_owned(), "wrong password".to_owned());

    assert_eq!(result.status_code, StatusCode::Failure);
    assert_eq!(result.user_uuid.is_empty(), true);
    assert_eq!(result.session_token.is_empty(), true);
}

#[test]
fn sign_in_should_succeed() {
    let mut users_service = UsersImpl::default();

    let _ = users_service.create_user("123456".to_owned(), "654321".to_owned());

    let sessions_service = SessionsImpl::default();

    let mut auth_service = AuthService::new(users_service, sessions_service);

    let result = auth_service.sign_in("123456".to_owned(), "654321".to_owned());

    assert_eq!(result.status_code, StatusCode::Success);
    assert_eq!(result.user_uuid.is_empty(), false);
    assert_eq!(result.session_token.is_empty(), false);
}

#[test]
fn sign_up_should_fail_if_username_exists() {
    let mut users_service = UsersImpl::default();

    let _ = users_service.create_user("123456".to_owned(), "654321".to_owned());

    let sessions_service = SessionsImpl::default();

    let mut auth_service = AuthService::new(users_service, sessions_service);

    let result = auth_service.sign_up("123456".to_owned(), "654321".to_owned());

    assert_eq!(result.status_code, StatusCode::Failure);
}

#[test]
fn sign_up_should_succeed() {
    let users_service = UsersImpl::default();
    let sessions_service = SessionsImpl::default();

    let mut auth_service = AuthService::new(users_service, sessions_service);

    let result = auth_service.sign_up("123456".to_owned(), "654321".to_owned());

    assert_eq!(result.status_code, StatusCode::Success);
}

#[test]
fn sign_out_should_succeed() {
    let users_service = UsersImpl::default();
    let sessions_service = SessionsImpl::default();

    let mut auth_service = AuthService::new(users_service, sessions_service);

    let result = auth_service.sign_out("".to_owned());

    assert_eq!(result.status_code, StatusCode::Success);
}

#[test]
fn sign_up_then_sign_in_round_trip() {
    let mut auth_service = AuthService::new(UsersImpl::default(), SessionsImpl::default());

    let up = auth_service.sign_up("alice".to_owned(), "secret".to_owned());
    assert_eq!(up.status_code, StatusCode::Success);

    let ok = auth_service.sign_in("alice".to_owned(), "secret".to_owned());
    assert_eq!(ok.status_code, StatusCode::Success);
    assert!(!ok.user_uuid.is_empty());
    assert!(!ok.session_token.is_empty());

    let bad = auth_service.sign_in("alice".to_owned(), "wrong".to_owned());
    assert_eq!(bad.status_code, StatusCode::Failure);
    assert!(bad.user_uuid.is_empty());
    assert!(bad.session_token.is_empty());
}

#[test]
fn two_sign_ups_issue_distinct_identity_ids() {
    let mut auth_service = AuthService::new(UsersImpl::default(), SessionsImpl::default());

    assert_eq!(
        auth_service.sign_up("alice".to_owned(), "a".to_owned()).status_code,
        StatusCode::Success
    );
    assert_eq!(
        auth_service.sign_up("bob".to_owned(), "b".to_owned()).status_code,
        StatusCode::Success
    );

    let alice = auth_service.sign_in("alice".to_owned(), "a".to_owned());
    let bob = auth_service.sign_in("bob".to_owned(), "b".to_owned());
    assert_ne!(alice.user_uuid, bob.user_uuid);
}

#[test]
fn two_sign_ins_issue_distinct_tokens() {
    let mut auth_service = AuthService::new(UsersImpl::default(), SessionsImpl::default());

    let up = auth_service.sign_up("alice".to_owned(), "secret".to_owned());
    assert_eq!(up.status_code, StatusCode::Success);

    let first = auth_service.sign_in("alice".to_owned(), "secret".to_owned());
    let second = auth_service.sign_in("alice".to_owned(), "secret".to_owned());

    assert_eq!(first.status_code, StatusCode::Success);
    assert_eq!(second.status_code, StatusCode::Success);
    assert_ne!(first.session_token, second.session_token);
}

#[test]
fn sign_out_is_idempotent() {
    let mut auth_service = AuthService::new(UsersImpl::default(), SessionsImpl::default());

    let up = auth_service.sign_up("alice".to_owned(), "secret".to_owned());
    assert_eq!(up.status_code, StatusCode::Success);
    let session = auth_service.sign_in("alice".to_owned(), "secret".to_owned());
    assert_eq!(session.status_code, StatusCode::Success);

    let first = auth_service.sign_out(session.session_token.clone());
    let again = auth_service.sign_out(session.session_token);
    let never_issued = auth_service.sign_out("never issued".to_owned());

    assert_eq!(first.status_code, StatusCode::Success);
    assert_eq!(again.status_code, StatusCode::Success);
    assert_eq!(never_issued.status_code, StatusCode::Success);
}
