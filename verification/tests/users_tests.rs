use auth_core::users::{Users, UsersImpl};

#[test]
fn should_create_user() {
    let mut user_service = UsersImpl::default();
    user_service
        .create_user("username".to_owned(), "password".to_owned())
        .expect("should create user");

    assert_eq!(user_service.user_count(), 1);
}

#[test]
fn should_fail_creating_user_with_existing_username() {
    let mut user_service = UsersImpl::default();
    user_service
        .create_user("username".to_owned(), "password".to_owned())
        .expect("should create user");

    let result = user_service.create_user("username".to_owned(), "password".to_owned());

    assert!(result.is_err());
}

#[test]
fn should_retrieve_user_uuid() {
    let mut user_service = UsersImpl::default();
    user_service
        .create_user("username".to_owned(), "password".to_owned())
        .expect("should create user");

    assert!(user_service
        .get_user_uuid("username".to_owned(), "password".to_owned())
        .is_some());
}

#[test]
fn should_fail_to_retrieve_user_uuid_with_incorrect_password() {
    let mut user_service = UsersImpl::default();
    user_service
        .create_user("username".to_owned(), "password".to_owned())
        .expect("should create user");

    assert!(user_service
        .get_user_uuid("username".to_owned(), "incorrect password".to_owned())
        .is_none());
}

#[test]
fn should_delete_user() {
    let mut user_service = UsersImpl::default();
    user_service
        .create_user("username".to_owned(), "password".to_owned())
        .expect("should create user");

    let user_uuid = user_service
        .get_user_uuid("username".to_owned(), "password".to_owned())
        .unwrap();

    user_service.delete_user(user_uuid);

    assert_eq!(user_service.user_count(), 0);
}

#[test]
fn distinct_names_get_distinct_ids() {
    let mut user_service = UsersImpl::default();
    user_service
        .create_user("alice".to_owned(), "secret".to_owned())
        .expect("should create user");
    user_service
        .create_user("bob".to_owned(), "secret".to_owned())
        .expect("should create user");

    let alice_id = user_service
        .get_user_uuid("alice".to_owned(), "secret".to_owned())
        .unwrap();
    let bob_id = user_service
        .get_user_uuid("bob".to_owned(), "secret".to_owned())
        .unwrap();

    assert_ne!(alice_id, bob_id);
    assert!(!alice_id.is_empty());
    assert!(!bob_id.is_empty());
}

#[test]
fn duplicate_registration_returns_the_name_and_keeps_the_store() {
    let mut user_service = UsersImpl::default();
    user_service
        .create_user("alice".to_owned(), "secret".to_owned())
        .expect("should create user");

    let result = user_service.create_user("alice".to_owned(), "other".to_owned());

    assert_eq!(result, Err("alice".to_owned()));
    assert_eq!(user_service.user_count(), 1);
    assert!(user_service
        .get_user_uuid("alice".to_owned(), "secret".to_owned())
        .is_some());
}

#[test]
fn deleted_user_misses_on_both_lookup_paths() {
    let mut user_service = UsersImpl::default();
    user_service
        .create_user("alice".to_owned(), "secret".to_owned())
        .expect("should create user");

    let alice_id = user_service
        .get_user_uuid("alice".to_owned(), "secret".to_owned())
        .unwrap();

    user_service.delete_user(alice_id.clone());

    // by-name lookup misses
    assert!(user_service
        .get_user_uuid("alice".to_owned(), "secret".to_owned())
        .is_none());
    // by-id deletion is now a no-op
    user_service.delete_user(alice_id);
    assert_eq!(user_service.user_count(), 0);
}

#[test]
fn delete_unknown_id_is_a_noop() {
    let mut user_service = UsersImpl::default();
    user_service
        .create_user("alice".to_owned(), "secret".to_owned())
        .expect("should create user");

    user_service.delete_user("no such id".to_owned());

    assert_eq!(user_service.user_count(), 1);
}

#[test]
fn empty_strings_are_handled() {
    let mut user_service = UsersImpl::default();
    user_service
        .create_user("".to_owned(), "".to_owned())
        .expect("should create user");

    assert!(user_service
        .get_user_uuid("".to_owned(), "".to_owned())
        .is_some());
    assert!(user_service
        .get_user_uuid("".to_owned(), "x".to_owned())
        .is_none());
}
