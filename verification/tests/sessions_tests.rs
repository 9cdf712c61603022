use auth_core::sessions::{Sessions, SessionsImpl};

#[test]
fn issued_tokens_are_distinct_and_independently_revocable() {
    let mut sessions = SessionsImpl::default();

    let first = sessions.create_session("owner-a");
    let second = sessions.create_session("owner-a");

    assert_ne!(first, second);
    assert_eq!(sessions.session_count(), 2);

    // revoking the first leaves the second live
    sessions.delete_session(&first);
    assert_eq!(sessions.session_count(), 1);

    // revoking it again is a no-op
    sessions.delete_session(&first);
    assert_eq!(sessions.session_count(), 1);

    // the second is still revocable on its own
    sessions.delete_session(&second);
    assert_eq!(sessions.session_count(), 0);
}

#[test]
fn tokens_are_nonempty() {
    let mut sessions = SessionsImpl::default();
    let token = sessions.create_session("owner");
    assert!(!token.is_empty());
}

#[test]
fn revoking_an_unknown_or_empty_token_is_a_noop() {
    let mut sessions = SessionsImpl::default();
    let token = sessions.create_session("owner");

    sessions.delete_session("");
    sessions.delete_session("never issued");

    assert_eq!(sessions.session_count(), 1);
    sessions.delete_session(&token);
    assert_eq!(sessions.session_count(), 0);
}

#[test]
fn issuance_capacity_probe_reports_room() {
    let sessions = SessionsImpl::default();
    assert!(sessions.can_issue_now());
}
