//! The orchestrator: composes the credential store and the session store
//! into the three operations exposed at the boundary — sign-up, sign-in,
//! sign-out. Every call is answered with a well-formed response; internal
//! error kinds are collapsed into a two-valued status.

use vstd::prelude::*;

use crate::responses::{SignInResponse, SignOutResponse, SignUpResponse, StatusCode};
use crate::sessions::{contains_token, Session, Sessions};
use crate::users::{contains_id, contains_name, has_matching_credential, User, Users};

verus! {

/// The authentication engine. It owns both stores exclusively; callers
/// serialize operations against each other by reaching it through one
/// point of exclusive access, so every operation sees and leaves
/// consistent store state.
pub struct AuthService<U: Users, S: Sessions> {
    users_service: U,
    sessions_service: S,
}

impl<U: Users, S: Sessions> AuthService<U, S> {
    /// The identity records currently registered.
    pub closed spec fn users(&self) -> Seq<User> {
        self.users_service.records()
    }

    /// The sessions currently live.
    pub closed spec fn sessions(&self) -> Seq<Session> {
        self.sessions_service.sessions()
    }

    /// Both stores satisfy their invariants.
    pub closed spec fn wf(&self) -> bool {
        self.users_service.wf() && self.sessions_service.wf()
    }

    /// The session store can still issue a token (a machine bound on its
    /// issuance counter, never reached in practice).
    pub closed spec fn can_issue(&self) -> bool {
        self.sessions_service.can_issue()
    }

    pub fn new(users_service: U, sessions_service: S) -> (s: Self)
        ensures
            s.users() == users_service.records(),
            s.sessions() == sessions_service.sessions(),
            s.wf() == (users_service.wf() && sessions_service.wf()),
            s.can_issue() == sessions_service.can_issue(),
    {
        AuthService { users_service, sessions_service }
    }

    /// Executable probe for `can_issue`, for callers that do not track the
    /// issuance counter.
    pub fn can_issue_session(&self) -> (b: bool)
        ensures
            b == self.can_issue(),
    {
        self.sessions_service.can_issue_now()
    }

    /// Registers a credential. Reports `Success` exactly when the store
    /// accepted it; a duplicate login name always reports `Failure`, and
    /// any failure leaves both stores unchanged.
    pub fn sign_up(&mut self, username: String, password: String) -> (r: SignUpResponse)
        requires
            old(self).wf(),
        ensures
            final(self).wf(),
            final(self).sessions() == old(self).sessions(),
            final(self).can_issue() == old(self).can_issue(),
            contains_name(old(self).users(), username@) ==> r.status_code == StatusCode::Failure,
            r.status_code == StatusCode::Failure ==> final(self).users() == old(self).users(),
            r.status_code == StatusCode::Success ==> {
                &&& !contains_name(old(self).users(), username@)
                &&& final(self).users().len() == old(self).users().len() + 1
                &&& final(self).users().drop_last() == old(self).users()
                &&& final(self).users().last().username@ == username@
                &&& !contains_id(old(self).users(), final(self).users().last().user_uuid@)
                &&& final(self).users().last().user_uuid@.len() > 0
                &&& U::matches_credential(password@, final(self).users().last().password_hash@)
            },
    {
        let result = self.users_service.create_user(username, password);
        match result {
            Ok(()) => SignUpResponse { status_code: StatusCode::Success },
            Err(_) => SignUpResponse { status_code: StatusCode::Failure },
        }
    }

    /// Verifies a credential and, on a match, issues a session token bound
    /// to the matched identity. Reports `Success` exactly when a
    /// registered record for `username` verifies against `password`; on
    /// failure the identity id and token are empty strings and no session
    /// is created, and an unknown name is indistinguishable from a wrong
    /// password.
    pub fn sign_in(&mut self, username: String, password: String) -> (r: SignInResponse)
        requires
            old(self).wf(),
            old(self).can_issue(),
        ensures
            final(self).wf(),
            final(self).users() == old(self).users(),
            (r.status_code == StatusCode::Success) == has_matching_credential::<U>(
                old(self).users(),
                username@,
                password@,
            ),
            r.status_code == StatusCode::Failure ==> {
                &&& r.user_uuid@ == Seq::<char>::empty()
                &&& r.session_token@ == Seq::<char>::empty()
                &&& final(self).sessions() == old(self).sessions()
            },
            r.status_code == StatusCode::Success ==> {
                &&& r.user_uuid@.len() > 0
                &&& r.session_token@.len() > 0
                &&& exists|i: int|
                    0 <= i < old(self).users().len() && #[trigger] old(self).users()[i].username@
                        == username@ && U::matches_credential(
                        password@,
                        old(self).users()[i].password_hash@,
                    ) && r.user_uuid@ == old(self).users()[i].user_uuid@
                &&& !contains_token(old(self).sessions(), r.session_token@)
                &&& final(self).sessions().len() == old(self).sessions().len() + 1
                &&& final(self).sessions().drop_last() == old(self).sessions()
                &&& final(self).sessions().last().token@ == r.session_token@
                &&& final(self).sessions().last().user_uuid@ == r.user_uuid@
            },
    {
        let result = self.users_service.get_user_uuid(username, password);
        match result {
            None => SignInResponse {
                status_code: StatusCode::Failure,
                user_uuid: String::new(),
                session_token: String::new(),
            },
            Some(user_uuid) => {
                let ghost rs = old(self).users();
                let ghost j = choose|i: int|
                    0 <= i < rs.len() && #[trigger] rs[i].username@ == username@
                        && U::matches_credential(password@, rs[i].password_hash@) && user_uuid@
                        == rs[i].user_uuid@ && user_uuid@.len() > 0;
                let session_token = self.sessions_service.create_session(user_uuid.as_str());
                let r = SignInResponse {
                    status_code: StatusCode::Success,
                    user_uuid,
                    session_token,
                };
                proof {
                    assert(0 <= j < rs.len() && rs[j].username@ == username@
                        && U::matches_credential(password@, rs[j].password_hash@) && r.user_uuid@
                        == rs[j].user_uuid@);
                }
                r
            },
        }
    }

    /// Revokes the given token unconditionally — including an empty or
    /// never-issued one — and always reports `Success`: sign-out is
    /// idempotent and never reveals whether a session actually existed.
    pub fn sign_out(&mut self, session_token: String) -> (r: SignOutResponse)
        requires
            old(self).wf(),
        ensures
            final(self).wf(),
            r.status_code == StatusCode::Success,
            final(self).users() == old(self).users(),
            old(self).can_issue() ==> final(self).can_issue(),
            !contains_token(final(self).sessions(), session_token@),
            forall|i: int|
                0 <= i < old(self).sessions().len() && #[trigger] old(self).sessions()[i].token@
                    != session_token@ ==> final(self).sessions().contains(old(self).sessions()[i]),
            forall|i: int|
                0 <= i < final(self).sessions().len() ==> old(self).sessions().contains(
                    #[trigger] final(self).sessions()[i],
                ),
            !contains_token(old(self).sessions(), session_token@) ==> final(self).sessions()
                == old(self).sessions(),
    {
        self.sessions_service.delete_session(session_token.as_str());
        SignOutResponse { status_code: StatusCode::Success }
    }
}

} // verus!
