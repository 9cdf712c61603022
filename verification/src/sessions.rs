//! The session store: a pure token-to-owner map that issues and revokes
//! opaque session tokens.
//!
//! A token is a high-entropy random part prefixed by a fixed-width decimal
//! serial number taken from a monotone counter. The random part makes the
//! token unguessable; the serial prefix makes every issued token provably
//! distinct from every live one, without appealing to randomness.

use vstd::prelude::*;

use crate::serial::{
    lemma_pad_digits_injective, lemma_u64_below_pow10_20, pad_digits, serial_prefix,
};

verus! {

/// A live session: an opaque token bound to the identity id it was issued
/// for. The serial records the issuance order and is the token's prefix.
pub struct Session {
    pub token: String,
    pub user_uuid: String,
    pub serial: u64,
}

/// Whether some session in `ss` carries the token `token`.
pub open spec fn contains_token(ss: Seq<Session>, token: Seq<char>) -> bool {
    exists|i: int| 0 <= i < ss.len() && #[trigger] ss[i].token@ == token
}

/// Capability contract of a session store: issuance and revocation over a
/// pure token-to-owner map.
pub trait Sessions: Sized {
    /// The live sessions the store currently holds.
    spec fn sessions(&self) -> Seq<Session>;

    /// The store's internal invariant; among other things, live tokens are
    /// pairwise distinct.
    spec fn wf(&self) -> bool;

    /// Whether another token can still be issued (a machine bound on the
    /// issuance counter, never reached in practice).
    spec fn can_issue(&self) -> bool;

    /// Executable probe for `can_issue`, for callers that do not track
    /// the issuance counter.
    fn can_issue_now(&self) -> (b: bool)
        ensures
            b == self.can_issue(),
    ;

    /// Issues a fresh non-empty token, distinct from every live one, and
    /// binds it to `user_uuid`. Issuance never fails.
    fn create_session(&mut self, user_uuid: &str) -> (token: String)
        requires
            old(self).wf(),
            old(self).can_issue(),
        ensures
            final(self).wf(),
            token@.len() > 0,
            !contains_token(old(self).sessions(), token@),
            final(self).sessions().len() == old(self).sessions().len() + 1,
            final(self).sessions().drop_last() == old(self).sessions(),
            final(self).sessions().last().token@ == token@,
            final(self).sessions().last().user_uuid@ == user_uuid@,
    ;

    /// Revokes `token` if it is live; afterwards no live session carries
    /// it, and every other session is untouched. A no-op for an unknown or
    /// empty token.
    fn delete_session(&mut self, token: &str)
        requires
            old(self).wf(),
        ensures
            final(self).wf(),
            old(self).can_issue() ==> final(self).can_issue(),
            !contains_token(final(self).sessions(), token@),
            forall|i: int|
                0 <= i < old(self).sessions().len() && #[trigger] old(self).sessions()[i].token@
                    != token@ ==> final(self).sessions().contains(old(self).sessions()[i]),
            forall|i: int|
                0 <= i < final(self).sessions().len() ==> old(self).sessions().contains(
                    #[trigger] final(self).sessions()[i],
                ),
            !contains_token(old(self).sessions(), token@) ==> final(self).sessions() == old(
                self,
            ).sessions(),
    ;
}

/// Relies on `uuid::Uuid::new_v4` and its hyphenated `Display` rendering:
/// a random version-4 UUID as thirty-six ASCII characters.
#[verifier::external_body]
fn random_token_part() -> (s: String)
    ensures
        s@.len() == 36,
{
    uuid::Uuid::new_v4().to_string()
}

/// The in-memory session store.
pub struct SessionsImpl {
    sessions: Vec<Session>,
    next_serial: u64,
}

/// Invariant of the in-memory store: serials are below the counter and
/// pairwise distinct, every token starts with its session's rendered
/// serial, and tokens are pairwise distinct.
spec fn sessions_wf_at(ss: Seq<Session>, next: u64) -> bool {
    &&& forall|i: int| 0 <= i < ss.len() ==> (#[trigger] ss[i].serial) < next
    &&& forall|i: int, j: int|
        0 <= i < ss.len() && 0 <= j < ss.len() && i != j ==> #[trigger] ss[i].serial
            != #[trigger] ss[j].serial
    &&& forall|i: int|
        0 <= i < ss.len() ==> (#[trigger] ss[i].token@).len() >= 20 && ss[i].token@.subrange(0, 20)
            == pad_digits(ss[i].serial as int, 20)
    &&& forall|i: int, j: int|
        0 <= i < ss.len() && 0 <= j < ss.len() && i != j ==> #[trigger] ss[i].token@
            != #[trigger] ss[j].token@
}

impl Default for SessionsImpl {
    /// An empty store.
    fn default() -> (r: Self)
        ensures
            r.sessions() == Seq::<Session>::empty(),
            r.wf(),
            r.can_issue(),
    {
        let r = SessionsImpl { sessions: Vec::new(), next_serial: 0 };
        proof {
            assert(r.sessions() =~= Seq::<Session>::empty());
        }
        r
    }
}

impl SessionsImpl {
    /// How many sessions are live.
    pub fn session_count(&self) -> (n: usize)
        ensures
            n == self.sessions().len(),
    {
        self.sessions.len()
    }

    /// The index of the live session carrying `token`, if any.
    fn find_by_token(&self, token: &String) -> (r: Option<usize>)
        ensures
            match r {
                Some(i) => i < self.sessions@.len() && self.sessions@[i as int].token@ == token@,
                None => !contains_token(self.sessions@, token@),
            },
    {
        let n = self.sessions.len();
        let mut i: usize = 0;
        while i < n
            invariant
                n == self.sessions@.len(),
                i <= n,
                forall|j: int| 0 <= j < i ==> #[trigger] self.sessions@[j].token@ != token@,
            decreases n - i,
        {
            if self.sessions[i].token == *token {
                return Some(i);
            }
            i = i + 1;
        }
        None
    }
}

impl Sessions for SessionsImpl {
    closed spec fn sessions(&self) -> Seq<Session> {
        self.sessions@
    }

    closed spec fn wf(&self) -> bool {
        sessions_wf_at(self.sessions@, self.next_serial)
    }

    closed spec fn can_issue(&self) -> bool {
        self.next_serial < u64::MAX
    }

    fn can_issue_now(&self) -> (b: bool) {
        self.next_serial < u64::MAX
    }

    fn create_session(&mut self, user_uuid: &str) -> (token: String) {
        let serial = self.next_serial;
        self.next_serial = serial + 1;
        let mut token = serial_prefix(serial);
        token.append("-");
        token.append(random_token_part().as_str());
        let session = Session { token: token.clone(), user_uuid: user_uuid.to_owned(), serial };
        self.sessions.push(session);
        proof {
            let rs = old(self).sessions@;
            let fs = self.sessions@;
            assert(token@.subrange(0, 20) =~= pad_digits(serial as int, 20));
            assert forall|i: int| 0 <= i < rs.len() implies #[trigger] rs[i].token@ != token@ by {
                if rs[i].token@ == token@ {
                    assert(rs[i].token@.subrange(0, 20) == token@.subrange(0, 20));
                    lemma_u64_below_pow10_20(rs[i].serial);
                    lemma_u64_below_pow10_20(serial);
                    lemma_pad_digits_injective(rs[i].serial as int, serial as int, 20);
                }
            }
            assert(fs.drop_last() =~= rs);
        }
        token
    }

    fn delete_session(&mut self, token: &str) {
        let token_key = token.to_owned();
        match self.find_by_token(&token_key) {
            None => {},
            Some(i) => {
                self.sessions.remove(i);
                proof {
                    let rs = old(self).sessions@;
                    let fs = self.sessions@;
                    assert(fs == rs.remove(i as int));
                    assert forall|j: int| 0 <= j < fs.len() implies rs.contains(#[trigger] fs[j]) by {
                        if j < i {
                            assert(fs[j] == rs[j]);
                        } else {
                            assert(fs[j] == rs[j + 1]);
                        }
                    }
                    assert forall|j: int|
                        0 <= j < rs.len() && #[trigger] rs[j].token@ != token@ implies fs.contains(
                        rs[j]) by {
                        assert(rs[i as int].token@ == token@);
                        if j < i {
                            assert(fs[j] == rs[j]);
                            assert(fs.contains(fs[j]));
                        } else {
                            assert(j > i);
                            assert(fs[j - 1] == rs[j]);
                            assert(fs.contains(fs[j - 1]));
                        }
                    }
                    assert forall|j: int| 0 <= j < fs.len() implies #[trigger] fs[j].token@
                        != token@ by {
                        if j < i {
                            assert(fs[j] == rs[j]);
                        } else {
                            assert(fs[j] == rs[j + 1]);
                        }
                    }
                }
            },
        }
    }
}

/// Isolation law: tokens issued by two successive issuances are distinct,
/// and revoking the first leaves the second live, bound to the same owner.
/// The premises are the post-state clauses of `create_session` (each
/// appends one session with a token not live before) and of
/// `delete_session` (every session with another token is kept).
pub proof fn lemma_sessions_isolated(
    s0: Seq<Session>,
    s1: Seq<Session>,
    s2: Seq<Session>,
    s3: Seq<Session>,
    t1: Seq<char>,
    t2: Seq<char>,
)
    requires
        s1.len() == s0.len() + 1,
        s1.drop_last() == s0,
        s1.last().token@ == t1,
        !contains_token(s0, t1),
        s2.len() == s1.len() + 1,
        s2.drop_last() == s1,
        s2.last().token@ == t2,
        !contains_token(s1, t2),
        forall|i: int|
            0 <= i < s2.len() && #[trigger] s2[i].token@ != t1 ==> s3.contains(s2[i]),
    ensures
        t1 != t2,
        s3.contains(s2.last()),
        contains_token(s3, t2),
{
    assert(s1[s1.len() - 1].token@ == t1);
    assert(contains_token(s1, t1));
    assert(s2[s2.len() - 1].token@ == t2);
    assert(s3.contains(s2[s2.len() - 1]));
    let k = choose|k: int| 0 <= k < s3.len() && s3[k] == s2[s2.len() - 1];
    assert(s3[k].token@ == t2);
}

} // verus!
