//! The credential store: registration, password verification, deletion.
//!
//! Records are held in one underlying collection serving both lookup paths
//! (by login name and by identity id), so the two views can never fall out
//! of step: a single insert and a single remove path touch both at once.

use vstd::prelude::*;

use crate::hashing::{generate_salt, hash_password, pbkdf2_matches, verify_password};

verus! {

/// A registered identity: unique id, unique login name, and the salted
/// PHC-format credential hash derived from the password at registration.
/// The raw password is never stored.
#[derive(Clone)]
pub struct User {
    pub user_uuid: String,
    pub username: String,
    pub password_hash: String,
}

/// Whether some record in `rs` carries the login name `name`.
pub open spec fn contains_name(rs: Seq<User>, name: Seq<char>) -> bool {
    exists|i: int| 0 <= i < rs.len() && #[trigger] rs[i].username@ == name
}

/// Whether some record in `rs` carries the identity id `id`.
pub open spec fn contains_id(rs: Seq<User>, id: Seq<char>) -> bool {
    exists|i: int| 0 <= i < rs.len() && #[trigger] rs[i].user_uuid@ == id
}

/// Store invariant: login names are unique, identity ids are unique and
/// non-empty.
pub open spec fn users_wf(rs: Seq<User>) -> bool {
    &&& forall|i: int, j: int|
        0 <= i < rs.len() && 0 <= j < rs.len() && i != j ==> #[trigger] rs[i].username@ != #[trigger] rs[j].username@
    &&& forall|i: int, j: int|
        0 <= i < rs.len() && 0 <= j < rs.len() && i != j ==> #[trigger] rs[i].user_uuid@ != #[trigger] rs[j].user_uuid@
    &&& forall|i: int| 0 <= i < rs.len() ==> (#[trigger] rs[i].user_uuid@).len() > 0
}

/// Whether `rs` holds a record for login name `name` whose credential hash
/// verifies against `password` under the credential check of `U`.
pub open spec fn has_matching_credential<U: Users>(
    rs: Seq<User>,
    name: Seq<char>,
    password: Seq<char>,
) -> bool {
    exists|i: int|
        0 <= i < rs.len() && #[trigger] rs[i].username@ == name && U::matches_credential(
            password,
            rs[i].password_hash@,
        )
}

/// Capability contract of a credential store: an in-memory implementation
/// is the reference, but any backend meeting these contracts can stand
/// behind the orchestrator.
pub trait Users: Sized {
    /// The record set the store currently holds.
    spec fn records(&self) -> Seq<User>;

    /// Whether `password` verifies against a stored credential hash.
    spec fn matches_credential(password: Seq<char>, hash: Seq<char>) -> bool;

    /// The store's internal invariant.
    spec fn wf(&self) -> bool;

    /// Registers `username` with a fresh salted hash of `password` and a
    /// fresh identity id. Fails on a duplicate login name (returning the
    /// name, and before any hashing work) and on a hashing failure; on
    /// failure the store is unchanged.
    fn create_user(&mut self, username: String, password: String) -> (r: Result<(), String>)
        requires
            old(self).wf(),
        ensures
            final(self).wf(),
            contains_name(old(self).records(), username@) ==> r is Err,
            match r {
                Ok(()) => {
                    &&& !contains_name(old(self).records(), username@)
                    &&& final(self).records().len() == old(self).records().len() + 1
                    &&& final(self).records().drop_last() == old(self).records()
                    &&& final(self).records().last().username@ == username@
                    &&& !contains_id(
                        old(self).records(),
                        final(self).records().last().user_uuid@,
                    )
                    &&& final(self).records().last().user_uuid@.len() > 0
                    &&& Self::matches_credential(
                        password@,
                        final(self).records().last().password_hash@,
                    )
                },
                Err(e) => {
                    &&& final(self).records() == old(self).records()
                    &&& contains_name(old(self).records(), username@) ==> e@ == username@
                },
            },
    ;

    /// Looks up `username` and verifies `password` against the stored
    /// hash; returns the identity id on a match and nothing otherwise.
    /// An unknown name and a wrong password are indistinguishable through
    /// the returned signal.
    fn get_user_uuid(&self, username: String, password: String) -> (r: Option<String>)
        requires
            self.wf(),
        ensures
            match r {
                Some(id) => exists|i: int|
                    0 <= i < self.records().len() && #[trigger] self.records()[i].username@
                        == username@ && Self::matches_credential(
                        password@,
                        self.records()[i].password_hash@,
                    ) && id@ == self.records()[i].user_uuid@ && id@.len() > 0,
                None => forall|i: int|
                    0 <= i < self.records().len() && #[trigger] self.records()[i].username@
                        == username@ ==> !Self::matches_credential(
                        password@,
                        self.records()[i].password_hash@,
                    ),
            },
    ;

    /// Deletes the record with identity id `user_uuid` if one exists;
    /// afterwards neither the by-id nor the by-name lookup path can reach
    /// it. A no-op for an unknown id.
    fn delete_user(&mut self, user_uuid: String)
        requires
            old(self).wf(),
        ensures
            final(self).wf(),
            !contains_id(final(self).records(), user_uuid@),
            forall|i: int|
                0 <= i < old(self).records().len() && #[trigger] old(self).records()[i].user_uuid@
                    == user_uuid@ ==> !contains_name(
                    final(self).records(),
                    old(self).records()[i].username@,
                ),
            forall|i: int|
                0 <= i < old(self).records().len() && #[trigger] old(self).records()[i].user_uuid@
                    != user_uuid@ ==> final(self).records().contains(old(self).records()[i]),
            forall|i: int|
                0 <= i < final(self).records().len() ==> old(self).records().contains(
                    #[trigger] final(self).records()[i],
                ),
            !contains_id(old(self).records(), user_uuid@) ==> final(self).records() == old(
                self,
            ).records(),
    ;
}

/// The in-memory credential store.
pub struct UsersImpl {
    users: Vec<User>,
}

impl Default for UsersImpl {
    /// An empty store.
    fn default() -> (r: Self)
        ensures
            r.records() == Seq::<User>::empty(),
            r.wf(),
    {
        let r = UsersImpl { users: Vec::new() };
        proof {
            assert(r.records() =~= Seq::<User>::empty());
        }
        r
    }
}

impl UsersImpl {
    /// How many records the store holds; both lookup paths are views of
    /// this one record set.
    pub fn user_count(&self) -> (n: usize)
        ensures
            n == self.records().len(),
    {
        self.users.len()
    }

    /// The index of the record carrying `username`, if any.
    fn find_by_name(&self, username: &String) -> (r: Option<usize>)
        ensures
            match r {
                Some(i) => i < self.users@.len() && self.users@[i as int].username@ == username@,
                None => !contains_name(self.users@, username@),
            },
    {
        let n = self.users.len();
        let mut i: usize = 0;
        while i < n
            invariant
                n == self.users@.len(),
                i <= n,
                forall|j: int| 0 <= j < i ==> #[trigger] self.users@[j].username@ != username@,
            decreases n - i,
        {
            if self.users[i].username == *username {
                return Some(i);
            }
            i = i + 1;
        }
        None
    }

    /// The index of the record carrying the identity id `user_uuid`, if
    /// any.
    fn find_by_uuid(&self, user_uuid: &String) -> (r: Option<usize>)
        ensures
            match r {
                Some(i) => i < self.users@.len() && self.users@[i as int].user_uuid@ == user_uuid@,
                None => !contains_id(self.users@, user_uuid@),
            },
    {
        let n = self.users.len();
        let mut i: usize = 0;
        while i < n
            invariant
                n == self.users@.len(),
                i <= n,
                forall|j: int| 0 <= j < i ==> #[trigger] self.users@[j].user_uuid@ != user_uuid@,
            decreases n - i,
        {
            if self.users[i].user_uuid == *user_uuid {
                return Some(i);
            }
            i = i + 1;
        }
        None
    }
}

impl Users for UsersImpl {
    closed spec fn records(&self) -> Seq<User> {
        self.users@
    }

    open spec fn matches_credential(password: Seq<char>, hash: Seq<char>) -> bool {
        pbkdf2_matches(password, hash)
    }

    open spec fn wf(&self) -> bool {
        users_wf(self.records())
    }

    fn create_user(&mut self, username: String, password: String) -> (r: Result<(), String>) {
        if self.find_by_name(&username).is_some() {
            return Err(username);
        }
        let salt = generate_salt();
        if self.find_by_uuid(&salt).is_some() {
            return Err(String::from_str("Failed to allocate a fresh identity id."));
        }
        match hash_password(password.as_str(), salt.as_str()) {
            Ok(hashed) => {
                let user = User { user_uuid: salt, username, password_hash: hashed };
                self.users.push(user);
                proof {
                    let rs = old(self).users@;
                    assert(self.users@.drop_last() =~= rs);
                }
                Ok(())
            },
            Err(e) => Err(e),
        }
    }

    fn get_user_uuid(&self, username: String, password: String) -> (r: Option<String>) {
        match self.find_by_name(&username) {
            None => None,
            Some(i) => {
                if verify_password(password.as_str(), self.users[i].password_hash.as_str()) {
                    Some(self.users[i].user_uuid.clone())
                } else {
                    proof {
                        let rs = self.users@;
                        assert forall|j: int|
                            0 <= j < rs.len() && #[trigger] rs[j].username@ == username@ implies
                            !pbkdf2_matches(password@, rs[j].password_hash@) by {
                            assert(j == i);
                        }
                    }
                    None
                }
            },
        }
    }

    fn delete_user(&mut self, user_uuid: String) {
        match self.find_by_uuid(&user_uuid) {
            None => {},
            Some(i) => {
                self.users.remove(i);
                proof {
                    let rs = old(self).users@;
                    let fs = self.users@;
                    assert(fs == rs.remove(i as int));
                    assert forall|j: int| 0 <= j < fs.len() implies rs.contains(#[trigger] fs[j]) by {
                        if j < i {
                            assert(fs[j] == rs[j]);
                        } else {
                            assert(fs[j] == rs[j + 1]);
                        }
                    }
                    assert forall|j: int|
                        0 <= j < rs.len() && #[trigger] rs[j].user_uuid@ != user_uuid@ implies
                        fs.contains(rs[j]) by {
                        assert(rs[i as int].user_uuid@ == user_uuid@);
                        if j < i {
                            assert(fs[j] == rs[j]);
                            assert(fs.contains(fs[j]));
                        } else {
                            assert(j > i);
                            assert(fs[j - 1] == rs[j]);
                            assert(fs.contains(fs[j - 1]));
                        }
                    }
                    assert forall|j: int| 0 <= j < fs.len() implies #[trigger] fs[j].user_uuid@
                        != user_uuid@ by {
                        if j < i {
                            assert(fs[j] == rs[j]);
                        } else {
                            assert(fs[j] == rs[j + 1]);
                        }
                    }
                    assert forall|j: int|
                        0 <= j < rs.len() && #[trigger] rs[j].user_uuid@ == user_uuid@ implies
                        !contains_name(fs, rs[j].username@) by {
                        assert(j == i);
                        assert forall|k: int| 0 <= k < fs.len() implies #[trigger] fs[k].username@
                            != rs[i as int].username@ by {
                            if k < i {
                                assert(fs[k] == rs[k]);
                            } else {
                                assert(fs[k] == rs[k + 1]);
                            }
                        }
                    }
                }
            },
        }
    }
}

/// Uniqueness law: two successive successful registrations yield distinct
/// identity ids. The premises are the success clauses of `create_user`:
/// each appends one record whose id was not present before.
pub proof fn lemma_registered_ids_distinct(s0: Seq<User>, s1: Seq<User>, s2: Seq<User>)
    requires
        s1.len() == s0.len() + 1,
        s1.drop_last() == s0,
        !contains_id(s0, s1.last().user_uuid@),
        s2.len() == s1.len() + 1,
        s2.drop_last() == s1,
        !contains_id(s1, s2.last().user_uuid@),
    ensures
        s1.last().user_uuid@ != s2.last().user_uuid@,
{
    assert(s1[s1.len() - 1].user_uuid@ == s1.last().user_uuid@);
    assert(contains_id(s1, s1.last().user_uuid@));
}

/// Round-trip law: a credential registered by a successful `create_user`
/// verifies at sign-in. The premises are the success clauses of
/// `create_user`; the conclusion is the condition under which sign-in
/// reports success.
pub proof fn lemma_sign_up_then_sign_in<U: Users>(
    s0: Seq<User>,
    s1: Seq<User>,
    username: Seq<char>,
    password: Seq<char>,
)
    requires
        s1.len() == s0.len() + 1,
        s1.drop_last() == s0,
        s1.last().username@ == username,
        U::matches_credential(password, s1.last().password_hash@),
    ensures
        has_matching_credential::<U>(s1, username, password),
{
    assert(s1[s1.len() - 1].username@ == username);
}

} // verus!
