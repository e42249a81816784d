//! The persistent data model: auth rows binding key fingerprints to
//! users, and access-control rows binding `(repository, user)` pairs to
//! a role. The tables here are the relational schema in miniature, with
//! its uniqueness invariants, so that what the gateway reads and the
//! admin surface writes is pinned down exactly.

use vstd::prelude::*;

use crate::AclRole;

verus! {

/// A user identity: the 128 bits of the owning UUID.
#[derive(Clone, Copy, PartialEq, Eq, Structural, Debug)]
pub struct UserId(pub u128);

/// One access-control row.
pub struct Acl {
    pub repo_id: Vec<u8>,
    pub user_id: UserId,
    pub role: AclRole,
}

/// The key of an access-control row, for deletion.
pub struct AclRemove {
    pub repo_id: Vec<u8>,
    pub user_id: UserId,
}

/// One auth row: a key fingerprint and the user it belongs to.
pub struct SshAuth {
    pub key_fingerprint: Vec<u8>,
    pub user_id: UserId,
}

/// Row `i` is about the pair `(repo_id, user)`.
pub open spec fn acl_match(rows: Seq<Acl>, i: int, repo_id: Seq<u8>, user: UserId) -> bool {
    rows[i].repo_id@ == repo_id && rows[i].user_id == user
}

/// Some row grants `role` to `user` on `repo_id`.
pub open spec fn acl_grants(rows: Seq<Acl>, repo_id: Seq<u8>, user: UserId, role: AclRole) -> bool {
    exists|i: int| 0 <= i < rows.len() && acl_match(rows, i, repo_id, user) && rows[i].role == role
}

/// Some row is about `(repo_id, user)`.
pub open spec fn acl_has(rows: Seq<Acl>, repo_id: Seq<u8>, user: UserId) -> bool {
    exists|i: int| 0 <= i < rows.len() && acl_match(rows, i, repo_id, user)
}

/// The role the first row about `(repo_id, user)` grants, if any.
pub open spec fn spec_role_of(rows: Seq<Acl>, repo_id: Seq<u8>, user: UserId) -> Option<AclRole>
    decreases rows.len(),
{
    if rows.len() == 0 {
        None
    } else if rows[0].repo_id@ == repo_id && rows[0].user_id == user {
        Some(rows[0].role)
    } else {
        spec_role_of(rows.skip(1), repo_id, user)
    }
}

/// The access-control table: at most one role per `(repository, user)`
/// pair.
pub struct AclTable {
    pub entries: Vec<Acl>,
}

impl AclTable {
    /// `(repo_id, user_id)` is unique across the rows.
    pub open spec fn wf(&self) -> bool {
        forall|i: int, j: int|
            0 <= i < j < self.entries@.len() ==> !(self.entries@[i].repo_id@
                == self.entries@[j].repo_id@ && self.entries@[i].user_id
                == self.entries@[j].user_id)
    }

    pub fn new() -> (r: Self)
        ensures
            r.wf(),
            r.entries@.len() == 0,
    {
        Self { entries: Vec::new() }
    }

    /// The index of the row about `(repo_id, user)`, if one exists.
    fn find(&self, repo_id: &Vec<u8>, user: &UserId) -> (r: Option<usize>)
        ensures
            match r {
                Some(i) => i < self.entries@.len() && acl_match(
                    self.entries@,
                    i as int,
                    repo_id@,
                    *user,
                ) && spec_role_of(self.entries@, repo_id@, *user) == Some(
                    self.entries@[i as int].role,
                ),
                None => !acl_has(self.entries@, repo_id@, *user) && spec_role_of(
                    self.entries@,
                    repo_id@,
                    *user,
                ) is None,
            },
    {
        let mut i: usize = 0;
        proof {
            assert(self.entries@.skip(0) =~= self.entries@);
        }
        while i < self.entries.len()
            invariant
                i <= self.entries@.len(),
                forall|k: int|
                    0 <= k < i as int ==> !acl_match(self.entries@, k, repo_id@, *user),
                spec_role_of(self.entries@, repo_id@, *user) == spec_role_of(
                    self.entries@.skip(i as int),
                    repo_id@,
                    *user,
                ),
            decreases self.entries@.len() - i,
        {
            proof {
                assert(self.entries@.skip(i as int)[0] == self.entries@[i as int]);
                assert(self.entries@.skip(i as int).skip(1) =~= self.entries@.skip(i as int + 1));
            }
            if crate::bytes::bytes_eq(self.entries[i].repo_id.as_slice(), repo_id.as_slice())
                && self.entries[i].user_id == *user {
                return Some(i);
            }
            i += 1;
        }
        proof {
            assert(self.entries@.skip(i as int).len() == 0);
        }
        None
    }

    /// The role granted to `user` on `repo_id`, if any.
    pub fn get(&self, repo_id: &Vec<u8>, user: &UserId) -> (r: Option<AclRole>)
        ensures
            r == spec_role_of(self.entries@, repo_id@, *user),
            match r {
                Some(role) => acl_grants(self.entries@, repo_id@, *user, role),
                None => !acl_has(self.entries@, repo_id@, *user),
            },
    {
        match self.find(repo_id, user) {
            Some(i) => Some(self.entries[i].role),
            None => None,
        }
    }

    /// Writes `e`'s role for `e`'s pair: an update where the pair has a
    /// row, an insert where it has none. Every other pair's rows stand
    /// untouched. Returns whether the pair already had a row.
    pub fn upsert(&mut self, e: Acl) -> (existed: bool)
        requires
            old(self).wf(),
        ensures
            final(self).wf(),
            existed == acl_has(old(self).entries@, e.repo_id@, e.user_id),
            acl_grants(final(self).entries@, e.repo_id@, e.user_id, e.role),
            forall|role: AclRole|
                acl_grants(final(self).entries@, e.repo_id@, e.user_id, role) ==> role == e.role,
            forall|r: Seq<u8>, u: UserId, role: AclRole|
                !(r == e.repo_id@ && u == e.user_id) ==> (acl_grants(
                    final(self).entries@,
                    r,
                    u,
                    role,
                ) == acl_grants(old(self).entries@, r, u, role)),
    {
        let ghost old_rows = self.entries@;
        match self.find(&e.repo_id, &e.user_id) {
            Some(i) => {
                let ghost pair_r = e.repo_id@;
                let ghost pair_u = e.user_id;
                self.entries[i] = e;
                proof {
                    let rows = self.entries@;
                    assert(rows == old_rows.update(i as int, e));
                    assert(acl_match(rows, i as int, pair_r, pair_u));
                    assert(old_rows[i as int].repo_id@ == pair_r && old_rows[i as int].user_id
                        == pair_u);
                    assert forall|k: int, l: int| 0 <= k < l < rows.len() implies !(rows[k].repo_id@
                        == rows[l].repo_id@ && rows[k].user_id == rows[l].user_id) by {
                        assert(!(old_rows[k].repo_id@ == old_rows[l].repo_id@ && old_rows[k].user_id
                            == old_rows[l].user_id));
                    }
                    assert forall|r: Seq<u8>, u: UserId, role: AclRole|
                        !(r == pair_r && u == pair_u) implies (acl_grants(rows, r, u, role)
                        == acl_grants(old_rows, r, u, role)) by {
                        if acl_grants(rows, r, u, role) {
                            let k = choose|k: int|
                                0 <= k < rows.len() && acl_match(rows, k, r, u) && rows[k].role
                                    == role;
                            assert(k != i);
                            assert(acl_match(old_rows, k, r, u) && old_rows[k].role == role);
                        }
                        if acl_grants(old_rows, r, u, role) {
                            let k = choose|k: int|
                                0 <= k < old_rows.len() && acl_match(old_rows, k, r, u)
                                    && old_rows[k].role == role;
                            assert(k != i);
                            assert(acl_match(rows, k, r, u) && rows[k].role == role);
                        }
                    }
                }
                true
            },
            None => {
                let ghost e_r = e.repo_id@;
                let ghost e_u = e.user_id;
                let ghost e_role = e.role;
                self.entries.push(e);
                proof {
                    let rows = self.entries@;
                    let n = old_rows.len() as int;
                    assert(rows == old_rows.push(e));
                    assert(acl_match(rows, n, e_r, e_u) && rows[n].role == e_role);
                    assert forall|k: int| 0 <= k < n implies !(old_rows[k].repo_id@ == e_r
                        && old_rows[k].user_id == e_u) by {
                        if old_rows[k].repo_id@ == e_r && old_rows[k].user_id == e_u {
                            assert(acl_match(old_rows, k, e_r, e_u));
                            assert(acl_has(old_rows, e_r, e_u));
                        }
                    }
                    assert forall|k: int, l: int| 0 <= k < l < rows.len() implies !(rows[k].repo_id@
                        == rows[l].repo_id@ && rows[k].user_id == rows[l].user_id) by {
                        if l < n {
                            assert(!(old_rows[k].repo_id@ == old_rows[l].repo_id@
                                && old_rows[k].user_id == old_rows[l].user_id));
                        } else {
                            assert(rows[l] == e);
                            assert(!(old_rows[k].repo_id@ == e_r && old_rows[k].user_id == e_u));
                        }
                    }
                    assert forall|r: Seq<u8>, u: UserId, role: AclRole|
                        !(r == e_r && u == e_u) implies (acl_grants(rows, r, u, role)
                        == acl_grants(old_rows, r, u, role)) by {
                        if acl_grants(rows, r, u, role) {
                            let k = choose|k: int|
                                0 <= k < rows.len() && acl_match(rows, k, r, u) && rows[k].role
                                    == role;
                            assert(k != n);
                            assert(acl_match(old_rows, k, r, u) && old_rows[k].role == role);
                        }
                        if acl_grants(old_rows, r, u, role) {
                            let k = choose|k: int|
                                0 <= k < old_rows.len() && acl_match(old_rows, k, r, u)
                                    && old_rows[k].role == role;
                            assert(acl_match(rows, k, r, u) && rows[k].role == role);
                        }
                    }
                    assert forall|role: AclRole| acl_grants(rows, e_r, e_u, role) implies role
                        == e_role by {
                        let k = choose|k: int|
                            0 <= k < rows.len() && acl_match(rows, k, e_r, e_u) && rows[k].role
                                == role;
                        if k < n {
                            assert(acl_match(old_rows, k, e_r, e_u));
                            assert(acl_has(old_rows, e_r, e_u));
                        }
                    }
                }
                false
            },
        }
    }

    /// Deletes the row about `(repo_id, user)`, if one exists; every
    /// other pair's rows stand untouched. Returns whether a row was
    /// deleted.
    pub fn remove(&mut self, repo_id: &Vec<u8>, user: &UserId) -> (existed: bool)
        requires
            old(self).wf(),
        ensures
            final(self).wf(),
            existed == acl_has(old(self).entries@, repo_id@, *user),
            !acl_has(final(self).entries@, repo_id@, *user),
            forall|r: Seq<u8>, u: UserId, role: AclRole|
                !(r == repo_id@ && u == *user) ==> (acl_grants(final(self).entries@, r, u, role)
                    == acl_grants(old(self).entries@, r, u, role)),
    {
        let ghost old_rows = self.entries@;
        match self.find(repo_id, user) {
            Some(i) => {
                self.entries.remove(i);
                proof {
                    let rows = self.entries@;
                    assert(rows == old_rows.remove(i as int));
                    assert forall|k: int| 0 <= k < rows.len() implies rows[k] == (if k < i as int {
                        old_rows[k]
                    } else {
                        old_rows[k + 1]
                    }) by {}
                    assert forall|k: int, l: int| 0 <= k < l < rows.len() implies !(rows[k].repo_id@
                        == rows[l].repo_id@ && rows[k].user_id == rows[l].user_id) by {
                        let k2: int = if k < i as int { k } else { k + 1 };
                        let l2: int = if l < i as int { l } else { l + 1 };
                        assert(rows[k] == old_rows[k2] && rows[l] == old_rows[l2]);
                    }
                    assert forall|k: int|
                        0 <= k < rows.len() implies !acl_match(rows, k, repo_id@, *user) by {
                        if k < i as int {
                            assert(!(old_rows[k].repo_id@ == repo_id@ && old_rows[k].user_id
                                == *user));
                        } else {
                            assert(!(old_rows[k + 1].repo_id@ == repo_id@ && old_rows[k
                                + 1].user_id == *user));
                        }
                    }
                    assert forall|r: Seq<u8>, u: UserId, role: AclRole|
                        !(r == repo_id@ && u == *user) implies (acl_grants(rows, r, u, role)
                        == acl_grants(old_rows, r, u, role)) by {
                        if acl_grants(rows, r, u, role) {
                            let k = choose|k: int|
                                0 <= k < rows.len() && acl_match(rows, k, r, u) && rows[k].role
                                    == role;
                            if k < i as int {
                                assert(acl_match(old_rows, k, r, u) && old_rows[k].role == role);
                            } else {
                                assert(acl_match(old_rows, k + 1, r, u) && old_rows[k + 1].role
                                    == role);
                            }
                        }
                        if acl_grants(old_rows, r, u, role) {
                            let k = choose|k: int|
                                0 <= k < old_rows.len() && acl_match(old_rows, k, r, u)
                                    && old_rows[k].role == role;
                            assert(k != i);
                            if k < i as int {
                                assert(acl_match(rows, k, r, u) && rows[k].role == role);
                            } else {
                                assert(acl_match(rows, k - 1, r, u) && rows[k - 1].role == role);
                            }
                        }
                    }
                }
                true
            },
            None => false,
        }
    }
}

/// In a well-formed access-control table a pair holds at most one
/// role.
pub proof fn lemma_one_role_per_pair(
    t: &AclTable,
    repo_id: Seq<u8>,
    user: UserId,
    role1: AclRole,
    role2: AclRole,
)
    requires
        t.wf(),
        acl_grants(t.entries@, repo_id, user, role1),
        acl_grants(t.entries@, repo_id, user, role2),
    ensures
        role1 == role2,
{
    let rows = t.entries@;
    let i = choose|i: int|
        0 <= i < rows.len() && acl_match(rows, i, repo_id, user) && rows[i].role == role1;
    let j = choose|j: int|
        0 <= j < rows.len() && acl_match(rows, j, repo_id, user) && rows[j].role == role2;
    if i != j {
        assert(!(rows[i].repo_id@ == rows[j].repo_id@ && rows[i].user_id == rows[j].user_id));
    }
}

/// Some auth row binds `fp` to `user`.
pub open spec fn auth_binds(rows: Seq<SshAuth>, fp: Seq<u8>, user: UserId) -> bool {
    exists|i: int|
        0 <= i < rows.len() && rows[i].key_fingerprint@ == fp && rows[i].user_id == user
}

/// Some auth row carries the fingerprint `fp`.
pub open spec fn auth_has_fp(rows: Seq<SshAuth>, fp: Seq<u8>) -> bool {
    exists|i: int| 0 <= i < rows.len() && rows[i].key_fingerprint@ == fp
}

/// The user the first row carrying `fp` binds it to, if any.
pub open spec fn spec_user_of(rows: Seq<SshAuth>, fp: Seq<u8>) -> Option<UserId>
    decreases rows.len(),
{
    if rows.len() == 0 {
        None
    } else if rows[0].key_fingerprint@ == fp {
        Some(rows[0].user_id)
    } else {
        spec_user_of(rows.skip(1), fp)
    }
}

/// In a well-formed auth table a fingerprint belongs to one user.
pub proof fn lemma_fingerprint_binds_one_user(
    t: &AuthTable,
    fp: Seq<u8>,
    u1: UserId,
    u2: UserId,
)
    requires
        t.wf(),
        auth_binds(t.entries@, fp, u1),
        auth_binds(t.entries@, fp, u2),
    ensures
        u1 == u2,
{
    let rows = t.entries@;
    let i = choose|i: int|
        0 <= i < rows.len() && rows[i].key_fingerprint@ == fp && rows[i].user_id == u1;
    let j = choose|j: int|
        0 <= j < rows.len() && rows[j].key_fingerprint@ == fp && rows[j].user_id == u2;
    if i != j {
        assert(rows[i].key_fingerprint@ != rows[j].key_fingerprint@);
    }
}

/// The auth table: a fingerprint is unique across all users.
pub struct AuthTable {
    pub entries: Vec<SshAuth>,
}

impl AuthTable {
    pub open spec fn wf(&self) -> bool {
        forall|i: int, j: int|
            0 <= i < j < self.entries@.len() ==> self.entries@[i].key_fingerprint@
                != self.entries@[j].key_fingerprint@
    }

    pub fn new() -> (r: Self)
        ensures
            r.wf(),
            r.entries@.len() == 0,
    {
        Self { entries: Vec::new() }
    }

    /// The user owning the key with fingerprint `fp`, if any.
    pub fn user_of(&self, fp: &Vec<u8>) -> (r: Option<UserId>)
        ensures
            r == spec_user_of(self.entries@, fp@),
            match r {
                Some(u) => auth_binds(self.entries@, fp@, u),
                None => !auth_has_fp(self.entries@, fp@),
            },
    {
        let mut i: usize = 0;
        proof {
            assert(self.entries@.skip(0) =~= self.entries@);
        }
        while i < self.entries.len()
            invariant
                i <= self.entries@.len(),
                forall|k: int|
                    0 <= k < i as int ==> self.entries@[k].key_fingerprint@ != fp@,
                spec_user_of(self.entries@, fp@) == spec_user_of(
                    self.entries@.skip(i as int),
                    fp@,
                ),
            decreases self.entries@.len() - i,
        {
            proof {
                assert(self.entries@.skip(i as int)[0] == self.entries@[i as int]);
                assert(self.entries@.skip(i as int).skip(1) =~= self.entries@.skip(i as int + 1));
            }
            if crate::bytes::bytes_eq(self.entries[i].key_fingerprint.as_slice(), fp.as_slice()) {
                return Some(self.entries[i].user_id);
            }
            i += 1;
        }
        proof {
            assert(self.entries@.skip(i as int).len() == 0);
        }
        None
    }

    /// Adds an auth row; refuses a fingerprint already present, whoever
    /// holds it. Returns whether the row went in.
    pub fn add_key(&mut self, rec: SshAuth) -> (ok: bool)
        requires
            old(self).wf(),
        ensures
            final(self).wf(),
            ok == !auth_has_fp(old(self).entries@, rec.key_fingerprint@),
            ok ==> auth_binds(final(self).entries@, rec.key_fingerprint@, rec.user_id),
            !ok ==> *final(self) == *old(self),
            forall|f: Seq<u8>, u: UserId|
                f != rec.key_fingerprint@ ==> (auth_binds(final(self).entries@, f, u) == auth_binds(
                    old(self).entries@,
                    f,
                    u,
                )),
    {
        let ghost old_rows = self.entries@;
        match self.user_of(&rec.key_fingerprint) {
            Some(_) => false,
            None => {
                let ghost f = rec.key_fingerprint@;
                let ghost u = rec.user_id;
                self.entries.push(rec);
                proof {
                    let rows = self.entries@;
                    let n = old_rows.len() as int;
                    assert(rows[n].key_fingerprint@ == f && rows[n].user_id == u);
                    assert forall|k: int| 0 <= k < n implies old_rows[k].key_fingerprint@
                        != f by {
                        if old_rows[k].key_fingerprint@ == f {
                            assert(auth_has_fp(old_rows, f));
                        }
                    }
                    assert forall|k: int, l: int|
                        0 <= k < l < rows.len() implies rows[k].key_fingerprint@
                        != rows[l].key_fingerprint@ by {
                        if l < n {
                            assert(old_rows[k].key_fingerprint@ != old_rows[l].key_fingerprint@);
                        } else {
                            assert(rows[l].key_fingerprint@ == f);
                            assert(old_rows[k].key_fingerprint@ != f);
                        }
                    }
                    assert forall|f2: Seq<u8>, u2: UserId| f2 != f implies (auth_binds(
                        rows,
                        f2,
                        u2,
                    ) == auth_binds(old_rows, f2, u2)) by {
                        if auth_binds(rows, f2, u2) {
                            let k = choose|k: int|
                                0 <= k < rows.len() && rows[k].key_fingerprint@ == f2
                                    && rows[k].user_id == u2;
                            assert(k != n);
                            assert(old_rows[k].key_fingerprint@ == f2 && old_rows[k].user_id
                                == u2);
                        }
                        if auth_binds(old_rows, f2, u2) {
                            let k = choose|k: int|
                                0 <= k < old_rows.len() && old_rows[k].key_fingerprint@ == f2
                                    && old_rows[k].user_id == u2;
                            assert(rows[k].key_fingerprint@ == f2 && rows[k].user_id == u2);
                        }
                    }
                }
                true
            },
        }
    }

    /// Deletes the row binding `fp` to `user`, if both match one.
    /// Returns whether a row was deleted.
    pub fn remove_key(&mut self, fp: &Vec<u8>, user: &UserId) -> (existed: bool)
        requires
            old(self).wf(),
        ensures
            final(self).wf(),
            existed == auth_binds(old(self).entries@, fp@, *user),
            !auth_binds(final(self).entries@, fp@, *user),
            forall|f2: Seq<u8>, u2: UserId|
                !(f2 == fp@ && u2 == *user) ==> (auth_binds(final(self).entries@, f2, u2)
                    == auth_binds(old(self).entries@, f2, u2)),
            !existed ==> *final(self) == *old(self),
    {
        let ghost old_rows = self.entries@;
        let mut i: usize = 0;
        while i < self.entries.len()
            invariant
                self.wf(),
                *self == *old(self),
                self.entries@ == old_rows,
                old_rows == old(self).entries@,
                i <= self.entries@.len(),
                forall|k: int|
                    0 <= k < i as int ==> !(self.entries@[k].key_fingerprint@ == fp@
                        && self.entries@[k].user_id == *user),
            decreases self.entries@.len() - i,
        {
            if crate::bytes::bytes_eq(self.entries[i].key_fingerprint.as_slice(), fp.as_slice())
                && self.entries[i].user_id == *user {
                proof {
                    assert(old_rows[i as int].key_fingerprint@ == fp@ && old_rows[i as int].user_id
                        == *user);
                    assert(auth_binds(old_rows, fp@, *user));
                }
                self.entries.remove(i);
                proof {
                    let rows = self.entries@;
                    assert(rows == old_rows.remove(i as int));
                    assert forall|k: int|
                        0 <= k < rows.len() implies !(rows[k].key_fingerprint@ == fp@
                        && rows[k].user_id == *user) by {
                        if k < i as int {
                            assert(rows[k] == old_rows[k]);
                        } else {
                            assert(rows[k] == old_rows[k + 1]);
                            assert(old_rows[k + 1].key_fingerprint@ != fp@ || k + 1 == i as int);
                        }
                    }
                    assert forall|k: int, l: int|
                        0 <= k < l < rows.len() implies rows[k].key_fingerprint@
                        != rows[l].key_fingerprint@ by {
                        let k2: int = if k < i as int { k } else { k + 1 };
                        let l2: int = if l < i as int { l } else { l + 1 };
                        assert(rows[k] == old_rows[k2] && rows[l] == old_rows[l2]);
                    }
                    assert forall|f2: Seq<u8>, u2: UserId|
                        !(f2 == fp@ && u2 == *user) implies (auth_binds(rows, f2, u2)
                        == auth_binds(old_rows, f2, u2)) by {
                        if auth_binds(rows, f2, u2) {
                            let k = choose|k: int|
                                0 <= k < rows.len() && rows[k].key_fingerprint@ == f2
                                    && rows[k].user_id == u2;
                            if k < i as int {
                                assert(old_rows[k].key_fingerprint@ == f2 && old_rows[k].user_id
                                    == u2);
                            } else {
                                assert(old_rows[k + 1].key_fingerprint@ == f2 && old_rows[k
                                    + 1].user_id == u2);
                            }
                        }
                        if auth_binds(old_rows, f2, u2) {
                            let k = choose|k: int|
                                0 <= k < old_rows.len() && old_rows[k].key_fingerprint@ == f2
                                    && old_rows[k].user_id == u2;
                            assert(k != i);
                            if k < i as int {
                                assert(rows[k].key_fingerprint@ == f2 && rows[k].user_id == u2);
                            } else {
                                assert(rows[k - 1].key_fingerprint@ == f2 && rows[k - 1].user_id
                                    == u2);
                            }
                        }
                    }
                }
                return true;
            }
            i += 1;
        }
        proof {
            if auth_binds(old_rows, fp@, *user) {
                let k = choose|k: int|
                    0 <= k < old_rows.len() && old_rows[k].key_fingerprint@ == fp@
                        && old_rows[k].user_id == *user;
            }
        }
        false
    }
}

} // verus!
