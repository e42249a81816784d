//! The repository resolver. The client-supplied path argument is
//! validated (no null bytes, not absolute, no `..` component, final
//! component ends in `.git`), reduced to a repository name, and mapped
//! to the repository's stable identifier and its on-disk directory
//! under the repos root.

use vstd::prelude::*;

use crate::bytes::{bytes_eq, push_all, spec_split, split_bytes, sub_bytes, views};

verus! {

pub const SLASH: u8 = 47;

pub const NUL: u8 = 0;

/// `..` as bytes.
pub open spec fn dot_dot() -> Seq<u8> {
    seq![46u8, 46u8]
}

/// `.git` as bytes.
pub open spec fn dot_git() -> Seq<u8> {
    seq![46u8, 103u8, 105u8, 116u8]
}

/// A valid repository path argument: free of null bytes, relative, with
/// no `..` component, and a final component that ends in `.git`.
pub open spec fn spec_valid_repo_arg(a: Seq<u8>) -> bool {
    let comps = spec_split(a, SLASH);
    let last = comps[comps.len() - 1];
    &&& !a.contains(NUL)
    &&& !(a.len() > 0 && a[0] == SLASH)
    &&& forall|i: int| 0 <= i < comps.len() ==> comps[i] != dot_dot()
    &&& last.len() >= 4
    &&& last.skip(last.len() - 4) == dot_git()
}

/// The repository name of a valid path argument: its final component
/// shorn of the `.git` suffix.
pub open spec fn spec_repo_name(a: Seq<u8>) -> Seq<u8> {
    let comps = spec_split(a, SLASH);
    let last = comps[comps.len() - 1];
    last.take(last.len() - 4)
}

/// Validates a repository path argument and yields its repository name,
/// or nothing where the argument breaks a rule.
pub fn repo_name_of_arg(a: &Vec<u8>) -> (r: Option<Vec<u8>>)
    ensures
        match r {
            Some(n) => spec_valid_repo_arg(a@) && n@ == spec_repo_name(a@),
            None => !spec_valid_repo_arg(a@),
        },
{
    let mut i: usize = 0;
    while i < a.len()
        invariant
            i <= a@.len(),
            forall|k: int| 0 <= k < i as int ==> a@[k] != NUL,
        decreases a@.len() - i,
    {
        if a[i] == NUL {
            return None;
        }
        i += 1;
    }
    proof {
        assert(!a@.contains(NUL));
    }
    if a.len() > 0 && a[0] == SLASH {
        return None;
    }
    let comps = split_bytes(a.as_slice(), SLASH);
    let ghost cs = views(comps@);
    let dd = vec![46u8, 46u8];
    proof {
        assert(dd@ =~= dot_dot());
    }
    let mut j: usize = 0;
    while j < comps.len()
        invariant
            j <= comps@.len(),
            cs == views(comps@),
            cs == spec_split(a@, SLASH),
            dd@ == dot_dot(),
            forall|k: int| 0 <= k < j as int ==> cs[k] != dot_dot(),
        decreases comps@.len() - j,
    {
        proof {
            assert(cs[j as int] == comps@[j as int]@);
        }
        if bytes_eq(comps[j].as_slice(), dd.as_slice()) {
            return None;
        }
        j += 1;
    }
    let last = &comps[comps.len() - 1];
    proof {
        assert(cs[cs.len() - 1] == last@);
    }
    if last.len() < 4 {
        return None;
    }
    let tail = sub_bytes(last.as_slice(), last.len() - 4, last.len());
    let dg = vec![46u8, 103u8, 105u8, 116u8];
    proof {
        assert(dg@ =~= dot_git());
        assert(tail@ =~= last@.skip(last@.len() - 4));
    }
    if !bytes_eq(tail.as_slice(), dg.as_slice()) {
        return None;
    }
    let name = sub_bytes(last.as_slice(), 0, last.len() - 4);
    proof {
        assert(name@ =~= last@.take(last@.len() - 4));
    }
    Some(name)
}

/// Owns the repos root and lays repositories out under it, one bare
/// directory `<root>/<name>.git` each.
#[derive(Clone, Debug)]
pub struct RepoManager {
    pub repos_root: Vec<u8>,
}

/// The on-disk directory of the repository called `name`.
pub open spec fn spec_repo_dir(root: Seq<u8>, name: Seq<u8>) -> Seq<u8> {
    root + seq![SLASH] + name + dot_git()
}

impl RepoManager {
    pub fn new(repos_root: Vec<u8>) -> (r: Self)
        ensures
            r.repos_root@ == repos_root@,
    {
        Self { repos_root }
    }

    /// Joins the root, the name and the `.git` suffix into the
    /// repository's directory path.
    pub fn repo_dir(&self, name: &Vec<u8>) -> (r: Vec<u8>)
        ensures
            r@ == spec_repo_dir(self.repos_root@, name@),
    {
        let mut r: Vec<u8> = Vec::new();
        push_all(&mut r, self.repos_root.as_slice());
        r.push(SLASH);
        push_all(&mut r, name.as_slice());
        let dg = vec![46u8, 103u8, 105u8, 116u8];
        proof {
            assert(dg@ =~= dot_git());
        }
        push_all(&mut r, dg.as_slice());
        proof {
            assert(Seq::<u8>::empty() + self.repos_root@ =~= self.repos_root@);
            assert((self.repos_root@).push(SLASH) =~= self.repos_root@ + seq![SLASH]);
            assert(self.repos_root@ + seq![SLASH] + name@ + dot_git() =~= ((self.repos_root@
                + seq![SLASH]) + name@) + dot_git());
        }
        r
    }
}

/// One row of the name-to-identifier mapping the resolver consults.
pub struct RepoEntry {
    pub name: Vec<u8>,
    pub repo_id: Vec<u8>,
}

/// The resolver table: repository names, each bound to the stable
/// identifier the access-control rows speak of.
pub struct RepoTable {
    pub entries: Vec<RepoEntry>,
}

/// The identifier bound to `name`, if any: the first matching row's.
pub open spec fn spec_repo_id_of(rows: Seq<RepoEntry>, name: Seq<u8>) -> Option<Seq<u8>>
    decreases rows.len(),
{
    if rows.len() == 0 {
        None
    } else if rows[0].name@ == name {
        Some(rows[0].repo_id@)
    } else {
        spec_repo_id_of(rows.skip(1), name)
    }
}

impl RepoTable {
    /// Each name names at most one repository.
    pub open spec fn wf(&self) -> bool {
        forall|i: int, j: int|
            0 <= i < j < self.entries@.len() ==> self.entries@[i].name@ != self.entries@[j].name@
    }

    pub fn new() -> (r: Self)
        ensures
            r.wf(),
            r.entries@.len() == 0,
    {
        Self { entries: Vec::new() }
    }

    /// Looks a repository name up.
    pub fn lookup(&self, name: &Vec<u8>) -> (r: Option<Vec<u8>>)
        ensures
            match r {
                Some(id) => spec_repo_id_of(self.entries@, name@) == Some(id@),
                None => spec_repo_id_of(self.entries@, name@) is None,
            },
    {
        let mut i: usize = 0;
        proof {
            assert(self.entries@.skip(0) =~= self.entries@);
        }
        while i < self.entries.len()
            invariant
                i <= self.entries@.len(),
                spec_repo_id_of(self.entries@, name@) == spec_repo_id_of(
                    self.entries@.skip(i as int),
                    name@,
                ),
            decreases self.entries@.len() - i,
        {
            proof {
                assert(self.entries@.skip(i as int)[0] == self.entries@[i as int]);
                assert(self.entries@.skip(i as int).skip(1) =~= self.entries@.skip(i as int + 1));
            }
            if bytes_eq(self.entries[i].name.as_slice(), name.as_slice()) {
                let id = sub_bytes(
                    self.entries[i].repo_id.as_slice(),
                    0,
                    self.entries[i].repo_id.len(),
                );
                proof {
                    assert(id@ =~= self.entries@[i as int].repo_id@);
                }
                return Some(id);
            }
            i += 1;
        }
        proof {
            assert(self.entries@.skip(i as int).len() == 0);
        }
        None
    }

    /// Binds `name` to `repo_id`; refuses a name already bound.
    pub fn insert(&mut self, name: Vec<u8>, repo_id: Vec<u8>) -> (ok: bool)
        requires
            old(self).wf(),
        ensures
            final(self).wf(),
            ok == (spec_repo_id_of(old(self).entries@, name@) is None),
            ok ==> spec_repo_id_of(final(self).entries@, name@) == Some(repo_id@),
            !ok ==> *final(self) == *old(self),
            forall|n: Seq<u8>|
                n != name@ ==> spec_repo_id_of(final(self).entries@, n) == spec_repo_id_of(
                    old(self).entries@,
                    n,
                ),
    {
        match self.lookup(&name) {
            Some(_) => false,
            None => {
                proof {
                    lemma_repo_id_of_push(self.entries@, name, repo_id, name@);
                    assert forall|n: Seq<u8>| n != name@ implies spec_repo_id_of(
                        self.entries@.push(RepoEntry { name: name, repo_id: repo_id }),
                        n,
                    ) == spec_repo_id_of(self.entries@, n) by {
                        lemma_repo_id_of_push(self.entries@, name, repo_id, n);
                    }
                    lemma_repo_id_of_absent_all(self.entries@, name@);
                }
                self.entries.push(RepoEntry { name, repo_id });
                true
            },
        }
    }
}

/// A missing name matches no row at all.
proof fn lemma_repo_id_of_absent_all(rows: Seq<RepoEntry>, name: Seq<u8>)
    requires
        spec_repo_id_of(rows, name) is None,
    ensures
        forall|i: int| 0 <= i < rows.len() ==> rows[i].name@ != name,
    decreases rows.len(),
{
    if rows.len() > 0 {
        assert(rows.skip(1).skip(0) =~= rows.skip(1));
        lemma_repo_id_of_absent_all(rows.skip(1), name);
        assert forall|i: int| 0 <= i < rows.len() implies rows[i].name@ != name by {
            if i > 0 {
                assert(rows.skip(1)[i - 1] == rows[i]);
            }
        }
    }
}

/// Appending a row leaves every other name's binding alone, and binds
/// the new row's name where it was free.
proof fn lemma_repo_id_of_push(rows: Seq<RepoEntry>, e_name: Vec<u8>, e_id: Vec<u8>, n: Seq<u8>)
    ensures
        spec_repo_id_of(rows, n) is Some ==> spec_repo_id_of(
            rows.push(RepoEntry { name: e_name, repo_id: e_id }),
            n,
        ) == spec_repo_id_of(rows, n),
        spec_repo_id_of(rows, n) is None && n == e_name@ ==> spec_repo_id_of(
            rows.push(RepoEntry { name: e_name, repo_id: e_id }),
            n,
        ) == Some(e_id@),
        spec_repo_id_of(rows, n) is None && n != e_name@ ==> spec_repo_id_of(
            rows.push(RepoEntry { name: e_name, repo_id: e_id }),
            n,
        ) is None,
    decreases rows.len(),
{
    let pushed = rows.push(RepoEntry { name: e_name, repo_id: e_id });
    if rows.len() == 0 {
        assert(pushed[0] == RepoEntry { name: e_name, repo_id: e_id });
        assert(pushed.skip(1).len() == 0);
    } else {
        assert(pushed[0] == rows[0]);
        assert(pushed.skip(1) =~= rows.skip(1).push(RepoEntry { name: e_name, repo_id: e_id }));
        lemma_repo_id_of_push(rows.skip(1), e_name, e_id, n);
    }
}

} // verus!
