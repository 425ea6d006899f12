use crate::lookup::{
    find_file, find_user_by_token, first_row, holds_token, ip_in_list, ip_listed,
    lemma_first_where, login_against, login_result, owned_with_hash,
};
use crate::records::{File, RegistryError, User, UserLoginData};
use vstd::prelude::*;

verus! {

/// Whether some account in `users` has id `id`.
pub open spec fn user_exists(users: Seq<User>, id: i64) -> bool {
    exists|i: int| 0 <= i < users.len() && (#[trigger] users[i]).id == id
}

/// The row stored for `file` under the generated id `id`.
pub open spec fn stored_as(file: File, id: i64) -> File {
    File { id, ..file }
}

/// A registry held in memory, with the same tables and decisions as the
/// database-backed one; each file row references an existing account.
pub struct MemoryStore {
    users: Vec<User>,
    files: Vec<File>,
    banned: Vec<String>,
}

impl MemoryStore {
    /// The rows of the `users` table.
    pub closed spec fn user_rows(&self) -> Seq<User> {
        self.users@
    }

    /// The rows of the `files` table, in the order they were recorded.
    pub closed spec fn file_rows(&self) -> Seq<File> {
        self.files@
    }

    /// The addresses of the `banned_ips` table.
    pub closed spec fn banned_rows(&self) -> Seq<String> {
        self.banned@
    }

    /// File ids are generated 1, 2, ... in order, and each file's owner exists.
    pub open spec fn wf(&self) -> bool {
        forall|k: int|
            0 <= k < self.file_rows().len() ==> (#[trigger] self.file_rows()[k]).id == k + 1 && user_exists(
                self.user_rows(),
                self.file_rows()[k].uploaded_by,
            )
    }

    /// An empty registry.
    pub fn new() -> (r: MemoryStore)
        ensures
            r.wf(),
            r.user_rows() == Seq::<User>::empty(),
            r.file_rows() == Seq::<File>::empty(),
            r.banned_rows() == Seq::<String>::empty(),
    {
        MemoryStore { users: Vec::new(), files: Vec::new(), banned: Vec::new() }
    }

    fn has_user(&self, id: i64) -> (r: bool)
        ensures
            r == user_exists(self.user_rows(), id),
    {
        let mut i: usize = 0;
        while i < self.users.len()
            invariant
                0 <= i <= self.users@.len(),
                forall|j: int| 0 <= j < i ==> (#[trigger] self.users@[j]).id != id,
            decreases self.users@.len() - i,
        {
            if self.users[i].id == id {
                return true;
            }
            i = i + 1;
        }
        false
    }

    /// Adds an account. Its id is the primary key: an id already taken is
    /// an `IntegrityViolation`, and nothing changes.
    pub fn insert_user(&mut self, user: User) -> (r: Result<(), RegistryError>)
        requires
            old(self).wf(),
        ensures
            final(self).wf(),
            final(self).file_rows() == old(self).file_rows(),
            final(self).banned_rows() == old(self).banned_rows(),
            user_exists(old(self).user_rows(), user.id) ==> r == Err::<(), RegistryError>(
                RegistryError::IntegrityViolation,
            ) && final(self).user_rows() == old(self).user_rows(),
            !user_exists(old(self).user_rows(), user.id) ==> r is Ok && final(self).user_rows()
                == old(self).user_rows().push(user),
    {
        if self.has_user(user.id) {
            return Err(RegistryError::IntegrityViolation);
        }
        let ghost before = self.users@;
        self.users.push(user);
        proof {
            assert forall|k: int| 0 <= k < self.files@.len() implies user_exists(
                self.users@,
                (#[trigger] self.files@[k]).uploaded_by,
            ) by {
                assert(self.files@[k] == old(self).file_rows()[k]);
                assert(user_exists(before, self.files@[k].uploaded_by));
                let i = choose|i: int| 0 <= i < before.len() && (#[trigger] before[i]).id == self.files@[k].uploaded_by;
                assert(self.users@[i] == before[i]);
            }
        }
        Ok(())
    }

    /// Adds an address to the ban list.
    pub fn ban_ip(&mut self, ip: String)
        requires
            old(self).wf(),
        ensures
            final(self).wf(),
            final(self).user_rows() == old(self).user_rows(),
            final(self).file_rows() == old(self).file_rows(),
            final(self).banned_rows() == old(self).banned_rows().push(ip),
    {
        self.banned.push(ip);
        assert(self.file_rows() == old(self).file_rows());
        assert(self.user_rows() == old(self).user_rows());
    }

    /// Authenticates a username and password against the stored accounts.
    pub fn verify_password(&self, data: &UserLoginData) -> (r: Option<User>)
        ensures
            r == login_result(self.user_rows(), data.username@, data.password@),
    {
        login_against(data, &self.users).user
    }

    /// The first account whose bearer token is exactly `token`.
    pub fn resolve_token(&self, token: &str) -> (r: Option<User>)
        ensures
            r == first_row(self.user_rows(), holds_token(token@)),
    {
        find_user_by_token(token, &self.users)
    }

    /// Whether `ip` is on the ban list, compared exactly.
    pub fn is_origin_banned(&self, ip: &str) -> (r: bool)
        ensures
            r == ip_listed(self.banned_rows(), ip@),
    {
        ip_in_list(ip, &self.banned)
    }

    /// The first recorded file of `owner` with content hash `hash`.
    pub fn find_by_owner_and_hash(&self, owner: i64, hash: &str) -> (r: Option<File>)
        ensures
            r == first_row(self.file_rows(), owned_with_hash(owner, hash@)),
    {
        find_file(hash, owner, &self.files)
    }

    /// Records the metadata of an upload under the next generated id (the
    /// id of `file` is not used). It does not deduplicate: callers ask
    /// `find_by_owner_and_hash` first. An owner that does not exist is an
    /// `IntegrityViolation` and nothing is inserted; when no id is left the
    /// store is unavailable.
    pub fn record_upload(&mut self, file: &File) -> (r: Result<(), RegistryError>)
        requires
            old(self).wf(),
        ensures
            final(self).wf(),
            final(self).user_rows() == old(self).user_rows(),
            final(self).banned_rows() == old(self).banned_rows(),
            !user_exists(old(self).user_rows(), file.uploaded_by) ==> r == Err::<(), RegistryError>(
                RegistryError::IntegrityViolation,
            ) && final(self).file_rows() == old(self).file_rows(),
            user_exists(old(self).user_rows(), file.uploaded_by) && old(self).file_rows().len()
                >= i64::MAX ==> r == Err::<(), RegistryError>(RegistryError::StoreUnavailable)
                && final(self).file_rows() == old(self).file_rows(),
            user_exists(old(self).user_rows(), file.uploaded_by) && old(self).file_rows().len()
                < i64::MAX ==> r is Ok && final(self).file_rows() == old(self).file_rows().push(
                stored_as(*file, (old(self).file_rows().len() + 1) as i64),
            ),
    {
        if !self.has_user(file.uploaded_by) {
            return Err(RegistryError::IntegrityViolation);
        }
        if self.files.len() as u64 >= i64::MAX as u64 {
            return Err(RegistryError::StoreUnavailable);
        }
        let id: i64 = self.files.len() as i64 + 1;
        let mut row = file.copy();
        row.id = id;
        assert(row == stored_as(*file, id));
        self.files.push(row);
        Ok(())
    }
}

/// Deduplication is per owner. Once a file of owner `u` with hash `h` is
/// recorded, looking up `(u, h)` finds a file of `u` with hash `h`, and the
/// recorded one itself when `u` had none before; an owner who recorded no
/// file with hash `h` finds nothing, whoever else recorded it.
pub proof fn law_dedup_per_owner(files: Seq<File>, f: File, id: i64, other: i64)
    ensures
        first_row(files.push(stored_as(f, id)), owned_with_hash(f.uploaded_by, f.file_hash@)) matches Some(
            g,
        ) && g.uploaded_by == f.uploaded_by && g.file_hash@ == f.file_hash@,
        first_row(files, owned_with_hash(f.uploaded_by, f.file_hash@)) is None ==> first_row(
            files.push(stored_as(f, id)),
            owned_with_hash(f.uploaded_by, f.file_hash@),
        ) == Some(stored_as(f, id)),
        other != f.uploaded_by && first_row(files, owned_with_hash(other, f.file_hash@)) is None
            ==> first_row(files.push(stored_as(f, id)), owned_with_hash(other, f.file_hash@)) is None,
{
    let g = stored_as(f, id);
    let all = files.push(g);
    let p = owned_with_hash(f.uploaded_by, f.file_hash@);
    let q = owned_with_hash(other, f.file_hash@);
    lemma_first_where(files, p);
    lemma_first_where(all, p);
    lemma_first_where(files, q);
    lemma_first_where(all, q);
    assert(all.drop_last() =~= files);
    assert(p(g));
    if other != f.uploaded_by {
        assert(!q(g));
    }
}

} // verus!
