use vstd::prelude::*;

verus! {

/// Errors reported by the registry.
#[derive(Debug, Clone, Copy, PartialEq, Eq, Structural)]
pub enum RegistryError {
    /// The backing store could not be reached or failed the request.
    StoreUnavailable,
    /// A file row named an owning user that does not exist.
    IntegrityViolation,
    /// A stored password hash could not be read.
    VerificationFailure,
    /// A statement found what it creates already in place (another process
    /// created it first).
    AlreadyExists,
}

/// An account row of the `users` table.
#[derive(Debug, Clone)]
pub struct User {
    pub id: i64,
    pub username: String,
    pub hashed_password: String,
    pub email: Option<String>,
    pub is_admin: bool,
    pub api_key: Option<String>,
    /// Seconds since the Unix epoch.
    pub last_update: i64,
    /// Seconds since the Unix epoch.
    pub created_at: i64,
}

/// A row of the `files` table: metadata of one stored upload.
#[derive(Debug, Clone)]
pub struct File {
    pub id: i64,
    pub name: String,
    pub original_name: String,
    pub filetype: String,
    pub file_hash: String,
    pub uploaded_by: i64,
    pub uploaded_by_ip: String,
    /// Seconds since the Unix epoch.
    pub created_at: i64,
}

/// A username and plaintext password offered at login.
#[derive(Debug, Clone)]
pub struct UserLoginData {
    pub username: String,
    pub password: String,
}

fn copy_opt_string(s: &Option<String>) -> (r: Option<String>)
    ensures
        r == *s,
{
    match s {
        Some(v) => Some(v.clone()),
        None => None,
    }
}

impl User {
    /// A field-by-field copy.
    pub fn copy(&self) -> (r: User)
        ensures
            r == *self,
    {
        User {
            id: self.id,
            username: self.username.clone(),
            hashed_password: self.hashed_password.clone(),
            email: copy_opt_string(&self.email),
            is_admin: self.is_admin,
            api_key: copy_opt_string(&self.api_key),
            last_update: self.last_update,
            created_at: self.created_at,
        }
    }
}

impl File {
    /// A field-by-field copy.
    pub fn copy(&self) -> (r: File)
        ensures
            r == *self,
    {
        File {
            id: self.id,
            name: self.name.clone(),
            original_name: self.original_name.clone(),
            filetype: self.filetype.clone(),
            file_hash: self.file_hash.clone(),
            uploaded_by: self.uploaded_by,
            uploaded_by_ip: self.uploaded_by_ip.clone(),
            created_at: self.created_at,
        }
    }
}

} // verus!
