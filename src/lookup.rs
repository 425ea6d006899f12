use crate::password::{
    bcrypt_verify_outcome, check_password, login_verdict, login_verdict_spec,
    password_check_result, spend_decoy_check,
};
use crate::records::{File, RegistryError, User, UserLoginData};
use vstd::prelude::*;

verus! {

/// The index of the first element of `s` that satisfies `p`.
pub open spec fn first_where<T>(s: Seq<T>, p: spec_fn(T) -> bool) -> Option<int>
    decreases s.len(),
{
    if s.len() == 0 {
        None
    } else {
        match first_where(s.drop_last(), p) {
            Some(i) => Some(i),
            None => if p(s.last()) {
                Some(s.len() - 1)
            } else {
                None
            },
        }
    }
}

/// `first_where` finds exactly the first satisfying element.
pub proof fn lemma_first_where<T>(s: Seq<T>, p: spec_fn(T) -> bool)
    ensures
        match first_where(s, p) {
            Some(i) => 0 <= i < s.len() && p(s[i]) && forall|j: int| 0 <= j < i ==> !p(#[trigger] s[j]),
            None => forall|j: int| 0 <= j < s.len() ==> !p(#[trigger] s[j]),
        },
    decreases s.len(),
{
    if s.len() > 0 {
        let t = s.drop_last();
        lemma_first_where(t, p);
        assert forall|j: int| 0 <= j < t.len() implies t[j] == s[j] by {}
    }
}

/// Any index that satisfies `p` after only failing elements is the one
/// `first_where` gives; with no satisfying element it gives `None`.
pub proof fn lemma_first_where_unique<T>(s: Seq<T>, p: spec_fn(T) -> bool, i: int)
    requires
        0 <= i < s.len(),
        p(s[i]),
        forall|j: int| 0 <= j < i ==> !p(#[trigger] s[j]),
    ensures
        first_where(s, p) == Some(i),
{
    lemma_first_where(s, p);
    match first_where(s, p) {
        Some(k) => {
            if k < i {
                assert(!p(s[k]));
            } else if k > i {
                assert(!p(s[i]));
            }
        },
        None => {
            assert(!p(s[i]));
        },
    }
}

/// Rows whose username equals `name` exactly.
pub open spec fn named(name: Seq<char>) -> spec_fn(User) -> bool {
    |u: User| u.username@ == name
}

/// Rows whose bearer token equals `token` exactly.
pub open spec fn holds_token(token: Seq<char>) -> spec_fn(User) -> bool {
    |u: User|
        match u.api_key {
            Some(k) => k@ == token,
            None => false,
        }
}

/// File rows owned by `owner` with content hash `hash`.
pub open spec fn owned_with_hash(owner: i64, hash: Seq<char>) -> spec_fn(File) -> bool {
    |f: File| f.uploaded_by == owner && f.file_hash@ == hash
}

/// The first row satisfying `p`, if any.
pub open spec fn first_row<T>(rows: Seq<T>, p: spec_fn(T) -> bool) -> Option<T> {
    match first_where(rows, p) {
        Some(i) => Some(rows[i]),
        None => None,
    }
}

/// The rows a lookup yielded; a failed lookup yields none.
pub open spec fn fetched_rows<T>(fetched: Result<Vec<T>, RegistryError>) -> Seq<T> {
    match fetched {
        Ok(v) => v@,
        Err(_) => Seq::empty(),
    }
}

/// The outcome of a login against `users`: the first account with that
/// username, provided the password verifies against its stored hash.
pub open spec fn login_result(users: Seq<User>, name: Seq<char>, password: Seq<char>) -> Option<User> {
    let candidate = first_row(users, named(name));
    login_verdict_spec(
        candidate,
        match candidate {
            Some(u) => password_check_result(bcrypt_verify_outcome(password, u.hashed_password@)),
            None => Ok(false),
        },
    )
}

/// Whether `ip` appears in the ban list, compared exactly.
pub open spec fn ip_listed(banned: Seq<String>, ip: Seq<char>) -> bool {
    exists|i: int| 0 <= i < banned.len() && (#[trigger] banned[i])@ == ip
}

/// A login succeeds with the first account of that username exactly when
/// the password verifies against its hash; with no such account, or with a
/// password that does not verify, the outcome is the same `None`.
pub proof fn law_login_outcome(users: Seq<User>, name: Seq<char>, password: Seq<char>)
    ensures
        forall|i: int|
            0 <= i < users.len() && (#[trigger] users[i]).username@ == name
                && (forall|j: int| 0 <= j < i ==> users[j].username@ != name) ==> login_result(users, name, password)
                == if bcrypt_verify_outcome(password, users[i].hashed_password@) == Some(true) {
                Some(users[i])
            } else {
                None::<User>
            },
        (forall|i: int| 0 <= i < users.len() ==> (#[trigger] users[i]).username@ != name) ==> login_result(
            users,
            name,
            password,
        ) is None,
{
    assert forall|i: int|
        0 <= i < users.len() && (#[trigger] users[i]).username@ == name
            && (forall|j: int| 0 <= j < i ==> users[j].username@ != name) implies login_result(users, name, password)
        == if bcrypt_verify_outcome(password, users[i].hashed_password@) == Some(true) {
        Some(users[i])
    } else {
        None::<User>
    } by {
        assert forall|j: int| 0 <= j < i implies !named(name)(#[trigger] users[j]) by {}
        lemma_first_where_unique(users, named(name), i);
    }
    lemma_first_where(users, named(name));
    if forall|i: int| 0 <= i < users.len() ==> (#[trigger] users[i]).username@ != name {
        if let Some(k) = first_where(users, named(name)) {
            assert(users[k].username@ != name);
        }
    }
}

/// A token held by an account resolves to the first account holding it; a
/// string that no account holds as its token resolves to nothing.
pub proof fn law_token_resolution(users: Seq<User>, token: Seq<char>)
    ensures
        forall|i: int|
            0 <= i < users.len() && holds_token(token)(#[trigger] users[i]) && (forall|j: int|
                0 <= j < i ==> !holds_token(token)(users[j])) ==> first_row(users, holds_token(token))
                == Some(users[i]),
        (forall|i: int| 0 <= i < users.len() ==> !holds_token(token)(#[trigger] users[i]))
            ==> first_row(users, holds_token(token)) is None,
{
    assert forall|i: int|
        0 <= i < users.len() && holds_token(token)(#[trigger] users[i]) && (forall|j: int|
            0 <= j < i ==> !holds_token(token)(users[j])) implies first_row(users, holds_token(token))
        == Some(users[i]) by {
        assert forall|j: int| 0 <= j < i implies !holds_token(token)(#[trigger] users[j]) by {}
        lemma_first_where_unique(users, holds_token(token), i);
    }
    lemma_first_where(users, holds_token(token));
    if forall|i: int| 0 <= i < users.len() ==> !holds_token(token)(#[trigger] users[i]) {
        if let Some(k) = first_where(users, holds_token(token)) {
            assert(holds_token(token)(users[k]));
        }
    }
}

/// Every listed address is banned and every other one is not: the
/// comparison is exact, so an address that only shares a prefix with a
/// listed one, or differs from it in case, is not banned.
pub proof fn law_ban_exact(banned: Seq<String>, ip: Seq<char>)
    ensures
        forall|i: int| 0 <= i < banned.len() ==> ip_listed(banned, (#[trigger] banned[i])@),
        (forall|i: int| 0 <= i < banned.len() ==> (#[trigger] banned[i])@ != ip) ==> !ip_listed(banned, ip),
{
}

/// The first account in `users` whose username is exactly `name`.
pub fn find_user_by_name(name: &str, users: &Vec<User>) -> (r: Option<User>)
    ensures
        r == first_row(users@, named(name@)),
{
    let target = name.to_owned();
    let mut i: usize = 0;
    while i < users.len()
        invariant
            0 <= i <= users@.len(),
            target@ == name@,
            forall|j: int| 0 <= j < i ==> !named(name@)(#[trigger] users@[j]),
        decreases users@.len() - i,
    {
        if users[i].username == target {
            proof {
                lemma_first_where_unique(users@, named(name@), i as int);
            }
            return Some(users[i].copy());
        }
        i = i + 1;
    }
    proof {
        lemma_first_where(users@, named(name@));
    }
    None
}

/// The first account in `users` whose bearer token is exactly `token`.
pub fn find_user_by_token(token: &str, users: &Vec<User>) -> (r: Option<User>)
    ensures
        r == first_row(users@, holds_token(token@)),
{
    let target = token.to_owned();
    let mut i: usize = 0;
    while i < users.len()
        invariant
            0 <= i <= users@.len(),
            target@ == token@,
            forall|j: int| 0 <= j < i ==> !holds_token(token@)(#[trigger] users@[j]),
        decreases users@.len() - i,
    {
        let hit = match &users[i].api_key {
            Some(k) => *k == target,
            None => false,
        };
        if hit {
            proof {
                lemma_first_where_unique(users@, holds_token(token@), i as int);
            }
            return Some(users[i].copy());
        }
        i = i + 1;
    }
    proof {
        lemma_first_where(users@, holds_token(token@));
    }
    None
}

/// The first file in `files` owned by `user_id` with content hash `hash`.
pub fn find_file(hash: &str, user_id: i64, files: &Vec<File>) -> (r: Option<File>)
    ensures
        r == first_row(files@, owned_with_hash(user_id, hash@)),
{
    let target = hash.to_owned();
    let mut i: usize = 0;
    while i < files.len()
        invariant
            0 <= i <= files@.len(),
            target@ == hash@,
            forall|j: int| 0 <= j < i ==> !owned_with_hash(user_id, hash@)(#[trigger] files@[j]),
        decreases files@.len() - i,
    {
        if files[i].uploaded_by == user_id && files[i].file_hash == target {
            proof {
                lemma_first_where_unique(files@, owned_with_hash(user_id, hash@), i as int);
            }
            return Some(files[i].copy());
        }
        i = i + 1;
    }
    proof {
        lemma_first_where(files@, owned_with_hash(user_id, hash@));
    }
    None
}

/// Whether `ip` is one of `banned`, compared exactly.
pub fn ip_in_list(ip: &str, banned: &Vec<String>) -> (r: bool)
    ensures
        r == ip_listed(banned@, ip@),
{
    let target = ip.to_owned();
    let mut i: usize = 0;
    while i < banned.len()
        invariant
            0 <= i <= banned@.len(),
            target@ == ip@,
            forall|j: int| 0 <= j < i ==> (#[trigger] banned@[j])@ != ip@,
        decreases banned@.len() - i,
    {
        if banned[i] == target {
            return true;
        }
        i = i + 1;
    }
    false
}

/// The outcome of checking the password of a login against `users`: the
/// check of the first account with that username, or `Ok(false)` when there
/// is none.
pub open spec fn login_check_result(users: Seq<User>, name: Seq<char>, password: Seq<char>) -> Result<bool, RegistryError> {
    match first_row(users, named(name)) {
        Some(u) => password_check_result(bcrypt_verify_outcome(password, u.hashed_password@)),
        None => Ok(false),
    }
}

/// A login decision together with the password check behind it, so that an
/// unreadable stored hash (`VerificationFailure`) can be reported while the
/// caller of the login still sees only `None`.
#[derive(Debug)]
pub struct LoginAttempt {
    pub user: Option<User>,
    pub check: Result<bool, RegistryError>,
}

/// Authenticates against the accounts in `users`: the first account with
/// exactly this username, if the password verifies against its hash.
/// When no account has the username, the same verification work is spent.
pub fn login_against(data: &UserLoginData, users: &Vec<User>) -> (r: LoginAttempt)
    ensures
        r.user == login_result(users@, data.username@, data.password@),
        r.check == login_check_result(users@, data.username@, data.password@),
{
    let candidate = find_user_by_name(data.username.as_str(), users);
    let check = match &candidate {
        Some(u) => check_password(data.password.as_str(), u.hashed_password.as_str()),
        None => {
            spend_decoy_check(data.password.as_str());
            Ok(false)
        },
    };
    let user = login_verdict(candidate, check);
    LoginAttempt { user, check }
}

/// Authenticates from the rows a lookup by username returned. An unknown
/// username, a wrong password and an unreadable stored hash all give an
/// attempt whose `user` is `None`; a failed lookup is reported as such.
pub fn check_user_login(data: &UserLoginData, fetched: Result<Vec<User>, RegistryError>) -> (r: Result<LoginAttempt, RegistryError>)
    ensures
        match fetched {
            Ok(v) => r matches Ok(a) && a.user == login_result(v@, data.username@, data.password@)
                && a.check == login_check_result(v@, data.username@, data.password@),
            Err(e) => r matches Err(x) && x == e,
        },
{
    match fetched {
        Ok(users) => Ok(login_against(data, &users)),
        Err(e) => Err(e),
    }
}

/// Resolves a bearer token from the rows a lookup by token returned: the
/// first account whose token equals it exactly. A failed lookup gives `None`.
pub fn get_user_by_token(token: &str, fetched: Result<Vec<User>, RegistryError>) -> (r: Option<User>)
    ensures
        r == first_row(fetched_rows(fetched), holds_token(token@)),
{
    match fetched {
        Ok(users) => find_user_by_token(token, &users),
        Err(_) => None,
    }
}

/// Decides the ban check from the addresses a lookup returned: banned when
/// one of them equals `ip` exactly. A failed lookup is reported as such.
pub fn is_ip_banned(ip: &str, fetched: Result<Vec<String>, RegistryError>) -> (r: Result<bool, RegistryError>)
    ensures
        match fetched {
            Ok(v) => r == Ok::<bool, RegistryError>(ip_listed(v@, ip@)),
            Err(e) => r == Err::<bool, RegistryError>(e),
        },
{
    match fetched {
        Ok(banned) => Ok(ip_in_list(ip, &banned)),
        Err(e) => Err(e),
    }
}

/// The dedup check from the rows a lookup returned: the first file owned
/// by `user_id` with exactly this content hash. A failed lookup is reported
/// as such, never as "no duplicate".
pub fn get_existing_file_by_hash(hash: &str, user_id: &i64, fetched: Result<Vec<File>, RegistryError>) -> (r: Result<Option<File>, RegistryError>)
    ensures
        match fetched {
            Ok(v) => r == Ok::<Option<File>, RegistryError>(first_row(v@, owned_with_hash(*user_id, hash@))),
            Err(e) => r == Err::<Option<File>, RegistryError>(e),
        },
{
    match fetched {
        Ok(files) => Ok(find_file(hash, *user_id, &files)),
        Err(e) => Err(e),
    }
}

} // verus!
