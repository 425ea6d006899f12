use crate::records::{RegistryError, User};
use vstd::prelude::*;

verus! {

#[verifier::external_type_specification]
#[verifier::external_body]
pub struct ExBcryptError(bcrypt::BcryptError);

/// What `bcrypt::verify` gives for a plaintext and a stored hash:
/// `Some(b)` for `Ok(b)`, `None` for an error.
pub uninterp spec fn bcrypt_verify_outcome(password: Seq<char>, hash: Seq<char>) -> Option<bool>;

/// Relies on `bcrypt::verify`: it parses the stored hash, rehashes the
/// plaintext with the salt and cost found there, and compares in constant
/// time; a malformed hash gives an error. The outcome depends on the two
/// strings alone.
#[verifier::external_body]
fn bcrypt_verify(password: &str, hash: &str) -> (r: Result<bool, bcrypt::BcryptError>)
    ensures
        match r {
            Ok(b) => bcrypt_verify_outcome(password@, hash@) == Some(b),
            Err(_) => bcrypt_verify_outcome(password@, hash@) is None,
        },
{
    bcrypt::verify(password, hash)
}

/// A well-formed hash (cost 12) that no login is checked against; verifying
/// against it costs as much as verifying against a stored hash.
pub const DECOY_HASH: &'static str = "$2b$12$.....................................................";

/// The library's reading of a verification outcome.
pub open spec fn password_check_result(outcome: Option<bool>) -> Result<bool, RegistryError> {
    match outcome {
        Some(b) => Ok(b),
        None => Err(RegistryError::VerificationFailure),
    }
}

/// Checks a plaintext password against a stored bcrypt hash. A hash that
/// cannot be read gives `VerificationFailure`.
pub fn check_password(password: &str, stored_hash: &str) -> (r: Result<bool, RegistryError>)
    ensures
        r == password_check_result(bcrypt_verify_outcome(password@, stored_hash@)),
{
    match bcrypt_verify(password, stored_hash) {
        Ok(b) => Ok(b),
        Err(_) => Err(RegistryError::VerificationFailure),
    }
}

/// Spends the same work as one password check, for logins that name no
/// account, so that such a login cannot be told apart by its duration.
pub fn spend_decoy_check(password: &str) {
    let _ = bcrypt_verify(password, DECOY_HASH);
}

/// The login decision: the candidate account is accepted only when the
/// password check succeeded and matched.
pub open spec fn login_verdict_spec(
    candidate: Option<User>,
    check: Result<bool, RegistryError>,
) -> Option<User> {
    match candidate {
        Some(u) => if check == Ok::<bool, RegistryError>(true) {
            Some(u)
        } else {
            None
        },
        None => None,
    }
}

/// Decides a login from the account found by username and the outcome of
/// checking the password against its hash. A wrong password, an unknown
/// username and an unreadable hash all give `None`.
pub fn login_verdict(candidate: Option<User>, check: Result<bool, RegistryError>) -> (r: Option<User>)
    ensures
        r == login_verdict_spec(candidate, check),
{
    match candidate {
        Some(u) => match check {
            Ok(true) => Some(u),
            _ => None,
        },
        None => None,
    }
}

} // verus!
