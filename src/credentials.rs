use vstd::prelude::*;

verus! {

/// The smallest work factor bcrypt accepts.
pub const MIN_COST: u32 = 4;

/// The largest work factor bcrypt accepts.
pub const MAX_COST: u32 = 31;

/// The work factor used unless another is configured.
pub const DEFAULT_COST: u32 = 12;

#[verifier::external_type_specification]
#[verifier::external_body]
pub struct ExBcryptError(bcrypt::BcryptError);

/// What `bcrypt::verify` returns for a password and a stored hash:
/// `Some(accepted)`, or `None` where it reports an error.
pub uninterp spec fn bcrypt_verdict(password: Seq<char>, hash: Seq<char>) -> Option<bool>;

/// Relies on `bcrypt::hash`: it fails on a cost outside `MIN_COST..=MAX_COST`;
/// otherwise it salts at random and renders `$2b$`, two cost digits, `$` and
/// 53 characters of salt and digest; `bcrypt::verify` parses that rendering
/// back and recomputes the digest with the same salt and cost, so it accepts
/// the hashed password.
#[verifier::external_body]
fn bcrypt_hash(password: &str, cost: u32) -> (r: Result<String, bcrypt::BcryptError>)
    ensures
        !(MIN_COST <= cost <= MAX_COST) ==> r is Err,
        r matches Ok(h) ==> h@.len() == 60 && bcrypt_verdict(password@, h@) == Some(true),
{
    bcrypt::hash(password, cost)
}

/// Relies on `bcrypt::verify`: its outcome depends on the password and the
/// stored hash alone.
#[verifier::external_body]
fn bcrypt_verify(password: &str, hash: &str) -> (r: Result<bool, bcrypt::BcryptError>)
    ensures
        match r {
            Ok(b) => bcrypt_verdict(password@, hash@) == Some(b),
            Err(_) => bcrypt_verdict(password@, hash@) is None,
        },
{
    bcrypt::verify(password, hash)
}

/// Why hashing or checking a password did not give an answer.
#[derive(Clone, Copy, Debug, PartialEq, Eq)]
pub enum CredentialError {
    /// The work factor lies outside `MIN_COST..=MAX_COST`.
    CostOutOfRange,
    /// The hashing primitive failed (for example, no randomness for a salt).
    HashingFailed,
    /// The stored hash could not be read.
    UnreadableHash,
}

/// What checking `password` against the stored `hash` yields.
pub open spec fn verify_outcome(password: Seq<char>, hash: Seq<char>) -> Result<bool, CredentialError> {
    match bcrypt_verdict(password, hash) {
        Some(b) => Ok(b),
        None => Err(CredentialError::UnreadableHash),
    }
}

/// Hashes `password` with a fresh random salt and work factor `cost`.
///
/// A hash it returns is accepted by [`verify_password`] for the same password.
pub fn hash_password(password: &str, cost: u32) -> (r: Result<String, CredentialError>)
    ensures
        !(MIN_COST <= cost <= MAX_COST) <==> r == Err::<String, CredentialError>(
            CredentialError::CostOutOfRange,
        ),
        r is Err ==> r->Err_0 == CredentialError::CostOutOfRange || r->Err_0
            == CredentialError::HashingFailed,
        r matches Ok(h) ==> h@.len() == 60 && verify_outcome(password@, h@) == Ok::<
            bool,
            CredentialError,
        >(true),
{
    if cost < MIN_COST || cost > MAX_COST {
        return Err(CredentialError::CostOutOfRange);
    }
    match bcrypt_hash(password, cost) {
        Ok(h) => Ok(h),
        Err(_) => Err(CredentialError::HashingFailed),
    }
}

/// Checks `password` against a stored bcrypt `hash`.
pub fn verify_password(password: &str, hash: &str) -> (r: Result<bool, CredentialError>)
    ensures
        r == verify_outcome(password@, hash@),
{
    match bcrypt_verify(password, hash) {
        Ok(b) => Ok(b),
        Err(_) => Err(CredentialError::UnreadableHash),
    }
}

} // verus!
