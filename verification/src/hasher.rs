//! One-way salted hashing of secrets and verification against a stored hash.

use argon2::password_hash::rand_core::OsRng;
use argon2::password_hash::{PasswordHash, PasswordHasher, PasswordVerifier, SaltString};
use argon2::Argon2;
use vstd::prelude::*;

verus! {

/// The error type shared by the hashing and parsing routines.
#[verifier::external_type_specification]
#[verifier::external_body]
pub struct ExPasswordHashError(argon2::password_hash::Error);

/// Whether `PasswordHash::new` accepts `text` as a PHC string.
pub uninterp spec fn phc_parses(text: Seq<char>) -> bool;

/// Whether `Argon2::default().verify_password` accepts `secret` against the
/// hash that `text` parses to.
pub uninterp spec fn argon2_accepts(secret: Seq<char>, text: Seq<char>) -> bool;

/// The parameters that the hash which `text` parses to carries, in the
/// order written, as `ParamsString::iter` yields them: each name with the
/// reading of its value as a decimal number, where it has one.
pub uninterp spec fn phc_params(text: Seq<char>) -> Seq<(Seq<char>, Option<u32>)>;

/// The content of a list of parameters.
pub open spec fn params_view(params: Seq<(String, Option<u32>)>) -> Seq<(Seq<char>, Option<u32>)> {
    Seq::new(params.len(), |i: int| (params[i].0@, params[i].1))
}

/// The name of the parameter that gives the degree of parallelism.
pub open spec fn lanes_name() -> Seq<char> {
    "p"@
}

/// Eight times the number fits in 32 bits.
pub open spec fn lanes_fit(lanes: u32) -> bool {
    lanes * 8 <= u32::MAX
}

/// Every degree of parallelism among the parameters, the name being given
/// once or more often, is one that can be multiplied by eight in 32 bits.
/// Verification does that multiplication before it looks at the range of
/// the degree, so it must not be asked about any other hash.
pub open spec fn lanes_in_range(params: Seq<(Seq<char>, Option<u32>)>) -> bool {
    forall|i: int|
        0 <= i < params.len() && (#[trigger] params[i]).0 == lanes_name() ==> (params[i].1
            matches Some(lanes) ==> lanes_fit(lanes))
}

/// A stored hash that verification can be asked about: a PHC string whose
/// degrees of parallelism are in range.
pub open spec fn phc_usable(text: Seq<char>) -> bool {
    phc_parses(text) && lanes_in_range(phc_params(text))
}

/// A stored hash is usable and `secret` is the secret it was made from.
pub open spec fn credential_matches(secret: Seq<char>, hash: Seq<char>) -> bool {
    phc_usable(hash) && argon2_accepts(secret, hash)
}

/// A secret that is short enough to be hashed, however its characters are
/// encoded.
pub open spec fn hashable(secret: Seq<char>) -> bool {
    secret.len() <= 0x3fff_ffff
}

/// Why a secret could not be turned into a credential hash.
#[derive(Clone, Copy, Debug, PartialEq, Eq, Structural)]
pub enum HashError {
    /// The hashing routine rejected its input.
    HashingFailed,
}

/// Why a secret was not accepted against a stored hash.
#[derive(Clone, Copy, Debug, PartialEq, Eq, Structural)]
pub enum CredentialError {
    /// The stored hash is not a PHC string, or one whose parameters
    /// verification cannot be asked about.
    InvalidCredentialFormat,
    /// The stored hash is well formed and was made from another secret.
    Mismatch,
}

/// `Argon2::default().hash_password` under a salt that
/// `SaltString::generate` draws from the operating system's random source,
/// rendered as a PHC string. Trusted: a hash that comes back parses, has
/// the default parameters, whose one degree of parallelism is 1, and
/// verifies against the secret it was made from; and hashing succeeds on
/// every secret of at most `0x3fff_ffff` characters. The routine refuses
/// only a secret of more than `0xffff_ffff` bytes or a salt of under 8, a
/// character takes 4 bytes at most, and a drawn salt has 16.
#[verifier::external_body]
fn argon2_hash(secret: &str) -> (r: Result<String, argon2::password_hash::Error>)
    ensures
        r matches Ok(h) ==> phc_parses(h@) && lanes_in_range(phc_params(h@)) && argon2_accepts(
            secret@,
            h@,
        ),
        hashable(secret@) ==> r is Ok,
{
    let salt = SaltString::generate(&mut OsRng);
    Argon2::default().hash_password(secret.as_bytes(), &salt).map(|h| h.to_string())
}

/// `PasswordHash::new`, keeping only whether the text parsed.
#[verifier::external_body]
fn parse_phc(text: &str) -> (r: Result<(), argon2::password_hash::Error>)
    ensures
        r.is_ok() == phc_parses(text@),
{
    PasswordHash::new(text).map(|_| ())
}

/// `ParamsString::iter` on the hash that `text` parses to, each pair handed
/// out as the parameter's name and `Value::decimal` of its value.
#[verifier::external_body]
fn phc_parameters(text: &str) -> (params: Vec<(String, Option<u32>)>)
    requires
        phc_parses(text@),
    ensures
        params_view(params@) == phc_params(text@),
{
    match PasswordHash::new(text) {
        Ok(parsed) => parsed.params.iter().map(
            |(name, value)| (name.as_str().to_string(), value.decimal().ok()),
        ).collect(),
        Err(_) => Vec::new(),
    }
}

/// `Argon2::default().verify_password` on a hash that parses and whose
/// degrees of parallelism are in range; on any other the call may overflow.
/// The call takes the parsed hash, so the text is parsed on the way in.
#[verifier::external_body]
fn argon2_verify(secret: &str, text: &str) -> (r: bool)
    requires
        phc_parses(text@),
        lanes_in_range(phc_params(text@)),
    ensures
        r == argon2_accepts(secret@, text@),
{
    match PasswordHash::new(text) {
        Ok(parsed) => Argon2::default().verify_password(secret.as_bytes(), &parsed).is_ok(),
        Err(_) => false,
    }
}

/// Whether every degree of parallelism among the parameters is in range.
pub fn lanes_within_range(params: &Vec<(String, Option<u32>)>) -> (r: bool)
    ensures
        r == lanes_in_range(params_view(params@)),
{
    let name = "p".to_owned();
    let mut i: usize = 0;
    while i < params.len()
        invariant
            i <= params.len(),
            name@ == lanes_name(),
            forall|k: int|
                0 <= k < i && (#[trigger] params_view(params@)[k]).0 == lanes_name() ==> (
                params_view(params@)[k].1 matches Some(lanes) ==> lanes_fit(lanes)),
        decreases params.len() - i,
    {
        if params[i].0 == name {
            match params[i].1 {
                Some(lanes) => {
                    if lanes > 0x1fff_ffff {
                        assert(params_view(params@)[i as int].0 == lanes_name());
                        assert(!lanes_fit(lanes));
                        return false;
                    }
                },
                None => {},
            }
        }
        i += 1;
    }
    true
}

/// What `hash_password` returns for each outcome of the hashing routine.
pub open spec fn credential_of(outcome: Result<String, argon2::password_hash::Error>) -> Result<
    String,
    HashError,
> {
    match outcome {
        Ok(h) => Ok(h),
        Err(_) => Err(HashError::HashingFailed),
    }
}

/// Maps the outcome of the hashing routine into the library's own error type.
pub fn hashed_credential(outcome: Result<String, argon2::password_hash::Error>) -> (r: Result<
    String,
    HashError,
>)
    ensures
        r == credential_of(outcome),
{
    match outcome {
        Ok(h) => Ok(h),
        Err(_) => Err(HashError::HashingFailed),
    }
}

/// Hashes `secret` under a salt drawn for this call alone.
///
/// Hashing succeeds on every secret that is `hashable`. The salt is random,
/// so two calls on one secret may differ; whatever comes back as `Ok` is a
/// well-formed hash that `secret` verifies against.
pub fn hash_password(secret: &str) -> (r: Result<String, HashError>)
    ensures
        hashable(secret@) ==> r is Ok,
        r matches Ok(h) ==> credential_matches(secret@, h@),
{
    hashed_credential(argon2_hash(secret))
}

/// Checks `secret` against a stored hash and says why it was refused. A
/// hash that is no PHC string, or that names a degree of parallelism out of
/// range, is refused before verification is asked.
pub fn verify_credential(secret: &str, hash: &str) -> (r: Result<(), CredentialError>)
    ensures
        r is Ok <==> credential_matches(secret@, hash@),
        r == Err::<(), CredentialError>(CredentialError::InvalidCredentialFormat) <==> !phc_usable(
            hash@,
        ),
        r == Err::<(), CredentialError>(CredentialError::Mismatch) <==> phc_usable(hash@)
            && !argon2_accepts(secret@, hash@),
{
    match parse_phc(hash) {
        Err(_) => Err(CredentialError::InvalidCredentialFormat),
        Ok(_) => {
            let params = phc_parameters(hash);
            if !lanes_within_range(&params) {
                Err(CredentialError::InvalidCredentialFormat)
            } else if argon2_verify(secret, hash) {
                Ok(())
            } else {
                Err(CredentialError::Mismatch)
            }
        },
    }
}

/// Whether `secret` is the secret behind the stored hash. A malformed or
/// unusable hash is a failed verification, never a fault.
pub fn verify_password(secret: &str, hash: &str) -> (r: bool)
    ensures
        r == credential_matches(secret@, hash@),
{
    verify_credential(secret, hash).is_ok()
}

} // verus!
