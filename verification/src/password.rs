use vstd::prelude::*;
use vstd::string::StrSliceExecFns;
use crate::error::ErrorMessage;

verus! {

/// Longest plaintext the codec accepts, in characters.
pub const MAX_PASSWORD_LENGTH: usize = 64;

/// Names the outcome of PHC-string parsing, password_hash's
/// phc::PasswordHash::new: true when the string is a well-formed PHC hash.
pub uninterp spec fn phc_parses(h: Seq<char>) -> bool;

/// Names the outcome of argon2's Argon2::verify_password on a parsed stored
/// hash: true when hashing the plaintext with the hash's salt and parameters
/// reproduces its digest.
pub uninterp spec fn password_matches(p: Seq<char>, h: Seq<char>) -> bool;

/// Relies on argon2's Argon2::hash_password (through the PasswordHasher
/// trait): the result is a freshly salted PHC-format hash string; by the
/// crate's own round trip it parses as a PHC hash and Argon2::verify_password
/// accepts the hashed plaintext against it. The salt is drawn from the system
/// RNG, so nothing more is promised of the string itself.
#[verifier::external_body]
fn argon2_hash(password: &str) -> (r: Result<String, ()>)
    ensures
        r matches Ok(h) ==> phc_parses(h@) && password_matches(password@, h@),
{
    match argon2::PasswordHasher::hash_password(&argon2::Argon2::default(), password.as_bytes()) {
        Ok(h) => Ok(h.to_string()),
        Err(_) => Err(()),
    }
}

/// Relies on password_hash's phc::PasswordHash::new and argon2's
/// Argon2::verify_password (through the PasswordVerifier trait): Err exactly
/// when the stored string is not a well-formed PHC hash; otherwise whether the
/// plaintext matches the stored hash.
#[verifier::external_body]
fn argon2_compare(password: &str, stored: &str) -> (r: Result<bool, ()>)
    ensures
        r is Ok <==> phc_parses(stored@),
        r matches Ok(b) ==> b == password_matches(password@, stored@),
{
    match argon2::PasswordHash::new(stored) {
        Ok(parsed) => Ok(
            argon2::PasswordVerifier::verify_password(
                &argon2::Argon2::default(),
                password.as_bytes(),
                &parsed,
            ).is_ok(),
        ),
        Err(_) => Err(()),
    }
}

/// A plaintext the codec works on: non-empty and within the length bound.
pub open spec fn valid_password(p: Seq<char>) -> bool {
    0 < p.len() <= MAX_PASSWORD_LENGTH
}

/// The length check shared by `hash` and `verify`: the error owed to an
/// out-of-bounds plaintext, if any.
pub open spec fn length_error(p: Seq<char>) -> Option<ErrorMessage> {
    if p.len() == 0 {
        Some(ErrorMessage::EmptyPassword)
    } else if p.len() > MAX_PASSWORD_LENGTH {
        Some(ErrorMessage::ExceededMaxPasswordLength(MAX_PASSWORD_LENGTH))
    } else {
        None
    }
}

/// Hashes a plaintext into a storable credential hash.
///
/// An empty plaintext is rejected with `EmptyPassword` and an over-long one
/// with `ExceededMaxPasswordLength`; otherwise the result is a freshly salted
/// hash that `verify` accepts for this plaintext, or `HashingError` if the
/// hashing primitive itself failed.
pub fn hash(password: &str) -> (r: Result<String, ErrorMessage>)
    ensures
        length_error(password@) matches Some(e) ==> r == Err::<String, ErrorMessage>(e),
        valid_password(password@) ==> match r {
            Ok(h) => phc_parses(h@) && password_matches(password@, h@),
            Err(e) => e == ErrorMessage::HashingError,
        },
{
    let n = password.unicode_len();
    if n == 0 {
        return Err(ErrorMessage::EmptyPassword);
    }
    if n > MAX_PASSWORD_LENGTH {
        return Err(ErrorMessage::ExceededMaxPasswordLength(MAX_PASSWORD_LENGTH));
    }
    match argon2_hash(password) {
        Ok(h) => Ok(h),
        Err(_) => Err(ErrorMessage::HashingError),
    }
}

/// What `verify` returns for each plaintext and stored hash.
pub open spec fn verify_result(p: Seq<char>, h: Seq<char>) -> Result<bool, ErrorMessage> {
    match length_error(p) {
        Some(e) => Err(e),
        None => if !phc_parses(h) {
            Err(ErrorMessage::InvalidHashFormat)
        } else {
            Ok(password_matches(p, h))
        },
    }
}

/// Checks a plaintext candidate against a stored credential hash.
///
/// Applies the same length check as `hash`, rejects a stored hash that does
/// not parse with `InvalidHashFormat`, and otherwise reports whether the
/// plaintext matches.
pub fn verify(password: &str, stored_hash: &str) -> (r: Result<bool, ErrorMessage>)
    ensures
        r == verify_result(password@, stored_hash@),
{
    let n = password.unicode_len();
    if n == 0 {
        return Err(ErrorMessage::EmptyPassword);
    }
    if n > MAX_PASSWORD_LENGTH {
        return Err(ErrorMessage::ExceededMaxPasswordLength(MAX_PASSWORD_LENGTH));
    }
    match argon2_compare(password, stored_hash) {
        Ok(b) => Ok(b),
        Err(_) => Err(ErrorMessage::InvalidHashFormat),
    }
}

/// Law: a hash produced for a plaintext verifies against that plaintext.
///
/// For any in-bounds plaintext and any stored hash `hash` can have produced
/// for it — a well-formed PHC string the plaintext matches — `verify` reports
/// a match.
pub proof fn lemma_verify_accepts_own_hash(p: Seq<char>, h: Seq<char>)
    requires
        valid_password(p),
        phc_parses(h),
        password_matches(p, h),
    ensures
        verify_result(p, h) == Ok::<bool, ErrorMessage>(true),
{
}

/// Law: a plaintext that does not match a stored hash — in particular, with
/// overwhelming probability, any plaintext other than the one the hash was
/// made from, a fact of the hashing scheme that no contract here states — is
/// reported as no match.
pub proof fn lemma_verify_rejects_unmatched_plaintext(p: Seq<char>, h: Seq<char>)
    requires
        valid_password(p),
        phc_parses(h),
        !password_matches(p, h),
    ensures
        verify_result(p, h) == Ok::<bool, ErrorMessage>(false),
{
}

} // verus!
