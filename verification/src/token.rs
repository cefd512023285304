use vstd::prelude::*;
use crate::error::ErrorMessage;

verus! {

/// Names the token string jsonwebtoken's `encode` produces for an HS256
/// header and the claims {sub, iat, exp} signed with the given secret.
pub uninterp spec fn jwt_token_of(sub: Seq<char>, iat: int, exp: int, secret: Seq<char>) -> Seq<
    char,
>;

/// Names what jsonwebtoken's `decode` returns for a token and secret when
/// claim validation is turned off: the embedded subject and timestamps when
/// the token is structurally well formed, carries them as a string and two
/// integers, and its HS256 signature matches the secret; None otherwise.
pub uninterp spec fn jwt_claims_of(token: Seq<char>, secret: Seq<char>) -> Option<
    (Seq<char>, int, int),
>;

/// Relies on jsonwebtoken's `encode` with an HS256 header and an
/// `EncodingKey::from_secret` key. It cannot fail there: the HMAC-SHA256
/// signer accepts a key of any length, signing is infallible, and these
/// claims always serialize, so the result is the signed token for exactly
/// these claims, and by the crate's own round trip `decode` with the same
/// secret returns them.
#[verifier::external_body]
fn jwt_encode(sub: &str, iat: i64, exp: i64, secret: &str) -> (r: Result<String, ()>)
    ensures
        r is Ok,
        r matches Ok(t) ==> t@ == jwt_token_of(sub@, iat as int, exp as int, secret@)
            && jwt_claims_of(t@, secret@) == Some((sub@, iat as int, exp as int)),
{
    let mut claims = serde_json::Map::new();
    claims.insert("sub".to_string(), serde_json::Value::String(sub.to_string()));
    claims.insert("iat".to_string(), serde_json::Value::from(iat));
    claims.insert("exp".to_string(), serde_json::Value::from(exp));
    let key = jsonwebtoken::EncodingKey::from_secret(secret.as_bytes());
    match jsonwebtoken::encode(
        &jsonwebtoken::Header::default(),
        &serde_json::Value::Object(claims),
        &key,
    ) {
        Ok(t) => Ok(t),
        Err(_) => Err(()),
    }
}

/// Relies on jsonwebtoken's `decode` with HS256, expiry validation switched
/// off and no required claims, so that the outcome depends on the token and
/// secret alone: the embedded claims on success, None on any structural or
/// signature failure.
#[verifier::external_body]
fn jwt_decode(token: &str, secret: &str) -> (r: Option<(String, i64, i64)>)
    ensures
        r matches Some(c) ==> jwt_claims_of(token@, secret@) == Some(
            (c.0@, c.1 as int, c.2 as int),
        ),
        r is None ==> jwt_claims_of(token@, secret@) is None,
{
    let mut validation = jsonwebtoken::Validation::new(jsonwebtoken::Algorithm::HS256);
    validation.validate_exp = false;
    validation.required_spec_claims = std::collections::HashSet::new();
    let key = jsonwebtoken::DecodingKey::from_secret(secret.as_bytes());
    let claims = jsonwebtoken::decode::<serde_json::Value>(token, &key, &validation).ok()?.claims;
    let sub = claims.get("sub")?.as_str()?.to_string();
    let iat = claims.get("iat")?.as_i64()?;
    let exp = claims.get("exp")?.as_i64()?;
    Some((sub, iat, exp))
}

/// Relies on chrono's `Utc::now`: seconds since the Unix epoch at the moment
/// of the call. The clock decides the value, so nothing is promised of it.
#[verifier::external_body]
fn current_timestamp() -> (r: i64) {
    chrono::Utc::now().timestamp()
}

/// What `verify` returns for each token, secret and current time: the
/// embedded subject when the signature matches and the token has not expired,
/// `InvalidToken` otherwise.
pub open spec fn verify_token_result(token: Seq<char>, secret: Seq<char>, now: int) -> Result<
    Seq<char>,
    ErrorMessage,
> {
    match jwt_claims_of(token, secret) {
        None => Err(ErrorMessage::InvalidToken),
        Some(claims) => if now > claims.2 {
            Err(ErrorMessage::InvalidToken)
        } else {
            Ok(claims.0)
        },
    }
}

/// Issues a signed token for a subject: claims {sub = subject, iat = now,
/// exp = now + lifetime_secs}, signed with the secret.
///
/// An empty subject is rejected with `InvalidToken`; every other subject is
/// issued exactly the token carrying these claims.
pub fn issue(subject: &str, secret: &str, now: i64, lifetime_secs: i64) -> (r: Result<
    String,
    ErrorMessage,
>)
    requires
        0 <= lifetime_secs,
        now + lifetime_secs <= i64::MAX,
    ensures
        subject@.len() == 0 ==> r == Err::<String, ErrorMessage>(ErrorMessage::InvalidToken),
        subject@.len() > 0 ==> (r matches Ok(t) && t@ == jwt_token_of(
            subject@,
            now as int,
            now + lifetime_secs,
            secret@,
        ) && jwt_claims_of(t@, secret@) == Some(
            (subject@, now as int, now + lifetime_secs as int),
        )),
{
    if subject.is_empty() {
        return Err(ErrorMessage::InvalidToken);
    }
    let exp = now + lifetime_secs;
    match jwt_encode(subject, now, exp, secret) {
        Ok(t) => Ok(t),
        Err(_) => Err(ErrorMessage::HashingError),
    }
}

/// Verifies a token against a secret at a given time and returns the subject
/// it asserts, exactly as `verify_token_result` describes.
pub fn verify(token: &str, secret: &str, now: i64) -> (r: Result<String, ErrorMessage>)
    ensures
        match verify_token_result(token@, secret@, now as int) {
            Ok(s) => r matches Ok(rs) && rs@ == s,
            Err(e) => r == Err::<String, ErrorMessage>(e),
        },
{
    match jwt_decode(token, secret) {
        None => Err(ErrorMessage::InvalidToken),
        Some(claims) => {
            let (sub, _iat, exp) = claims;
            if now > exp {
                Err(ErrorMessage::InvalidToken)
            } else {
                Ok(sub)
            }
        },
    }
}

/// Issues a token whose validity window starts at the current clock reading.
///
/// Whatever the clock returned: a token this produces carries the subject and
/// a window of exactly `lifetime_secs` seconds, an empty subject is always
/// rejected, and a non-empty one fails only at the expiry-overflow guard.
pub fn issue_now(subject: &str, secret: &str, lifetime_secs: i64) -> (r: Result<
    String,
    ErrorMessage,
>)
    requires
        0 <= lifetime_secs,
    ensures
        subject@.len() == 0 ==> r is Err,
        subject@.len() > 0 ==> (r is Ok || r == Err::<String, ErrorMessage>(
            ErrorMessage::HashingError,
        )),
        r matches Ok(t) ==> subject@.len() > 0 && (exists|iat: int, exp: int|
            exp == iat + lifetime_secs && jwt_claims_of(t@, secret@) == Some((subject@, iat, exp))),
{
    let now = current_timestamp();
    if now > i64::MAX - lifetime_secs {
        return Err(ErrorMessage::HashingError);
    }
    let r = issue(subject, secret, now, lifetime_secs);
    proof {
        if subject@.len() > 0 && r is Ok {
            let t = r->Ok_0;
            assert(jwt_claims_of(t@, secret@) == Some(
                (subject@, now as int, now + lifetime_secs as int),
            ));
        }
    }
    r
}

/// Verifies a token against the clock's current reading.
///
/// Whatever the clock returned: a success carries a subject some reading of
/// the clock accepts, and a token whose signature does not match the secret
/// is rejected.
pub fn verify_now(token: &str, secret: &str) -> (r: Result<String, ErrorMessage>)
    ensures
        r matches Ok(s) ==> (exists|now: int|
            verify_token_result(token@, secret@, now) == Ok::<Seq<char>, ErrorMessage>(s@)),
        jwt_claims_of(token@, secret@) is None ==> r == Err::<String, ErrorMessage>(
            ErrorMessage::InvalidToken,
        ),
{
    let now = current_timestamp();
    let r = verify(token, secret, now);
    proof {
        if r is Ok {
            assert(verify_token_result(token@, secret@, now as int) == Ok::<
                Seq<char>,
                ErrorMessage,
            >(r->Ok_0@));
        }
    }
    r
}

/// Law: a token issued for a subject verifies to that subject, with the
/// issuing secret, at any time up to and including its expiry.
pub proof fn lemma_verify_accepts_issued(
    sub: Seq<char>,
    iat: int,
    exp: int,
    secret: Seq<char>,
    token: Seq<char>,
    now: int,
)
    requires
        jwt_claims_of(token, secret) == Some((sub, iat, exp)),
        now <= exp,
    ensures
        verify_token_result(token, secret, now) == Ok::<Seq<char>, ErrorMessage>(sub),
{
}

/// Law: a token whose signature does not match the secret it is checked
/// against — in particular, with overwhelming probability, one signed under a
/// different secret, a fact of the signature scheme that no contract here
/// states — is rejected as `InvalidToken`, whatever the time.
pub proof fn lemma_verify_rejects_unmatched_signature(
    token: Seq<char>,
    secret: Seq<char>,
    now: int,
)
    requires
        jwt_claims_of(token, secret) is None,
    ensures
        verify_token_result(token, secret, now) == Err::<Seq<char>, ErrorMessage>(
            ErrorMessage::InvalidToken,
        ),
{
}

/// Law: a token already past its expiry — in particular one issued with a
/// zero lifetime, once the clock has moved at all — is rejected as
/// `InvalidToken`.
pub proof fn lemma_verify_rejects_expired(
    sub: Seq<char>,
    iat: int,
    exp: int,
    secret: Seq<char>,
    token: Seq<char>,
    now: int,
)
    requires
        jwt_claims_of(token, secret) == Some((sub, iat, exp)),
        now > exp,
    ensures
        verify_token_result(token, secret, now) == Err::<Seq<char>, ErrorMessage>(
            ErrorMessage::InvalidToken,
        ),
{
}

} // verus!
