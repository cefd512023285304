use vstd::prelude::*;
use vstd::string::StrSliceExecFns;
use crate::error::ErrorMessage;
use crate::models::str_eq;
use crate::models::User;
use crate::models::UserRole;
use crate::token::verify_token_result;

verus! {

/// The request-scoped identity context the authentication gate attaches on
/// success, holding the resolved user record.
#[derive(Debug, Clone)]
pub struct JWTAuthMiddleware {
    pub user: User,
}

/// The view of an optional request value.
pub open spec fn opt_view(o: Option<&str>) -> Option<Seq<char>> {
    match o {
        Some(s) => Some(s@),
        None => None,
    }
}

pub open spec fn cookie_or_missing(cookie: Option<Seq<char>>) -> Result<Seq<char>, ErrorMessage> {
    match cookie {
        Some(c) => Ok(c),
        None => Err(ErrorMessage::TokenNotProvided),
    }
}

/// The bearer credential a request carries: the rest of an
/// `Authorization: Bearer <token>` header when one is present and well
/// formed, otherwise the cookie-carried token, otherwise `TokenNotProvided`.
pub open spec fn bearer_of(header: Option<Seq<char>>, cookie: Option<Seq<char>>) -> Result<
    Seq<char>,
    ErrorMessage,
> {
    match header {
        Some(h) => if h.len() >= 7 && h.subrange(0, 7) == "Bearer "@ {
            Ok(h.subrange(7, h.len() as int))
        } else {
            cookie_or_missing(cookie)
        },
        None => cookie_or_missing(cookie),
    }
}

fn token_from_cookie(cookie_token: Option<&str>) -> (r: Result<String, ErrorMessage>)
    ensures
        match cookie_or_missing(opt_view(cookie_token)) {
            Ok(t) => r matches Ok(rt) && rt@ == t,
            Err(e) => r == Err::<String, ErrorMessage>(e),
        },
{
    match cookie_token {
        Some(c) => Ok(String::from_str(c)),
        None => Err(ErrorMessage::TokenNotProvided),
    }
}

/// Extracts the bearer credential from a request's authorization header and
/// token cookie, exactly as `bearer_of` describes.
pub fn extract_bearer(auth_header: Option<&str>, cookie_token: Option<&str>) -> (r: Result<
    String,
    ErrorMessage,
>)
    ensures
        match bearer_of(opt_view(auth_header), opt_view(cookie_token)) {
            Ok(t) => r matches Ok(rt) && rt@ == t,
            Err(e) => r == Err::<String, ErrorMessage>(e),
        },
{
    match auth_header {
        Some(h) => {
            let n = h.unicode_len();
            if n >= 7 {
                let prefix = h.substring_char(0, 7);
                if str_eq(prefix, "Bearer ") {
                    return Ok(String::from_str(h.substring_char(7, n)));
                }
            }
            token_from_cookie(cookie_token)
        },
        None => token_from_cookie(cookie_token),
    }
}

/// What authenticating a request's credential yields: the token's subject, or
/// the first failure on the way there.
pub open spec fn authenticate_token_result(
    header: Option<Seq<char>>,
    cookie: Option<Seq<char>>,
    secret: Seq<char>,
    now: int,
) -> Result<Seq<char>, ErrorMessage> {
    match bearer_of(header, cookie) {
        Err(e) => Err(e),
        Ok(t) => verify_token_result(t, secret, now),
    }
}

/// The authentication gate up to token verification: extracts the bearer
/// credential and verifies it, yielding the subject the request authenticates
/// as. It reads the request and the clock only; it mutates nothing.
pub fn authenticate_token(
    auth_header: Option<&str>,
    cookie_token: Option<&str>,
    secret: &str,
    now: i64,
) -> (r: Result<String, ErrorMessage>)
    ensures
        match authenticate_token_result(
            opt_view(auth_header),
            opt_view(cookie_token),
            secret@,
            now as int,
        ) {
            Ok(s) => r matches Ok(rs) && rs@ == s,
            Err(e) => r == Err::<String, ErrorMessage>(e),
        },
{
    let token = match extract_bearer(auth_header, cookie_token) {
        Ok(t) => t,
        Err(e) => {
            return Err(e);
        },
    };
    crate::token::verify(token.as_str(), secret, now)
}

/// Resolves the record the storage collaborator returned for a verified
/// subject into an attached identity; a vanished record is an authentication
/// failure, not a server error.
pub fn resolve_identity(lookup: Option<User>) -> (r: Result<JWTAuthMiddleware, ErrorMessage>)
    ensures
        match lookup {
            Some(u) => r matches Ok(m) && m.user == u,
            None => r == Err::<JWTAuthMiddleware, ErrorMessage>(ErrorMessage::UserNoLongerExists),
        },
{
    match lookup {
        Some(u) => Ok(JWTAuthMiddleware { user: u }),
        None => Err(ErrorMessage::UserNoLongerExists),
    }
}

/// What the whole authentication gate yields once the storage collaborator
/// has answered: the resolved record, or the first failure along
/// extraction, verification and resolution.
pub open spec fn authenticated_identity_result(
    header: Option<Seq<char>>,
    cookie: Option<Seq<char>>,
    secret: Seq<char>,
    now: int,
    lookup: Option<User>,
) -> Result<User, ErrorMessage> {
    match authenticate_token_result(header, cookie, secret, now) {
        Err(e) => Err(e),
        Ok(_subject) => match lookup {
            None => Err(ErrorMessage::UserNoLongerExists),
            Some(u) => Ok(u),
        },
    }
}

fn contains_role(roles: &Vec<UserRole>, role: UserRole) -> (r: bool)
    ensures
        r == roles@.contains(role),
{
    let mut i: usize = 0;
    while i < roles.len()
        invariant
            i <= roles@.len(),
            forall|j: int| 0 <= j < i ==> roles@[j] != role,
        decreases roles@.len() - i,
    {
        if roles[i] == role {
            proof {
                assert(roles@.contains(role)) by {
                    assert(roles@[i as int] == role);
                }
            }
            return true;
        }
        i += 1;
    }
    proof {
        assert(!roles@.contains(role)) by {
            if roles@.contains(role) {
                let j = choose|j: int| 0 <= j < roles@.len() && roles@[j] == role;
                assert(roles@[j] != role);
            }
        }
    }
    false
}

/// What the authorization gate decides for an attached identity and a
/// required role set.
pub open spec fn authorize_result(identity: Option<User>, required: Seq<UserRole>) -> Result<
    User,
    ErrorMessage,
> {
    match identity {
        None => Err(ErrorMessage::UserNotAuthenticated),
        Some(u) => if required.contains(u.role) {
            Ok(u)
        } else {
            Err(ErrorMessage::PermissionDenied)
        },
    }
}

/// The authorization gate: runs after the authentication gate and rejects the
/// request unless the attached identity's role is in the required set,
/// passing the identity through unchanged. A missing identity is a wiring
/// fault and surfaces as `UserNotAuthenticated`.
pub fn role_check(identity: Option<JWTAuthMiddleware>, required_roles: &Vec<UserRole>) -> (r:
    Result<JWTAuthMiddleware, ErrorMessage>)
    ensures
        match authorize_result(
            match identity {
                Some(m) => Some(m.user),
                None => None,
            },
            required_roles@,
        ) {
            Ok(u) => r matches Ok(m) && m.user == u,
            Err(e) => r == Err::<JWTAuthMiddleware, ErrorMessage>(e),
        },
{
    match identity {
        None => Err(ErrorMessage::UserNotAuthenticated),
        Some(m) => {
            if contains_role(required_roles, m.user.role) {
                Ok(m)
            } else {
                Err(ErrorMessage::PermissionDenied)
            }
        },
    }
}

/// What the composed pipeline — authorization wrapped around authentication —
/// decides for a request, once the storage collaborator has answered.
pub open spec fn guard_result(
    header: Option<Seq<char>>,
    cookie: Option<Seq<char>>,
    secret: Seq<char>,
    now: int,
    lookup: Option<User>,
    required: Seq<UserRole>,
) -> Result<User, ErrorMessage> {
    match authenticated_identity_result(header, cookie, secret, now, lookup) {
        Err(e) => Err(e),
        Ok(u) => authorize_result(Some(u), required),
    }
}

/// Law: the authentication gate is idempotent. Two authentications of the
/// same unmodified request, against the same secret, clock reading and
/// storage answer, resolve to the same identity or fail the same way.
pub proof fn lemma_authenticate_idempotent(
    header: Option<Seq<char>>,
    cookie: Option<Seq<char>>,
    secret: Seq<char>,
    now: int,
    lookup: Option<User>,
    r1: Result<User, ErrorMessage>,
    r2: Result<User, ErrorMessage>,
)
    requires
        r1 == authenticated_identity_result(header, cookie, secret, now, lookup),
        r2 == authenticated_identity_result(header, cookie, secret, now, lookup),
    ensures
        r1 == r2,
{
}

/// Law: a request with no credential at all is turned away as
/// `TokenNotProvided` before any other check runs, whatever the secret,
/// the time or the stored records.
pub proof fn lemma_missing_credential_rejected(
    secret: Seq<char>,
    now: int,
    lookup: Option<User>,
    required: Seq<UserRole>,
)
    ensures
        guard_result(None, None, secret, now, lookup, required) == Err::<User, ErrorMessage>(
            ErrorMessage::TokenNotProvided,
        ),
{
}

/// Law: a failed transition terminates the request with that failure: the
/// composed pipeline reports exactly the error of the first stage that
/// refused, whatever the storage would have answered.
pub proof fn lemma_guard_propagates_auth_failure(
    header: Option<Seq<char>>,
    cookie: Option<Seq<char>>,
    secret: Seq<char>,
    now: int,
    lookup: Option<User>,
    required: Seq<UserRole>,
    e: ErrorMessage,
)
    requires
        authenticate_token_result(header, cookie, secret, now) == Err::<Seq<char>, ErrorMessage>(e),
    ensures
        guard_result(header, cookie, secret, now, lookup, required) == Err::<User, ErrorMessage>(e),
{
}

/// Law: a verified token whose subject no longer has a record fails as
/// `UserNoLongerExists`, and a resolved identity whose role is outside the
/// required set fails as `PermissionDenied`.
pub proof fn lemma_guard_stages(
    header: Option<Seq<char>>,
    cookie: Option<Seq<char>>,
    secret: Seq<char>,
    now: int,
    lookup: Option<User>,
    required: Seq<UserRole>,
)
    requires
        authenticate_token_result(header, cookie, secret, now) is Ok,
    ensures
        lookup is None ==> guard_result(header, cookie, secret, now, lookup, required) == Err::<
            User,
            ErrorMessage,
        >(ErrorMessage::UserNoLongerExists),
        lookup matches Some(u) && !required.contains(u.role) ==> guard_result(
            header,
            cookie,
            secret,
            now,
            lookup,
            required,
        ) == Err::<User, ErrorMessage>(ErrorMessage::PermissionDenied),
        lookup matches Some(u) && required.contains(u.role) ==> guard_result(
            header,
            cookie,
            secret,
            now,
            lookup,
            required,
        ) == Ok::<User, ErrorMessage>(lookup->Some_0),
{
}

} // verus!
