use vstd::prelude::*;
use crate::decimal::dec_digits;
use crate::decimal::usize_to_string;

verus! {

/// Every failure the account core can produce, as one closed enumeration.
#[derive(Debug, PartialEq, Eq, Structural, Clone, Copy)]
pub enum ErrorMessage {
    EmptyPassword,
    ExceededMaxPasswordLength(usize),
    InvalidHashFormat,
    HashingError,
    InvalidToken,
    WrongCredentials,
    EmailExists,
    UserNoLongerExists,
    TokenNotProvided,
    PermissionDenied,
    UserNotAuthenticated,
}

/// The human-readable message for each failure.
pub open spec fn message_of(m: ErrorMessage) -> Seq<char> {
    match m {
        ErrorMessage::EmptyPassword => "Empty password"@,
        ErrorMessage::ExceededMaxPasswordLength(l) => "Exceeded maximum password length: "@
            + dec_digits(l as nat),
        ErrorMessage::InvalidHashFormat => "Invalid password hash format"@,
        ErrorMessage::HashingError => "Invalid hashing format"@,
        ErrorMessage::InvalidToken => "Invalid token"@,
        ErrorMessage::WrongCredentials => "Wrong credentials"@,
        ErrorMessage::EmailExists => "Email already exists"@,
        ErrorMessage::UserNoLongerExists => "User no longer exists"@,
        ErrorMessage::TokenNotProvided => "Token not provided"@,
        ErrorMessage::PermissionDenied => "Permission denied"@,
        ErrorMessage::UserNotAuthenticated => "User not authenticated"@,
    }
}

impl ErrorMessage {
    /// Renders the failure as its message text.
    pub fn to_str(&self) -> (r: String)
        ensures
            r@ == message_of(*self),
    {
        match self {
            ErrorMessage::EmptyPassword => String::from_str("Empty password"),
            ErrorMessage::ExceededMaxPasswordLength(l) => {
                let mut s = String::from_str("Exceeded maximum password length: ");
                let d = usize_to_string(*l);
                s.append(d.as_str());
                s
            },
            ErrorMessage::InvalidHashFormat => String::from_str("Invalid password hash format"),
            ErrorMessage::HashingError => String::from_str("Invalid hashing format"),
            ErrorMessage::InvalidToken => String::from_str("Invalid token"),
            ErrorMessage::WrongCredentials => String::from_str("Wrong credentials"),
            ErrorMessage::EmailExists => String::from_str("Email already exists"),
            ErrorMessage::UserNoLongerExists => String::from_str("User no longer exists"),
            ErrorMessage::TokenNotProvided => String::from_str("Token not provided"),
            ErrorMessage::PermissionDenied => String::from_str("Permission denied"),
            ErrorMessage::UserNotAuthenticated => String::from_str("User not authenticated"),
        }
    }
}

/// The HTTP status each failure renders with: 400 for validation-shaped
/// failures (bad password or credential format), 401 for authentication
/// failures (missing, invalid or orphaned credentials, wrong password),
/// 403 for a role outside the required set, 409 for a duplicate email,
/// 500 for an internal hashing failure.
pub open spec fn http_status_of(m: ErrorMessage) -> u16 {
    match m {
        ErrorMessage::EmptyPassword => 400u16,
        ErrorMessage::ExceededMaxPasswordLength(_) => 400u16,
        ErrorMessage::InvalidHashFormat => 400u16,
        ErrorMessage::HashingError => 500u16,
        ErrorMessage::InvalidToken => 401u16,
        ErrorMessage::WrongCredentials => 401u16,
        ErrorMessage::EmailExists => 409u16,
        ErrorMessage::UserNoLongerExists => 401u16,
        ErrorMessage::TokenNotProvided => 401u16,
        ErrorMessage::PermissionDenied => 403u16,
        ErrorMessage::UserNotAuthenticated => 401u16,
    }
}

impl ErrorMessage {
    /// The HTTP status this failure renders with, exactly as
    /// `http_status_of` assigns it.
    pub fn status_of(&self) -> (r: u16)
        ensures
            r == http_status_of(*self),
    {
        match self {
            ErrorMessage::EmptyPassword => 400,
            ErrorMessage::ExceededMaxPasswordLength(_) => 400,
            ErrorMessage::InvalidHashFormat => 400,
            ErrorMessage::HashingError => 500,
            ErrorMessage::InvalidToken => 401,
            ErrorMessage::WrongCredentials => 401,
            ErrorMessage::EmailExists => 409,
            ErrorMessage::UserNoLongerExists => 401,
            ErrorMessage::TokenNotProvided => 401,
            ErrorMessage::PermissionDenied => 403,
            ErrorMessage::UserNotAuthenticated => 401,
        }
    }
}

/// The body every failure renders to on the wire.
#[derive(Debug, Clone)]
pub struct ErrorResponse {
    pub status: String,
    pub message: String,
}

/// A failure paired with the HTTP status code it renders with.
#[derive(Debug, Clone)]
pub struct HttpError {
    pub message: String,
    pub status: u16,
}

impl HttpError {
    /// A failure paired with exactly the status the taxonomy assigns it.
    pub fn from_message(m: ErrorMessage) -> (r: Self)
        ensures
            r.message@ == message_of(m),
            r.status == http_status_of(m),
    {
        HttpError { message: m.to_str(), status: m.status_of() }
    }

    pub fn new(message: String, status: u16) -> (r: Self)
        ensures
            r.message == message,
            r.status == status,
    {
        HttpError { message, status }
    }

    pub fn server_error(message: String) -> (r: Self)
        ensures
            r.message == message,
            r.status == 500,
    {
        HttpError { message, status: 500 }
    }

    pub fn bad_request(message: String) -> (r: Self)
        ensures
            r.message == message,
            r.status == 400,
    {
        HttpError { message, status: 400 }
    }

    pub fn unique_constraint_violation(message: String) -> (r: Self)
        ensures
            r.message == message,
            r.status == 409,
    {
        HttpError { message, status: 409 }
    }

    pub fn unauthorized(message: String) -> (r: Self)
        ensures
            r.message == message,
            r.status == 401,
    {
        HttpError { message, status: 401 }
    }

    /// The wire rendering of a failure: its status code and a body whose
    /// status field reads "fail" and whose message is the failure's.
    pub fn into_http_response(self) -> (r: (u16, ErrorResponse))
        ensures
            r.0 == self.status,
            r.1.status@ == "fail"@,
            r.1.message == self.message,
    {
        (
            self.status,
            ErrorResponse { status: String::from_str("fail"), message: self.message },
        )
    }
}

} // verus!
