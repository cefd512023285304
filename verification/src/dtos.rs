use vstd::prelude::*;
use vstd::string::StrSliceExecFns;
use crate::models::role_name;
use crate::models::str_eq;
use crate::models::User;
use crate::models::UserRole;

verus! {

/// Names the outcome of validator's `ValidateEmail::validate_email` for a
/// string: the HTML5 email-shape check, a function of the characters alone.
pub uninterp spec fn is_valid_email(s: Seq<char>) -> bool;

/// Relies on validator's `ValidateEmail::validate_email` for `&str`.
#[verifier::external_body]
fn email_shape_ok(s: &str) -> (r: bool)
    ensures
        r == is_valid_email(s@),
{
    validator::ValidateEmail::validate_email(&s)
}

fn char_len(s: &String) -> (r: usize)
    ensures
        r == s@.len(),
{
    s.as_str().unicode_len()
}

/// What arrives with a registration request.
#[derive(Debug, Clone)]
pub struct RegisterUserDto {
    pub name: String,
    pub email: String,
    pub password: String,
    pub password_confirm: String,
}

/// The first field-validation failure of a registration body, if any.
pub open spec fn register_error(
    name: Seq<char>,
    email: Seq<char>,
    password: Seq<char>,
    confirm: Seq<char>,
) -> Option<Seq<char>> {
    if name.len() == 0 {
        Some("Name is required"@)
    } else if email.len() == 0 {
        Some("Email is required"@)
    } else if !is_valid_email(email) {
        Some("Email is invalid"@)
    } else if password.len() == 0 {
        Some("Password is required"@)
    } else if password.len() < 6 {
        Some("Password must be more than 6 characters"@)
    } else if confirm.len() == 0 {
        Some("Confirm password is required"@)
    } else if confirm != password {
        Some("password do not match"@)
    } else {
        None
    }
}

impl RegisterUserDto {
    /// Checks the body's fields and returns the first failure's message.
    pub fn validate(&self) -> (r: Result<(), String>)
        ensures
            match register_error(self.name@, self.email@, self.password@, self.password_confirm@) {
                Some(m) => r matches Err(rm) && rm@ == m,
                None => r is Ok,
            },
    {
        if char_len(&self.name) == 0 {
            return Err(String::from_str("Name is required"));
        }
        if char_len(&self.email) == 0 {
            return Err(String::from_str("Email is required"));
        }
        if !email_shape_ok(self.email.as_str()) {
            return Err(String::from_str("Email is invalid"));
        }
        let plen = char_len(&self.password);
        if plen == 0 {
            return Err(String::from_str("Password is required"));
        }
        if plen < 6 {
            return Err(String::from_str("Password must be more than 6 characters"));
        }
        if char_len(&self.password_confirm) == 0 {
            return Err(String::from_str("Confirm password is required"));
        }
        if !str_eq(self.password_confirm.as_str(), self.password.as_str()) {
            return Err(String::from_str("password do not match"));
        }
        Ok(())
    }
}

/// What arrives with a login request.
#[derive(Debug, Clone)]
pub struct LoginUserDto {
    pub email: String,
    pub password: String,
}

/// The first field-validation failure of a login body, if any.
pub open spec fn login_error(email: Seq<char>, password: Seq<char>) -> Option<Seq<char>> {
    if email.len() == 0 {
        Some("Email is required"@)
    } else if !is_valid_email(email) {
        Some("Email is invalid"@)
    } else if password.len() == 0 {
        Some("Password is required"@)
    } else if password.len() < 6 {
        Some("Password must be more than 6 characters"@)
    } else {
        None
    }
}

impl LoginUserDto {
    /// Checks the body's fields and returns the first failure's message.
    pub fn validate(&self) -> (r: Result<(), String>)
        ensures
            match login_error(self.email@, self.password@) {
                Some(m) => r matches Err(rm) && rm@ == m,
                None => r is Ok,
            },
    {
        if char_len(&self.email) == 0 {
            return Err(String::from_str("Email is required"));
        }
        if !email_shape_ok(self.email.as_str()) {
            return Err(String::from_str("Email is invalid"));
        }
        let plen = char_len(&self.password);
        if plen == 0 {
            return Err(String::from_str("Password is required"));
        }
        if plen < 6 {
            return Err(String::from_str("Password must be more than 6 characters"));
        }
        Ok(())
    }
}

/// Pagination parameters of a list request.
#[derive(Debug, Clone)]
pub struct RequestQueryDto {
    pub page: Option<usize>,
    pub limit: Option<usize>,
}

/// The first range failure of a list request, if any: both bounds, when
/// given, must be at least one.
pub open spec fn query_error(page: Option<usize>, limit: Option<usize>) -> Option<Seq<char>> {
    if page matches Some(p) && p < 1 {
        Some("page must be at least 1"@)
    } else if limit matches Some(l) && l < 1 {
        Some("limit must be at least 1"@)
    } else {
        None
    }
}

impl RequestQueryDto {
    /// Checks the query's ranges and returns the first failure's message.
    pub fn validate(&self) -> (r: Result<(), String>)
        ensures
            match query_error(self.page, self.limit) {
                Some(m) => r matches Err(rm) && rm@ == m,
                None => r is Ok,
            },
    {
        if let Some(p) = self.page {
            if p < 1 {
                return Err(String::from_str("page must be at least 1"));
            }
        }
        if let Some(l) = self.limit {
            if l < 1 {
                return Err(String::from_str("limit must be at least 1"));
            }
        }
        Ok(())
    }
}

/// A user record as it leaves the service: the credential hash filtered out,
/// the role under its wire name, timestamps in seconds since the Unix epoch.
#[derive(Debug, Clone)]
pub struct FilterUserDto {
    pub id: String,
    pub name: String,
    pub email: String,
    pub role: String,
    pub verified: bool,
    pub created_at: i64,
    pub updated_at: i64,
}

/// How a filtered record relates to the stored one.
pub open spec fn filters(f: FilterUserDto, u: User) -> bool {
    &&& f.id == u.id
    &&& f.name == u.name
    &&& f.email == u.email
    &&& f.role@ == role_name(u.role)
    &&& f.verified == u.verified
    &&& u.created_at matches Some(c) && f.created_at == c
    &&& u.updated_at matches Some(c) && f.updated_at == c
}

impl FilterUserDto {
    /// Projects a stored record to its outward form.
    pub fn filter_user(user: &User) -> (r: FilterUserDto)
        requires
            user.created_at is Some,
            user.updated_at is Some,
        ensures
            filters(r, *user),
    {
        let created_at = match user.created_at {
            Some(c) => c,
            None => 0,
        };
        let updated_at = match user.updated_at {
            Some(c) => c,
            None => 0,
        };
        FilterUserDto {
            id: user.id.clone(),
            name: user.name.clone(),
            email: user.email.clone(),
            role: String::from_str(user.role.to_str()),
            verified: user.verified,
            created_at,
            updated_at,
        }
    }

    /// Projects a slice of stored records, in order.
    pub fn filter_users(user: &Vec<User>) -> (r: Vec<FilterUserDto>)
        requires
            forall|i: int|
                0 <= i < user@.len() ==> (#[trigger] user@[i]).created_at is Some
                    && user@[i].updated_at is Some,
        ensures
            r@.len() == user@.len(),
            forall|i: int| 0 <= i < user@.len() ==> filters(#[trigger] r@[i], user@[i]),
    {
        let mut out: Vec<FilterUserDto> = Vec::new();
        let mut i: usize = 0;
        while i < user.len()
            invariant
                i <= user@.len(),
                out@.len() == i,
                forall|j: int|
                    0 <= j < user@.len() ==> (#[trigger] user@[j]).created_at is Some
                        && user@[j].updated_at is Some,
                forall|j: int| 0 <= j < i ==> filters(#[trigger] out@[j], user@[j]),
            decreases user@.len() - i,
        {
            out.push(FilterUserDto::filter_user(&user[i]));
            i += 1;
        }
        out
    }
}

/// A single outward record, wrapped for the wire.
#[derive(Debug, Clone)]
pub struct UserData {
    pub user: FilterUserDto,
}

/// The wire shape of a single-user answer.
#[derive(Debug, Clone)]
pub struct UserResponseDto {
    pub status: String,
    pub data: FilterUserDto,
}

/// The wire shape of a user-list answer.
#[derive(Debug, Clone)]
pub struct UserListResponseDto {
    pub status: String,
    pub users: Vec<FilterUserDto>,
    pub results: i64,
}

/// The wire shape of a successful login: the issued token.
#[derive(Debug, Clone)]
pub struct UserLoginResponseDto {
    pub status: String,
    pub token: String,
}

/// The wire shape of a plain status-and-message answer.
#[derive(Debug, Clone)]
pub struct Response {
    pub status: String,
    pub message: String,
}

/// A name change.
#[derive(Debug, Clone)]
pub struct NameUpdateDto {
    pub name: String,
}

impl NameUpdateDto {
    /// Checks that a name was given.
    pub fn validate(&self) -> (r: Result<(), String>)
        ensures
            self.name@.len() == 0 ==> (r matches Err(m) && m@ == "Name is required"@),
            self.name@.len() > 0 ==> r is Ok,
    {
        if char_len(&self.name) == 0 {
            return Err(String::from_str("Name is required"));
        }
        Ok(())
    }
}

/// A role change. The role arrives already parsed, so every value of the
/// closed enumeration is acceptable.
#[derive(Debug, Clone, Copy)]
pub struct RoleUpdateDto {
    pub role: UserRole,
}

impl RoleUpdateDto {
    /// The closed role set leaves nothing further to check.
    pub fn validate(&self) -> (r: Result<(), String>)
        ensures
            r is Ok,
    {
        Ok(())
    }
}

/// A password change: the new plaintext twice, and the old one.
#[derive(Debug, Clone)]
pub struct UserPasswordUpdateDto {
    pub new_password: String,
    pub new_password_confirm: String,
    pub old_password: String,
}

/// The first field-validation failure of a password change, if any.
pub open spec fn password_update_error(
    new_password: Seq<char>,
    confirm: Seq<char>,
    old_password: Seq<char>,
) -> Option<Seq<char>> {
    if new_password.len() == 0 {
        Some("Password is required"@)
    } else if new_password.len() < 6 {
        Some("Password must be more than 6 characters"@)
    } else if confirm.len() == 0 {
        Some("Password is required"@)
    } else if confirm.len() < 6 {
        Some("Password must be more than 6 characters"@)
    } else if confirm != new_password {
        Some("Password do not match"@)
    } else if old_password.len() == 0 {
        Some("Password is required"@)
    } else if old_password.len() < 6 {
        Some("Password must be more than 6 characters"@)
    } else {
        None
    }
}

impl UserPasswordUpdateDto {
    /// Checks the body's fields and returns the first failure's message.
    pub fn validate(&self) -> (r: Result<(), String>)
        ensures
            match password_update_error(
                self.new_password@,
                self.new_password_confirm@,
                self.old_password@,
            ) {
                Some(m) => r matches Err(rm) && rm@ == m,
                None => r is Ok,
            },
    {
        let nlen = char_len(&self.new_password);
        if nlen == 0 {
            return Err(String::from_str("Password is required"));
        }
        if nlen < 6 {
            return Err(String::from_str("Password must be more than 6 characters"));
        }
        let clen = char_len(&self.new_password_confirm);
        if clen == 0 {
            return Err(String::from_str("Password is required"));
        }
        if clen < 6 {
            return Err(String::from_str("Password must be more than 6 characters"));
        }
        if !str_eq(self.new_password_confirm.as_str(), self.new_password.as_str()) {
            return Err(String::from_str("Password do not match"));
        }
        let olen = char_len(&self.old_password);
        if olen == 0 {
            return Err(String::from_str("Password is required"));
        }
        if olen < 6 {
            return Err(String::from_str("Password must be more than 6 characters"));
        }
        Ok(())
    }
}

/// The token carried by an email-verification link.
#[derive(Debug, Clone)]
pub struct VerifyEmailQueryDto {
    pub token: String,
}

impl VerifyEmailQueryDto {
    /// Checks that a token was given.
    pub fn validate(&self) -> (r: Result<(), String>)
        ensures
            self.token@.len() == 0 ==> (r matches Err(m) && m@ == "Token is required"@),
            self.token@.len() > 0 ==> r is Ok,
    {
        if char_len(&self.token) == 0 {
            return Err(String::from_str("Token is required"));
        }
        Ok(())
    }
}

/// A forgotten-password request.
#[derive(Debug, Clone)]
pub struct ForgotPasswordRequestDto {
    pub email: String,
}

impl ForgotPasswordRequestDto {
    /// Checks the email field and returns the first failure's message.
    pub fn validate(&self) -> (r: Result<(), String>)
        ensures
            self.email@.len() == 0 ==> (r matches Err(m) && m@ == "Email is required"@),
            self.email@.len() > 0 && !is_valid_email(self.email@) ==> (r matches Err(m) && m@
                == "Email is invalid"@),
            self.email@.len() > 0 && is_valid_email(self.email@) ==> r is Ok,
    {
        if char_len(&self.email) == 0 {
            return Err(String::from_str("Email is required"));
        }
        if !email_shape_ok(self.email.as_str()) {
            return Err(String::from_str("Email is invalid"));
        }
        Ok(())
    }
}

/// A password reset carrying the emailed token and the new plaintext twice.
#[derive(Debug, Clone)]
pub struct ResetPasswordRequestDto {
    pub token: String,
    pub new_password: String,
    pub new_password_confirm: String,
}

/// The first field-validation failure of a password reset, if any.
pub open spec fn reset_error(
    token: Seq<char>,
    new_password: Seq<char>,
    confirm: Seq<char>,
) -> Option<Seq<char>> {
    if token.len() == 0 {
        Some("Token is required"@)
    } else if new_password.len() == 0 {
        Some("Password is required"@)
    } else if new_password.len() < 6 {
        Some("Password must be more than 6 characters"@)
    } else if confirm.len() == 0 {
        Some("Password is required"@)
    } else if confirm.len() < 6 {
        Some("Password must be more than 6 characters"@)
    } else if confirm != new_password {
        Some("Password do not match"@)
    } else {
        None
    }
}

impl ResetPasswordRequestDto {
    /// Checks the body's fields and returns the first failure's message.
    pub fn validate(&self) -> (r: Result<(), String>)
        ensures
            match reset_error(self.token@, self.new_password@, self.new_password_confirm@) {
                Some(m) => r matches Err(rm) && rm@ == m,
                None => r is Ok,
            },
    {
        if char_len(&self.token) == 0 {
            return Err(String::from_str("Token is required"));
        }
        let nlen = char_len(&self.new_password);
        if nlen == 0 {
            return Err(String::from_str("Password is required"));
        }
        if nlen < 6 {
            return Err(String::from_str("Password must be more than 6 characters"));
        }
        let clen = char_len(&self.new_password_confirm);
        if clen == 0 {
            return Err(String::from_str("Password is required"));
        }
        if clen < 6 {
            return Err(String::from_str("Password must be more than 6 characters"));
        }
        if !str_eq(self.new_password_confirm.as_str(), self.new_password.as_str()) {
            return Err(String::from_str("Password do not match"));
        }
        Ok(())
    }
}

} // verus!
