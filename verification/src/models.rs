use vstd::prelude::*;

verus! {

/// The closed set of roles a user can hold.
#[derive(Debug, Clone, Copy, PartialEq, Eq, Structural)]
pub enum UserRole {
    Admin,
    User,
}

/// The wire name of each role.
pub open spec fn role_name(r: UserRole) -> Seq<char> {
    match r {
        UserRole::Admin => "admin"@,
        UserRole::User => "user"@,
    }
}

/// The role a wire name stands for, if any.
pub open spec fn role_of_name(s: Seq<char>) -> Option<UserRole> {
    if s == "admin"@ {
        Some(UserRole::Admin)
    } else if s == "user"@ {
        Some(UserRole::User)
    } else {
        None
    }
}

impl UserRole {
    /// Renders the role under its wire name.
    pub fn to_str(&self) -> (r: &'static str)
        ensures
            r@ == role_name(*self),
    {
        match self {
            UserRole::Admin => "admin",
            UserRole::User => "user",
        }
    }
}

/// Compares two strings by their characters.
pub fn str_eq(a: &str, b: &str) -> (r: bool)
    ensures
        r == (a@ == b@),
{
    let sa = String::from_str(a);
    let sb = String::from_str(b);
    sa == sb
}

/// Turns a role name arriving at the boundary into a role, rejecting unknown
/// values instead of defaulting them.
pub fn validate_role(name: &str) -> (r: Option<UserRole>)
    ensures
        r == role_of_name(name@),
{
    if str_eq(name, "admin") {
        Some(UserRole::Admin)
    } else if str_eq(name, "user") {
        Some(UserRole::User)
    } else {
        None
    }
}

/// A stored user record. The credential hash stands in `password`; the
/// timestamps are seconds since the Unix epoch.
#[derive(Debug, Clone)]
pub struct User {
    pub id: String,
    pub name: String,
    pub email: String,
    pub password: String,
    pub verified: bool,
    pub role: UserRole,
    pub created_at: Option<i64>,
    pub updated_at: Option<i64>,
}

} // verus!
