use vstd::prelude::*;
use crate::dtos::filters;
use crate::dtos::password_update_error;
use crate::dtos::FilterUserDto;
use crate::dtos::RequestQueryDto;
use crate::dtos::Response;
use crate::dtos::UserListResponseDto;
use crate::dtos::UserPasswordUpdateDto;
use crate::dtos::UserResponseDto;
use crate::error::message_of;
use crate::error::ErrorMessage;
use crate::error::HttpError;
use crate::models::User;
use crate::password;
use crate::password::length_error;
use crate::password::password_matches;
use crate::password::phc_parses;
use crate::password::verify_result;

verus! {

/// Wraps a record for a single-user answer, as the profile and update
/// handlers return it.
pub fn user_response(user: &User) -> (r: UserResponseDto)
    requires
        user.created_at is Some,
        user.updated_at is Some,
    ensures
        r.status@ == "success"@,
        filters(r.data, *user),
{
    UserResponseDto {
        status: String::from_str("success"),
        data: FilterUserDto::filter_user(user),
    }
}

/// The page and limit a list request asks for, each defaulting to one.
pub fn page_params(query: &RequestQueryDto) -> (r: (usize, usize))
    ensures
        r.0 == match query.page {
            Some(p) => p,
            None => 1usize,
        },
        r.1 == match query.limit {
            Some(l) => l,
            None => 1usize,
        },
{
    let page = match query.page {
        Some(p) => p,
        None => 1,
    };
    let limit = match query.limit {
        Some(l) => l,
        None => 1,
    };
    (page, limit)
}

/// Wraps a fetched page of records and the total count for the wire.
pub fn users_list_response(users: &Vec<User>, count: i64) -> (r: UserListResponseDto)
    requires
        forall|i: int|
            0 <= i < users@.len() ==> (#[trigger] users@[i]).created_at is Some
                && users@[i].updated_at is Some,
    ensures
        r.status@ == "success"@,
        r.users@.len() == users@.len(),
        forall|i: int| 0 <= i < users@.len() ==> filters(#[trigger] r.users@[i], users@[i]),
        r.results == count,
{
    UserListResponseDto {
        status: String::from_str("success"),
        users: FilterUserDto::filter_users(users),
        results: count,
    }
}

/// The failure a password change stops at before any new hash is computed:
/// its status code and message. None when the old password checked out.
pub open spec fn change_password_error(
    stored: Option<User>,
    new_password: Seq<char>,
    confirm: Seq<char>,
    old_password: Seq<char>,
) -> Option<(int, Seq<char>)> {
    match password_update_error(new_password, confirm, old_password) {
        Some(m) => Some((400int, m)),
        None => match stored {
            None => Some((401int, message_of(ErrorMessage::InvalidToken))),
            Some(u) => match verify_result(old_password, u.password@) {
                Err(e) => Some((400int, message_of(e))),
                Ok(b) => if !b {
                    Some((400int, "old password is incorrect"@))
                } else {
                    None
                },
            },
        },
    }
}

/// The password-update flow up to the storage write: checks the body, the
/// caller's record and the old password, and computes the hash to store for
/// the new password.
///
/// Every failure carries the status it renders with: 400 for a bad body or a
/// wrong old password, 401 for a caller whose record is gone, 500 only when
/// the hashing primitive fails on an accepted new password. On success the
/// returned hash verifies against the new password, so the caller's next
/// login with it succeeds.
pub fn change_password(stored: Option<&User>, body: &UserPasswordUpdateDto) -> (r: Result<
    String,
    HttpError,
>)
    ensures
        match change_password_error(
            match stored {
                Some(u) => Some(*u),
                None => None,
            },
            body.new_password@,
            body.new_password_confirm@,
            body.old_password@,
        ) {
            Some(fail) => r matches Err(e) && e.status as int == fail.0 && e.message@ == fail.1,
            None => match r {
                Ok(h) => crate::password::valid_password(body.new_password@) && phc_parses(h@)
                    && password_matches(body.new_password@, h@),
                Err(e) => e.status == 500 && (match length_error(body.new_password@) {
                    Some(le) => e.message@ == message_of(le),
                    None => e.message@ == message_of(ErrorMessage::HashingError),
                }),
            },
        },
{
    if let Err(m) = body.validate() {
        return Err(HttpError::bad_request(m));
    }
    let user = match stored {
        Some(u) => u,
        None => {
            return Err(HttpError::unauthorized(ErrorMessage::InvalidToken.to_str()));
        },
    };
    let password_match = match password::verify(
        body.old_password.as_str(),
        user.password.as_str(),
    ) {
        Ok(b) => b,
        Err(e) => {
            return Err(HttpError::bad_request(e.to_str()));
        },
    };
    if !password_match {
        return Err(HttpError::bad_request(String::from_str("old password is incorrect")));
    }
    match password::hash(body.new_password.as_str()) {
        Ok(h) => Ok(h),
        Err(e) => Err(HttpError::server_error(e.to_str())),
    }
}

/// Law: a password change whose old password does not match the stored hash —
/// with overwhelming probability, any plaintext other than the one the hash
/// was made from, a fact of the hashing scheme that no contract here states —
/// is refused as a 400 with "old password is incorrect", before any new hash
/// is computed.
pub proof fn lemma_wrong_old_password_rejected(
    stored: User,
    new_password: Seq<char>,
    confirm: Seq<char>,
    old_password: Seq<char>,
)
    requires
        password_update_error(new_password, confirm, old_password) is None,
        old_password.len() <= crate::password::MAX_PASSWORD_LENGTH,
        phc_parses(stored.password@),
        !password_matches(old_password, stored.password@),
    ensures
        change_password_error(Some(stored), new_password, confirm, old_password) == Some(
            (400int, "old password is incorrect"@),
        ),
{
}

/// The wire answer of a completed password update.
pub fn password_update_response() -> (r: Response)
    ensures
        r.status@ == "success"@,
        r.message@ == "Password update successfully"@,
{
    Response {
        status: String::from_str("success"),
        message: String::from_str("Password update successfully"),
    }
}

} // verus!
