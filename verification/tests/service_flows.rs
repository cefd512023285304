use account_service::config::Config;
use account_service::dtos::{
    LoginUserDto, NameUpdateDto, RegisterUserDto, RequestQueryDto, UserPasswordUpdateDto,
};
use account_service::error::{ErrorMessage, HttpError};
use account_service::models::{User, UserRole};
use account_service::password;
use account_service::service;

fn stored_user(password_hash: String) -> User {
    User {
        id: "11111111-2222-3333-4444-555555555555".to_string(),
        name: "Alice Example".to_string(),
        email: "alice@example.com".to_string(),
        password: password_hash,
        verified: true,
        role: UserRole::User,
        created_at: Some(1_700_000_000),
        updated_at: Some(1_700_000_001),
    }
}

fn update_body(new: &str, confirm: &str, old: &str) -> UserPasswordUpdateDto {
    UserPasswordUpdateDto {
        new_password: new.to_string(),
        new_password_confirm: confirm.to_string(),
        old_password: old.to_string(),
    }
}

#[test]
fn password_update_flow_rotates_the_credential() {
    let old_hash = password::hash("oldpass1").expect("hashing failed");
    let user = stored_user(old_hash);
    let body = update_body("newpass1", "newpass1", "oldpass1");
    let new_hash = service::change_password(Some(&user), &body).expect("update refused");
    assert_eq!(password::verify("newpass1", &new_hash), Ok(true));
    assert_eq!(password::verify("oldpass1", &new_hash), Ok(false));
}

#[test]
fn password_update_rejects_wrong_old_password() {
    let old_hash = password::hash("oldpass1").expect("hashing failed");
    let user = stored_user(old_hash);
    let body = update_body("newpass1", "newpass1", "wrongold1");
    let e = service::change_password(Some(&user), &body).expect_err("update accepted");
    assert_eq!(e.status, 400);
    assert_eq!(e.message, "old password is incorrect");
}

#[test]
fn password_update_rejects_mismatched_confirmation() {
    let old_hash = password::hash("oldpass1").expect("hashing failed");
    let user = stored_user(old_hash);
    let body = update_body("newpass1", "newpass2", "oldpass1");
    let e = service::change_password(Some(&user), &body).expect_err("update accepted");
    assert_eq!(e.status, 400);
    assert_eq!(e.message, "Password do not match");
}

#[test]
fn password_update_without_a_record_is_unauthorized() {
    let body = update_body("newpass1", "newpass1", "oldpass1");
    let e = service::change_password(None, &body).expect_err("update accepted");
    assert_eq!(e.status, 401);
    assert_eq!(e.message, "Invalid token");
}

#[test]
fn password_update_success_body_is_exact() {
    let r = service::password_update_response();
    assert_eq!(r.status, "success");
    assert_eq!(r.message, "Password update successfully");
}

#[test]
fn http_error_renders_fail_body() {
    let e = HttpError::unauthorized(ErrorMessage::TokenNotProvided.to_str());
    assert_eq!(e.status, 401);
    let (status, body) = e.into_http_response();
    assert_eq!(status, 401);
    assert_eq!(body.status, "fail");
    assert_eq!(body.message, "Token not provided");
    assert_eq!(HttpError::bad_request("x".to_string()).status, 400);
    assert_eq!(HttpError::server_error("x".to_string()).status, 500);
    assert_eq!(HttpError::unique_constraint_violation("x".to_string()).status, 409);
    assert_eq!(HttpError::new("x".to_string(), 403).status, 403);
}

#[test]
fn every_failure_maps_to_exactly_one_status() {
    assert_eq!(ErrorMessage::EmptyPassword.status_of(), 400);
    assert_eq!(ErrorMessage::ExceededMaxPasswordLength(64).status_of(), 400);
    assert_eq!(ErrorMessage::InvalidHashFormat.status_of(), 400);
    assert_eq!(ErrorMessage::HashingError.status_of(), 500);
    assert_eq!(ErrorMessage::InvalidToken.status_of(), 401);
    assert_eq!(ErrorMessage::WrongCredentials.status_of(), 401);
    assert_eq!(ErrorMessage::EmailExists.status_of(), 409);
    assert_eq!(ErrorMessage::UserNoLongerExists.status_of(), 401);
    assert_eq!(ErrorMessage::TokenNotProvided.status_of(), 401);
    assert_eq!(ErrorMessage::PermissionDenied.status_of(), 403);
    assert_eq!(ErrorMessage::UserNotAuthenticated.status_of(), 401);
}

#[test]
fn gate_failures_render_with_their_assigned_status() {
    let denied = HttpError::from_message(ErrorMessage::PermissionDenied);
    assert_eq!(denied.status, 403);
    assert_eq!(denied.message, "Permission denied");
    let missing = HttpError::from_message(ErrorMessage::TokenNotProvided);
    assert_eq!(missing.status, 401);
    assert_eq!(missing.message, "Token not provided");
    let wrong = HttpError::from_message(ErrorMessage::WrongCredentials);
    assert_eq!(wrong.status, 401);
    assert_eq!(wrong.message, "Wrong credentials");
}

#[test]
fn register_validation_reports_first_failure() {
    let mut dto = RegisterUserDto {
        name: "".to_string(),
        email: "alice@example.com".to_string(),
        password: "secret1".to_string(),
        password_confirm: "secret1".to_string(),
    };
    assert_eq!(dto.validate(), Err("Name is required".to_string()));
    dto.name = "Alice".to_string();
    dto.email = "not-an-email".to_string();
    assert_eq!(dto.validate(), Err("Email is invalid".to_string()));
    dto.email = "".to_string();
    assert_eq!(dto.validate(), Err("Email is required".to_string()));
    dto.email = "alice@example.com".to_string();
    dto.password = "short".to_string();
    assert_eq!(dto.validate(), Err("Password must be more than 6 characters".to_string()));
    dto.password = "secret1".to_string();
    dto.password_confirm = "secret2".to_string();
    assert_eq!(dto.validate(), Err("password do not match".to_string()));
    dto.password_confirm = "secret1".to_string();
    assert_eq!(dto.validate(), Ok(()));
}

#[test]
fn login_validation_reports_first_failure() {
    let dto = LoginUserDto { email: "alice@example.com".to_string(), password: "secret1".to_string() };
    assert_eq!(dto.validate(), Ok(()));
    let bad = LoginUserDto { email: "not-an-email".to_string(), password: "secret1".to_string() };
    assert_eq!(bad.validate(), Err("Email is invalid".to_string()));
    let short = LoginUserDto { email: "alice@example.com".to_string(), password: "abc".to_string() };
    assert_eq!(short.validate(), Err("Password must be more than 6 characters".to_string()));
}

#[test]
fn name_update_requires_a_name() {
    assert_eq!(NameUpdateDto { name: "".to_string() }.validate(), Err("Name is required".to_string()));
    assert_eq!(NameUpdateDto { name: "Bob".to_string() }.validate(), Ok(()));
}

#[test]
fn query_validation_and_defaults() {
    let q = RequestQueryDto { page: Some(0), limit: Some(10) };
    assert_eq!(q.validate(), Err("page must be at least 1".to_string()));
    let q = RequestQueryDto { page: None, limit: Some(0) };
    assert_eq!(q.validate(), Err("limit must be at least 1".to_string()));
    let q = RequestQueryDto { page: None, limit: None };
    assert_eq!(q.validate(), Ok(()));
    assert_eq!(service::page_params(&q), (1, 1));
    let q = RequestQueryDto { page: Some(3), limit: Some(25) };
    assert_eq!(service::page_params(&q), (3, 25));
}

#[test]
fn filtered_records_drop_the_credential_hash() {
    let old_hash = password::hash("oldpass1").expect("hashing failed");
    let user = stored_user(old_hash);
    let r = service::user_response(&user);
    assert_eq!(r.status, "success");
    assert_eq!(r.data.id, user.id);
    assert_eq!(r.data.role, "user");
    assert_eq!(r.data.created_at, 1_700_000_000);
    assert_eq!(r.data.updated_at, 1_700_000_001);
    let list = service::users_list_response(&vec![user.clone()], 1);
    assert_eq!(list.status, "success");
    assert_eq!(list.results, 1);
    assert_eq!(list.users.len(), 1);
    assert_eq!(list.users[0].email, user.email);
}

#[test]
fn config_holds_startup_values() {
    let c = Config::new("postgres://db".to_string(), "top-secret".to_string(), 60);
    assert_eq!(c.database_url, "postgres://db");
    assert_eq!(c.jwt_secret, "top-secret");
    assert_eq!(c.jwt_maxage, 60);
    assert_eq!(c.port, 8081);
}
