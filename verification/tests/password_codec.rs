use account_service::error::ErrorMessage;
use account_service::password;

#[test]
fn hash_then_verify_matches() {
    let h = password::hash("correct horse").expect("hashing failed");
    assert_eq!(password::verify("correct horse", &h), Ok(true));
}

#[test]
fn verify_rejects_other_plaintext() {
    let h = password::hash("correct horse").expect("hashing failed");
    assert_eq!(password::verify("wrong battery", &h), Ok(false));
}

#[test]
fn hash_rejects_empty_password() {
    assert_eq!(password::hash(""), Err(ErrorMessage::EmptyPassword));
}

#[test]
fn hash_rejects_over_long_password() {
    let long = "x".repeat(65);
    assert_eq!(
        password::hash(&long),
        Err(ErrorMessage::ExceededMaxPasswordLength(64))
    );
}

#[test]
fn hash_accepts_max_length_password() {
    let exact = "x".repeat(64);
    let h = password::hash(&exact).expect("hashing failed");
    assert_eq!(password::verify(&exact, &h), Ok(true));
}

#[test]
fn verify_applies_same_length_checks() {
    let h = password::hash("correct horse").expect("hashing failed");
    assert_eq!(password::verify("", &h), Err(ErrorMessage::EmptyPassword));
    let long = "x".repeat(65);
    assert_eq!(
        password::verify(&long, &h),
        Err(ErrorMessage::ExceededMaxPasswordLength(64))
    );
}

#[test]
fn verify_rejects_malformed_stored_hash() {
    assert_eq!(
        password::verify("correct horse", "not a phc string"),
        Err(ErrorMessage::InvalidHashFormat)
    );
}

#[test]
fn two_hashes_of_same_password_are_salted_apart() {
    let h1 = password::hash("correct horse").expect("hashing failed");
    let h2 = password::hash("correct horse").expect("hashing failed");
    assert_ne!(h1, h2);
    assert_eq!(password::verify("correct horse", &h1), Ok(true));
    assert_eq!(password::verify("correct horse", &h2), Ok(true));
}

#[test]
fn error_messages_render_exactly() {
    assert_eq!(ErrorMessage::EmptyPassword.to_str(), "Empty password");
    assert_eq!(
        ErrorMessage::ExceededMaxPasswordLength(64).to_str(),
        "Exceeded maximum password length: 64"
    );
    assert_eq!(
        ErrorMessage::InvalidHashFormat.to_str(),
        "Invalid password hash format"
    );
    assert_eq!(ErrorMessage::InvalidToken.to_str(), "Invalid token");
    assert_eq!(ErrorMessage::TokenNotProvided.to_str(), "Token not provided");
    assert_eq!(
        ErrorMessage::UserNoLongerExists.to_str(),
        "User no longer exists"
    );
    assert_eq!(ErrorMessage::PermissionDenied.to_str(), "Permission denied");
    assert_eq!(
        ErrorMessage::UserNotAuthenticated.to_str(),
        "User not authenticated"
    );
    assert_eq!(ErrorMessage::HashingError.to_str(), "Invalid hashing format");
    assert_eq!(ErrorMessage::WrongCredentials.to_str(), "Wrong credentials");
    assert_eq!(ErrorMessage::EmailExists.to_str(), "Email already exists");
}

#[test]
fn decimal_rendering_is_exact() {
    assert_eq!(
        ErrorMessage::ExceededMaxPasswordLength(0).to_str(),
        "Exceeded maximum password length: 0"
    );
    assert_eq!(
        ErrorMessage::ExceededMaxPasswordLength(10).to_str(),
        "Exceeded maximum password length: 10"
    );
    assert_eq!(
        ErrorMessage::ExceededMaxPasswordLength(987654).to_str(),
        "Exceeded maximum password length: 987654"
    );
}
