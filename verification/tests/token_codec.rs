use account_service::error::ErrorMessage;
use account_service::token;

#[test]
fn issued_token_verifies_to_subject() {
    let t = token::issue("user-1", "top-secret", 1_000, 3_600).expect("issue failed");
    assert_eq!(token::verify(&t, "top-secret", 1_000), Ok("user-1".to_string()));
}

#[test]
fn issued_token_verifies_up_to_expiry() {
    let t = token::issue("user-1", "top-secret", 1_000, 3_600).expect("issue failed");
    assert_eq!(token::verify(&t, "top-secret", 4_600), Ok("user-1".to_string()));
    assert_eq!(
        token::verify(&t, "top-secret", 4_601),
        Err(ErrorMessage::InvalidToken)
    );
}

#[test]
fn wrong_secret_is_rejected() {
    let t = token::issue("user-1", "top-secret", 1_000, 3_600).expect("issue failed");
    assert_eq!(
        token::verify(&t, "other-secret", 1_000),
        Err(ErrorMessage::InvalidToken)
    );
}

#[test]
fn zero_lifetime_token_expires_at_once() {
    let t = token::issue("user-1", "top-secret", 1_000, 0).expect("issue failed");
    assert_eq!(token::verify(&t, "top-secret", 1_000), Ok("user-1".to_string()));
    assert_eq!(
        token::verify(&t, "top-secret", 1_001),
        Err(ErrorMessage::InvalidToken)
    );
}

#[test]
fn tampered_token_is_rejected() {
    let t = token::issue("user-1", "top-secret", 1_000, 3_600).expect("issue failed");
    let mut tampered = t.clone();
    tampered.push('x');
    assert_eq!(
        token::verify(&tampered, "top-secret", 1_000),
        Err(ErrorMessage::InvalidToken)
    );
    assert_eq!(
        token::verify("not-a-token", "top-secret", 1_000),
        Err(ErrorMessage::InvalidToken)
    );
}

#[test]
fn empty_subject_is_rejected() {
    assert_eq!(
        token::issue("", "top-secret", 1_000, 3_600),
        Err(ErrorMessage::InvalidToken)
    );
}

#[test]
fn clock_based_issue_and_verify_round_trip() {
    let t = token::issue_now("user-7", "top-secret", 600).expect("issue failed");
    assert_eq!(token::verify_now(&t, "top-secret"), Ok("user-7".to_string()));
    assert_eq!(
        token::verify_now(&t, "other-secret"),
        Err(ErrorMessage::InvalidToken)
    );
}
