use auth_core::credentials::UserRecord;
use auth_core::entity::AuthResponse;
use auth_core::entity::User;
use auth_core::error::AuthError;

#[test]
fn a_profile_shows_the_identifier_and_the_address() {
    let record = UserRecord {
        id: 42,
        email: "alice@example.com".to_string(),
        password_hash: "secret hash".to_string(),
        email_verified: true,
        name: Some("Alice".to_string()),
        created_at: 5,
    };
    let user = User::from_record(&record);
    assert_eq!(user, User { id: "42".to_string(), email: "alice@example.com".to_string() });
}

#[test]
fn a_granted_answer_carries_the_account_and_the_session() {
    let response = AuthResponse::grant("Login successful", 1905, "token".to_string());
    assert_eq!(
        response,
        AuthResponse {
            success: true,
            message: "Login successful".to_string(),
            user_id: Some("1905".to_string()),
            session_token: Some("token".to_string()),
        }
    );
}

#[test]
fn a_refused_answer_carries_the_message_only() {
    let response = AuthResponse::refuse(AuthError::InvalidCredentials);
    assert_eq!(
        response,
        AuthResponse {
            success: false,
            message: "Invalid credentials".to_string(),
            user_id: None,
            session_token: None,
        }
    );
    assert_eq!(AuthResponse::refuse(AuthError::Unauthorized).message, "Unauthorized");
}
