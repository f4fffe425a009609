use auth_core::classifier::AuthSource;
use auth_core::entity::AuthRequest;
use auth_core::error::AuthError;
use auth_core::mail::MailKind;
use auth_core::service::AuthConfig;
use auth_core::service::AuthService;
use auth_core::token::TokenPurpose;

fn service() -> AuthService {
    AuthService::new(AuthConfig { session_window: 10, reset_ttl: 900, magic_link_ttl: 600 })
}

fn last_token(service: &mut AuthService) -> String {
    let mails = service.take_mail();
    mails.last().unwrap().token.clone().unwrap()
}

#[test]
fn a_new_service_is_empty() {
    let mut service = service();
    assert!(service.check_room());
    assert_eq!(service.users().len(), 0);
    assert_eq!(service.sessions().len(), 0);
    assert_eq!(service.sessions().window(), 10);
    assert_eq!(
        service.config(),
        AuthConfig { session_window: 10, reset_ttl: 900, magic_link_ttl: 600 }
    );
    assert!(service.take_mail().is_empty());
}

#[test]
fn register_then_login_gives_a_usable_session() {
    let mut service = service();
    let (user, first) = service.register("alice@example.com", "Secret123!", 100).unwrap();
    assert_eq!(user.id, 0);
    assert_eq!(user.email, "alice@example.com");
    assert_eq!(first.len(), 80);
    let second = service.login("alice@example.com", "Secret123!", 101).unwrap();
    assert_ne!(first, second);
    let context = service.authenticate(None, Some(&second), 110);
    assert_eq!(context.source, AuthSource::Cookie);
    assert_eq!(context.user.unwrap().id, 0);
    let header = format!("Bearer {first}");
    let context = service.authenticate(Some(&header), None, 109);
    assert_eq!(context.source, AuthSource::Bearer);
    assert_eq!(context.user.unwrap().email, "alice@example.com");
}

#[test]
fn register_queues_the_welcome_message() {
    let mut service = service();
    service.register("alice@example.com", "Secret123!", 100).unwrap();
    let mails = service.take_mail();
    assert_eq!(mails.len(), 1);
    assert_eq!(mails[0].to, "alice@example.com");
    assert_eq!(mails[0].kind, MailKind::Welcome);
    assert_eq!(mails[0].token, None);
    assert!(service.take_mail().is_empty());
}

#[test]
fn register_refuses_weak_passwords_and_taken_addresses() {
    let mut service = service();
    assert_eq!(
        service.register("alice@example.com", "short", 100).unwrap_err(),
        AuthError::WeakPassword
    );
    service.register("alice@example.com", "Secret123!", 100).unwrap();
    assert_eq!(
        service.register("ALICE@EXAMPLE.COM", "Secret123!", 101).unwrap_err(),
        AuthError::DuplicateEmail
    );
    assert_eq!(service.users().len(), 1);
    assert_eq!(service.sessions().len(), 1);
    assert_eq!(service.take_mail().len(), 1);
}

#[test]
fn login_fails_alike_for_a_wrong_password_and_an_unknown_address() {
    let mut service = service();
    service.register("alice@example.com", "Secret123!", 100).unwrap();
    let wrong = service.login("alice@example.com", "Secret123", 101).unwrap_err();
    let unknown = service.login("mallory@example.com", "Secret123!", 101).unwrap_err();
    assert_eq!(wrong, AuthError::InvalidCredentials);
    assert_eq!(unknown, wrong);
    assert_eq!(service.sessions().len(), 1);
}

#[test]
fn login_accepts_the_address_in_another_case() {
    let mut service = service();
    service.register("alice@example.com", "Secret123!", 100).unwrap();
    assert!(service.login("Alice@Example.Com", "Secret123!", 101).is_ok());
    assert_eq!(
        service.login("alice@example.com", "secret123!", 101).unwrap_err(),
        AuthError::InvalidCredentials
    );
}

#[test]
fn a_session_expires_after_its_window_and_slides_when_used() {
    let mut service = service();
    let (_, id) = service.register("alice@example.com", "Secret123!", 100).unwrap();
    assert_eq!(service.authenticate(None, Some(&id), 109).source, AuthSource::Cookie);
    assert_eq!(service.authenticate(None, Some(&id), 118).source, AuthSource::Cookie);
    assert_eq!(service.authenticate(None, Some(&id), 128).source, AuthSource::Anonymous);
    assert_eq!(service.authenticate(None, Some(&id), 129).source, AuthSource::Anonymous);
    assert_eq!(service.sessions().status(&id, 128), Err(AuthError::SessionExpired));
}

#[test]
fn logout_ends_the_session() {
    let mut service = service();
    let (_, id) = service.register("alice@example.com", "Secret123!", 100).unwrap();
    service.logout(&id);
    assert_eq!(service.authenticate(None, Some(&id), 101).source, AuthSource::Anonymous);
    assert_eq!(service.sessions().status(&id, 101), Err(AuthError::SessionNotFound));
    service.logout(&id);
    service.logout("unknown");
    assert_eq!(service.sessions().len(), 0);
}

#[test]
fn the_bearer_token_wins_over_a_different_cookie() {
    let mut service = service();
    let (_, of_alice) = service.register("alice@example.com", "Secret123!", 100).unwrap();
    let (_, of_bob) = service.register("bob@example.com", "Secret456!", 100).unwrap();
    let header = format!("Bearer {of_bob}");
    let context = service.authenticate(Some(&header), Some(&of_alice), 101);
    assert_eq!(context.source, AuthSource::Bearer);
    assert_eq!(context.user.unwrap().email, "bob@example.com");
    let header = format!("Bearer {of_alice}");
    let context = service.authenticate(Some(&header), Some(&of_bob), 102);
    assert_eq!(context.source, AuthSource::Bearer);
    assert_eq!(context.user.unwrap().email, "alice@example.com");
}

#[test]
fn change_password_verifies_the_old_password_again() {
    let mut service = service();
    let (user, _) = service.register("alice@example.com", "Secret123!", 100).unwrap();
    service.take_mail();
    assert_eq!(
        service.change_password(user.id, "wrong", "NewSecret456!"),
        Err(AuthError::InvalidCredentials)
    );
    assert!(service.take_mail().is_empty());
    assert!(service.login("alice@example.com", "Secret123!", 101).is_ok());
    assert_eq!(service.change_password(user.id, "Secret123!", "NewSecret456!"), Ok(()));
    assert_eq!(
        service.login("alice@example.com", "Secret123!", 102).unwrap_err(),
        AuthError::InvalidCredentials
    );
    assert!(service.login("alice@example.com", "NewSecret456!", 102).is_ok());
    let mails = service.take_mail();
    assert_eq!(mails.len(), 1);
    assert_eq!(mails[0].to, "alice@example.com");
    assert_eq!(mails[0].kind, MailKind::PasswordChanged);
    assert_eq!(
        service.change_password(7, "Secret123!", "NewSecret456!"),
        Err(AuthError::UserNotFound)
    );
}

#[test]
fn a_password_reset_for_an_unknown_address_does_nothing() {
    let mut service = service();
    service.register("alice@example.com", "Secret123!", 100).unwrap();
    service.take_mail();
    service.request_password_reset("nobody@example.com", 101);
    assert!(service.take_mail().is_empty());
    assert!(service.check_room());
}

#[test]
fn a_password_reset_mails_a_token_to_the_registered_address() {
    let mut service = service();
    service.register("Alice@example.com", "Secret123!", 100).unwrap();
    service.take_mail();
    service.request_password_reset("alice@EXAMPLE.com", 101);
    let mails = service.take_mail();
    assert_eq!(mails.len(), 1);
    assert_eq!(mails[0].to, "Alice@example.com");
    assert_eq!(mails[0].kind, MailKind::PasswordReset);
    let token = mails[0].token.clone().unwrap();
    assert_eq!(token.len(), 80);
    assert!(token.ends_with("0000000000000000"));
    assert_eq!(service.tokens().verify(&token, TokenPurpose::PasswordReset, 101), Ok(0));
    assert!(service.verify_reset_token(&token, 101));
    assert!(service.verify_reset_token(&token, 1_000));
    assert!(!service.verify_reset_token(&token, 1_001));
}

#[test]
fn verifying_a_reset_token_does_not_use_it_up() {
    let mut service = service();
    service.register("alice@example.com", "Secret123!", 100).unwrap();
    service.request_password_reset("alice@example.com", 101);
    let token = last_token(&mut service);
    for now in 101..121 {
        assert!(service.verify_reset_token(&token, now));
    }
    assert_eq!(service.confirm_password_reset(&token, "NewSecret456!", 121), Ok(()));
    assert!(!service.verify_reset_token(&token, 122));
}

#[test]
fn a_reset_token_confirms_one_reset() {
    let mut service = service();
    service.register("alice@example.com", "Secret123!", 100).unwrap();
    service.request_password_reset("alice@example.com", 101);
    let token = last_token(&mut service);
    assert_eq!(service.confirm_password_reset(&token, "NewSecret456!", 102), Ok(()));
    assert_eq!(
        service.confirm_password_reset(&token, "Another789!", 103),
        Err(AuthError::TokenAlreadyConsumed)
    );
    assert!(service.login("alice@example.com", "NewSecret456!", 104).is_ok());
    assert_eq!(
        service.login("alice@example.com", "Another789!", 104).unwrap_err(),
        AuthError::InvalidCredentials
    );
    let mails = service.take_mail();
    assert_eq!(mails.len(), 1);
    assert_eq!(mails[0].kind, MailKind::PasswordChanged);
    assert_eq!(mails[0].to, "alice@example.com");
}

#[test]
fn a_reset_fails_for_an_expired_or_unknown_token() {
    let mut service = service();
    service.register("alice@example.com", "Secret123!", 100).unwrap();
    service.request_password_reset("alice@example.com", 101);
    let token = last_token(&mut service);
    assert_eq!(
        service.confirm_password_reset("nonsense", "NewSecret456!", 102),
        Err(AuthError::TokenInvalid)
    );
    assert_eq!(
        service.confirm_password_reset(&token, "NewSecret456!", 1_001),
        Err(AuthError::TokenExpired)
    );
    assert!(service.login("alice@example.com", "Secret123!", 1_002).is_ok());
    assert_eq!(service.confirm_password_reset(&token, "NewSecret456!", 1_000), Ok(()));
}

#[test]
fn a_magic_link_token_resets_no_password() {
    let mut service = service();
    service.register("alice@example.com", "Secret123!", 100).unwrap();
    let magic = service.request_magic_link("alice@example.com", 101).unwrap();
    assert!(!service.verify_reset_token(&magic, 101));
    assert_eq!(
        service.confirm_password_reset(&magic, "NewSecret456!", 102),
        Err(AuthError::TokenInvalid)
    );
    service.request_password_reset("alice@example.com", 101);
    let reset = last_token(&mut service);
    assert_eq!(service.redeem_magic_link(&reset, 102).unwrap_err(), AuthError::TokenInvalid);
}

#[test]
fn a_magic_link_logs_in_once() {
    let mut service = service();
    let (user, _) = service.register("alice@example.com", "Secret123!", 100).unwrap();
    service.take_mail();
    let token = service.request_magic_link("alice@example.com", 101).unwrap();
    let mails = service.take_mail();
    assert_eq!(mails.len(), 1);
    assert_eq!(mails[0].to, "alice@example.com");
    assert_eq!(mails[0].kind, MailKind::MagicLink);
    assert_eq!(mails[0].token.as_deref(), Some(token.as_str()));
    let session = service.redeem_magic_link(&token, 102).unwrap();
    let context = service.authenticate(None, Some(&session), 103);
    assert_eq!(context.user.unwrap().id, user.id);
    assert_eq!(
        service.redeem_magic_link(&token, 103).unwrap_err(),
        AuthError::TokenAlreadyConsumed
    );
    assert_eq!(service.sessions().len(), 2);
}

#[test]
fn a_magic_link_expires() {
    let mut service = service();
    service.register("alice@example.com", "Secret123!", 100).unwrap();
    let token = service.request_magic_link("alice@example.com", 101).unwrap();
    assert_eq!(service.redeem_magic_link(&token, 701).unwrap_err(), AuthError::TokenExpired);
    assert!(service.redeem_magic_link(&token, 700).is_ok());
}

#[test]
fn a_magic_link_needs_an_account() {
    let mut service = service();
    assert_eq!(
        service.request_magic_link("nobody@example.com", 100).unwrap_err(),
        AuthError::UserNotFound
    );
    assert!(service.take_mail().is_empty());
    assert_eq!(service.redeem_magic_link("nonsense", 100).unwrap_err(), AuthError::TokenInvalid);
}

#[test]
fn sweeping_removes_the_expired_sessions() {
    let mut service = service();
    let (_, a) = service.register("alice@example.com", "Secret123!", 100).unwrap();
    let b = service.login("alice@example.com", "Secret123!", 105).unwrap();
    assert_eq!(service.sweep_expired_sessions(109), 0);
    assert_eq!(service.sweep_expired_sessions(110), 1);
    assert_eq!(service.sessions().status(&a, 110), Err(AuthError::SessionNotFound));
    assert!(service.sessions().status(&b, 110).is_ok());
    assert_eq!(service.sweep_expired_sessions(115), 1);
    assert_eq!(service.sessions().len(), 0);
}

#[test]
fn the_reset_scenario() {
    let mut service = service();
    let (_, s1) = service.register("alice@example.com", "Secret123!", 1_000).unwrap();
    assert_eq!(service.authenticate(None, Some(&s1), 1_001).source, AuthSource::Cookie);
    service.request_password_reset("alice@example.com", 1_002);
    let token = last_token(&mut service);
    assert!(service.verify_reset_token(&token, 1_003));
    assert_eq!(service.confirm_password_reset(&token, "NewSecret456!", 1_004), Ok(()));
    assert_eq!(
        service.login("alice@example.com", "Secret123!", 1_005).unwrap_err(),
        AuthError::InvalidCredentials
    );
    assert!(service.login("alice@example.com", "NewSecret456!", 1_006).is_ok());
}

#[test]
fn answer_registration_names_the_account_and_its_session() {
    let mut service = service();
    let request = AuthRequest {
        email: "alice@example.com".to_string(),
        password: "Secret123!".to_string(),
    };
    let response = service.answer_registration(&request, 100);
    assert!(response.success);
    assert_eq!(response.message, "Registration successful");
    assert_eq!(response.user_id.as_deref(), Some("0"));
    let session = response.session_token.unwrap();
    assert_eq!(service.authenticate(None, Some(&session), 101).source, AuthSource::Cookie);

    let again = service.answer_registration(&request, 102);
    assert!(!again.success);
    assert_eq!(again.message, "Email already registered");
    assert_eq!(again.user_id, None);
    assert_eq!(again.session_token, None);

    let weak = AuthRequest { email: "bob@example.com".to_string(), password: "x".to_string() };
    let response = service.answer_registration(&weak, 103);
    assert!(!response.success);
    assert_eq!(response.message, "Password is too weak");
}

#[test]
fn answer_login_answers_failures_alike() {
    let mut service = service();
    service.register("alice@example.com", "Secret123!", 100).unwrap();
    service.register("bob@example.com", "Secret456!", 100).unwrap();
    let good = AuthRequest { email: "bob@example.com".to_string(), password: "Secret456!".to_string() };
    let response = service.answer_login(&good, 101);
    assert!(response.success);
    assert_eq!(response.message, "Login successful");
    assert_eq!(response.user_id.as_deref(), Some("1"));
    let session = response.session_token.unwrap();
    assert_eq!(service.authenticate(None, Some(&session), 102).user.unwrap().id, 1);

    let wrong = AuthRequest { email: "bob@example.com".to_string(), password: "Secret123!".to_string() };
    let unknown = AuthRequest { email: "eve@example.com".to_string(), password: "Secret456!".to_string() };
    let wrong = service.answer_login(&wrong, 103);
    let unknown = service.answer_login(&unknown, 103);
    assert_eq!(wrong, unknown);
    assert!(!wrong.success);
    assert_eq!(wrong.message, "Invalid credentials");
    assert_eq!(wrong.user_id, None);
    assert_eq!(wrong.session_token, None);
}

#[test]
fn authenticate_request_reads_raw_headers() {
    let mut service = service();
    let (_, of_alice) = service.register("alice@example.com", "Secret123!", 100).unwrap();
    let (_, of_bob) = service.register("bob@example.com", "Secret456!", 100).unwrap();
    let cookie = format!("session_id={of_alice}");
    let context = service.authenticate_request(None, Some(&cookie), 101);
    assert_eq!(context.source, AuthSource::Cookie);
    assert_eq!(context.user.unwrap().email, "alice@example.com");
    let header = format!("Bearer {of_bob}");
    let context = service.authenticate_request(Some(&header), Some(&cookie), 102);
    assert_eq!(context.source, AuthSource::Bearer);
    assert_eq!(context.user.unwrap().email, "bob@example.com");
    let context = service.authenticate_request(None, None, 103);
    assert_eq!(context.source, AuthSource::Anonymous);
}
