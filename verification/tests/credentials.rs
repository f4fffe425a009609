use auth_core::credentials::credentials_outcome;
use auth_core::credentials::CredentialStore;
use auth_core::credentials::UserRecord;
use auth_core::error::AuthError;
use auth_core::mail::MailKind;
use auth_core::mail::Outbox;

fn record(id: u64, email: &str) -> UserRecord {
    UserRecord {
        id,
        email: email.to_string(),
        password_hash: "hash".to_string(),
        email_verified: false,
        name: None,
        created_at: 0,
    }
}

#[test]
fn credentials_outcome_needs_an_account_and_its_password() {
    let user = credentials_outcome(Some(record(4, "a@b.c")), true).unwrap();
    assert_eq!(user.id, 4);
    assert_eq!(user.email, "a@b.c");
    assert_eq!(
        credentials_outcome(Some(record(4, "a@b.c")), false).unwrap_err(),
        AuthError::InvalidCredentials
    );
    assert_eq!(credentials_outcome(None, false).unwrap_err(), AuthError::InvalidCredentials);
    assert_eq!(credentials_outcome(None, true).unwrap_err(), AuthError::InvalidCredentials);
}

#[test]
fn duplicate_copies_every_field() {
    let mut first = record(9, "nine@example.com");
    first.name = Some("Nine".to_string());
    first.email_verified = true;
    first.created_at = 99;
    let copy = first.duplicate();
    assert_eq!(copy.id, 9);
    assert_eq!(copy.email, "nine@example.com");
    assert_eq!(copy.password_hash, "hash");
    assert!(copy.email_verified);
    assert_eq!(copy.name.as_deref(), Some("Nine"));
    assert_eq!(copy.created_at, 99);
}

#[test]
fn insert_user_stores_the_account_as_it_is_given() {
    let mut store = CredentialStore::new();
    let mut outbox = Outbox::new();
    let user = store
        .insert_user("Alice@Example.com", "some hash".to_string(), 42, &mut outbox)
        .unwrap();
    assert_eq!(user.id, 0);
    assert_eq!(user.email, "Alice@Example.com");
    assert_eq!(user.password_hash, "some hash");
    assert!(!user.email_verified);
    assert_eq!(user.name, None);
    assert_eq!(user.created_at, 42);
    assert_eq!(store.len(), 1);
    let second = store.insert_user("bob@example.com", "other".to_string(), 43, &mut outbox).unwrap();
    assert_eq!(second.id, 1);
    let mails = outbox.drain();
    assert_eq!(mails.len(), 2);
    assert_eq!(mails[0].to, "Alice@Example.com");
    assert_eq!(mails[0].kind, MailKind::Welcome);
    assert_eq!(mails[0].token, None);
    assert_eq!(mails[1].to, "bob@example.com");
}

#[test]
fn insert_user_refuses_an_address_in_another_case() {
    let mut store = CredentialStore::new();
    let mut outbox = Outbox::new();
    store.insert_user("alice@example.com", "h".to_string(), 1, &mut outbox).unwrap();
    let again = store.insert_user("ALICE@example.COM", "h".to_string(), 2, &mut outbox);
    assert_eq!(again.unwrap_err(), AuthError::DuplicateEmail);
    assert_eq!(store.len(), 1);
    assert_eq!(outbox.len(), 1);
}

#[test]
fn create_user_hashes_the_password() {
    let mut store = CredentialStore::new();
    let mut outbox = Outbox::new();
    let user = store.create_user("alice@example.com", "Secret123!", 7, &mut outbox).unwrap();
    assert_eq!(user.id, 0);
    assert_eq!(user.created_at, 7);
    assert_ne!(user.password_hash, "Secret123!");
    assert!(user.password_hash.starts_with("$argon2"));
    assert!(!user.password_hash.contains("Secret123!"));
    assert_eq!(outbox.len(), 1);
    let found = store.verify_password("alice@example.com", "Secret123!").unwrap();
    assert_eq!(found.id, 0);
    assert_eq!(found.password_hash, user.password_hash);
}

#[test]
fn create_user_salts_the_hash() {
    let mut store = CredentialStore::new();
    let mut outbox = Outbox::new();
    let a = store.create_user("a@example.com", "Secret123!", 7, &mut outbox).unwrap();
    let b = store.create_user("b@example.com", "Secret123!", 7, &mut outbox).unwrap();
    assert_ne!(a.password_hash, b.password_hash);
}

#[test]
fn create_user_refuses_weak_passwords_and_taken_addresses() {
    let mut store = CredentialStore::new();
    let mut outbox = Outbox::new();
    assert_eq!(
        store.create_user("alice@example.com", "weak", 1, &mut outbox).unwrap_err(),
        AuthError::WeakPassword
    );
    assert_eq!(store.len(), 0);
    store.create_user("alice@example.com", "Secret123!", 1, &mut outbox).unwrap();
    assert_eq!(
        store.create_user("Alice@Example.com", "Another456!", 2, &mut outbox).unwrap_err(),
        AuthError::DuplicateEmail
    );
    // A weak password is reported before the address is looked at.
    assert_eq!(
        store.create_user("alice@example.com", "weak", 3, &mut outbox).unwrap_err(),
        AuthError::WeakPassword
    );
    assert_eq!(store.len(), 1);
    assert_eq!(outbox.len(), 1);
}

#[test]
fn wrong_password_and_unknown_address_fail_alike() {
    let mut store = CredentialStore::new();
    let mut outbox = Outbox::new();
    store.create_user("alice@example.com", "Secret123!", 1, &mut outbox).unwrap();
    let wrong = store.verify_password("alice@example.com", "Secret123?").unwrap_err();
    let unknown = store.verify_password("nobody@example.com", "Secret123!").unwrap_err();
    assert_eq!(wrong, AuthError::InvalidCredentials);
    assert_eq!(unknown, AuthError::InvalidCredentials);
    assert_eq!(wrong.message(), unknown.message());
}

#[test]
fn the_password_of_the_decoy_logs_nobody_in() {
    let store = CredentialStore::new();
    assert_eq!(
        store.verify_password("nobody@example.com", "").unwrap_err(),
        AuthError::InvalidCredentials
    );
}

#[test]
fn a_stored_string_that_is_no_hash_matches_no_password() {
    let mut store = CredentialStore::new();
    let mut outbox = Outbox::new();
    store.insert_user("alice@example.com", "Secret123!".to_string(), 1, &mut outbox).unwrap();
    assert_eq!(
        store.verify_password("alice@example.com", "Secret123!").unwrap_err(),
        AuthError::InvalidCredentials
    );
}

#[test]
fn a_known_hash_verifies_its_password() {
    let mut store = CredentialStore::new();
    let mut outbox = Outbox::new();
    let hash = "$argon2i$v=19$m=65536,t=1,p=1$c29tZXNhbHQAAAAAAAAAAA$+r0d29hqEB0yasKr55ZgICsQGSkl0v0kgwhd+U3wyRo";
    store.insert_user("alice@example.com", hash.to_string(), 1, &mut outbox).unwrap();
    assert!(store.verify_password("alice@example.com", "password").is_ok());
    assert_eq!(
        store.verify_password("alice@example.com", "bogus").unwrap_err(),
        AuthError::InvalidCredentials
    );
}

#[test]
fn lookups_find_accounts_by_address_and_by_identifier() {
    let mut store = CredentialStore::new();
    let mut outbox = Outbox::new();
    store.insert_user("alice@example.com", "h0".to_string(), 1, &mut outbox).unwrap();
    store.insert_user("bob@example.com", "h1".to_string(), 2, &mut outbox).unwrap();
    assert_eq!(store.find_by_email("BOB@example.com").unwrap().id, 1);
    assert_eq!(store.find_by_email("alice@example.com").unwrap().password_hash, "h0");
    assert_eq!(store.find_by_email("carol@example.com").unwrap_err(), AuthError::UserNotFound);
    assert_eq!(store.find_by_id(0).unwrap().email, "alice@example.com");
    assert_eq!(store.find_by_id(1).unwrap().email, "bob@example.com");
    assert_eq!(store.find_by_id(2).unwrap_err(), AuthError::UserNotFound);
    assert_eq!(store.find_by_id(u64::MAX).unwrap_err(), AuthError::UserNotFound);
}

#[test]
fn set_password_hash_replaces_one_hash_and_queues_a_notice() {
    let mut store = CredentialStore::new();
    let mut outbox = Outbox::new();
    store.insert_user("alice@example.com", "h0".to_string(), 1, &mut outbox).unwrap();
    store.insert_user("bob@example.com", "h1".to_string(), 2, &mut outbox).unwrap();
    outbox.drain();
    assert_eq!(store.set_password_hash(1, "h2".to_string(), &mut outbox), Ok(()));
    assert_eq!(store.find_by_id(0).unwrap().password_hash, "h0");
    assert_eq!(store.find_by_id(1).unwrap().password_hash, "h2");
    let mails = outbox.drain();
    assert_eq!(mails.len(), 1);
    assert_eq!(mails[0].to, "bob@example.com");
    assert_eq!(mails[0].kind, MailKind::PasswordChanged);
    assert_eq!(mails[0].token, None);
    assert_eq!(
        store.set_password_hash(2, "h3".to_string(), &mut outbox),
        Err(AuthError::UserNotFound)
    );
    assert_eq!(outbox.len(), 0);
}

#[test]
fn update_password_makes_the_new_password_the_only_one() {
    let mut store = CredentialStore::new();
    let mut outbox = Outbox::new();
    store.create_user("alice@example.com", "Secret123!", 1, &mut outbox).unwrap();
    assert_eq!(store.update_password(0, "NewSecret456!", &mut outbox), Ok(()));
    assert!(store.verify_password("alice@example.com", "NewSecret456!").is_ok());
    assert_eq!(
        store.verify_password("alice@example.com", "Secret123!").unwrap_err(),
        AuthError::InvalidCredentials
    );
    assert_eq!(outbox.len(), 2);
    assert_eq!(
        store.update_password(1, "NewSecret456!", &mut outbox),
        Err(AuthError::UserNotFound)
    );
    assert_eq!(outbox.len(), 2);
}

#[test]
fn mark_email_verified_sets_the_flag_of_one_account() {
    let mut store = CredentialStore::new();
    let mut outbox = Outbox::new();
    store.insert_user("alice@example.com", "h0".to_string(), 1, &mut outbox).unwrap();
    store.insert_user("bob@example.com", "h1".to_string(), 2, &mut outbox).unwrap();
    store.mark_email_verified(1);
    assert!(!store.find_by_id(0).unwrap().email_verified);
    assert!(store.find_by_id(1).unwrap().email_verified);
    store.mark_email_verified(1);
    store.mark_email_verified(5);
    assert!(store.find_by_id(1).unwrap().email_verified);
    assert_eq!(store.len(), 2);
}

#[test]
fn update_name_gives_and_takes_a_name() {
    let mut store = CredentialStore::new();
    let mut outbox = Outbox::new();
    store.insert_user("alice@example.com", "h0".to_string(), 1, &mut outbox).unwrap();
    assert_eq!(store.update_name(0, Some("Alice".to_string())), Ok(()));
    assert_eq!(store.find_by_id(0).unwrap().name.as_deref(), Some("Alice"));
    assert_eq!(store.update_name(0, None), Ok(()));
    assert_eq!(store.find_by_id(0).unwrap().name, None);
    assert_eq!(store.update_name(1, Some("Bob".to_string())), Err(AuthError::UserNotFound));
}
