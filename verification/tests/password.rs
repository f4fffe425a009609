use auth_core::error::AuthError;
use auth_core::password::digest;
use auth_core::password::is_weak_password;

#[test]
fn short_passwords_are_weak() {
    assert!(is_weak_password(""));
    assert!(is_weak_password("weak"));
    assert!(is_weak_password("1234567"));
    assert!(!is_weak_password("12345678"));
}

#[test]
fn long_passwords_are_weak() {
    let longest = "a".repeat(128);
    let too_long = "a".repeat(129);
    assert!(!is_weak_password(&longest));
    assert!(is_weak_password(&too_long));
}

#[test]
fn password_length_is_counted_in_bytes() {
    // Four characters of two bytes each.
    assert!(!is_weak_password("\u{e9}\u{e9}\u{e9}\u{e9}"));
    // Sixty-five characters of two bytes each.
    assert!(is_weak_password(&"\u{e9}".repeat(65)));
}

#[test]
fn blank_passwords_are_weak() {
    assert!(is_weak_password("        "));
    assert!(is_weak_password("\t\n\r \t\n\r \t"));
    assert!(is_weak_password("\u{3000}\u{3000}\u{3000}"));
    assert!(is_weak_password("\u{a0}\u{2003}\u{2028}\u{205f}"));
    assert!(!is_weak_password("       x"));
    assert!(!is_weak_password("\u{200b}\u{200b}\u{200b}"));
}

#[test]
fn the_example_passwords_are_accepted() {
    assert!(!is_weak_password("Secret123!"));
    assert!(!is_weak_password("NewSecret456!"));
    assert!(!is_weak_password("securepassword123"));
}

#[test]
fn digest_refuses_weak_passwords() {
    assert_eq!(digest("weak"), Err(AuthError::WeakPassword));
    assert_eq!(digest("        "), Err(AuthError::WeakPassword));
    assert_eq!(digest(&"a".repeat(129)), Err(AuthError::WeakPassword));
}

#[test]
fn digest_hashes_with_a_fresh_salt() {
    let first = digest("Secret123!").unwrap();
    let second = digest("Secret123!").unwrap();
    assert!(first.starts_with("$argon2"));
    assert!(!first.contains("Secret123!"));
    assert_ne!(first, second);
}
