use auth_core::text::decimal_string;
use auth_core::text::hex_string;
use auth_core::text::same_bytes;
use auth_core::text::same_email;
use auth_core::text::same_text;

#[test]
fn same_bytes_tells_equal_from_different() {
    assert!(same_bytes(b"", b""));
    assert!(same_bytes(b"token", b"token"));
    assert!(!same_bytes(b"token", b"tokeN"));
    assert!(!same_bytes(b"Token", b"token"));
    assert!(!same_bytes(b"token", b"token1"));
    assert!(!same_bytes(b"", b"x"));
}

#[test]
fn same_bytes_reads_past_the_first_difference() {
    let a = [0u8, 1, 2, 3, 4, 5, 6, 7];
    let mut b = a;
    b[0] = 9;
    b[7] = 7;
    assert!(!same_bytes(&a, &b));
    let mut c = a;
    c[7] = 0;
    assert!(!same_bytes(&a, &c));
}

#[test]
fn same_text_compares_whole_strings() {
    assert!(same_text("Bearer ", "Bearer "));
    assert!(!same_text("Bearer ", "bearer "));
    assert!(same_text("gr\u{fc}n", "gr\u{fc}n"));
    assert!(!same_text("gr\u{fc}n", "grun"));
}

#[test]
fn same_email_ignores_the_case_of_ascii_letters() {
    assert!(same_email("alice@example.com", "alice@example.com"));
    assert!(same_email("Alice@Example.COM", "alice@example.com"));
    assert!(same_email("ALICE@EXAMPLE.COM", "alice@example.com"));
    assert!(!same_email("alice@example.com", "alice@example.org"));
    assert!(!same_email("alice@example.com", "alice@example.co"));
    assert!(!same_email("alice@example.com", "a1ice@example.com"));
}

#[test]
fn same_email_leaves_other_characters_alone() {
    assert!(!same_email("\u{c9}lan@example.com", "\u{e9}lan@example.com"));
    assert!(same_email("\u{e9}LAN@example.com", "\u{e9}lan@example.com"));
    assert!(!same_email("a[b@example.com", "a{b@example.com"));
    assert!(!same_email("a@b@example.com", "a`b@example.com"));
}

#[test]
fn hex_string_writes_two_small_digits_per_byte() {
    assert_eq!(hex_string(&[]), "");
    assert_eq!(hex_string(&[0xbe, 0xef]), "beef");
    assert_eq!(hex_string(&[0x00, 0x0f, 0xf0, 0xff]), "000ff0ff");
    assert_eq!(hex_string(&[0x12, 0x34, 0x56, 0x78, 0x9a, 0xbc, 0xde]), "123456789abcde");
}

#[test]
fn decimal_string_writes_numbers_without_leading_zeros() {
    assert_eq!(decimal_string(0), "0");
    assert_eq!(decimal_string(7), "7");
    assert_eq!(decimal_string(10), "10");
    assert_eq!(decimal_string(1905), "1905");
    assert_eq!(decimal_string(u64::MAX), "18446744073709551615");
}
