use auth_core::classifier::AuthContext;
use auth_core::classifier::AuthSource;
use auth_core::credentials::UserRecord;
use auth_core::page::moment_string;
use auth_core::page::render_user_data;
use auth_core::page::user_data;

fn alice() -> UserRecord {
    UserRecord {
        id: 12,
        email: "alice@example.com".to_string(),
        password_hash: "h".to_string(),
        email_verified: true,
        name: Some("Alice".to_string()),
        created_at: 1_431_648_000,
    }
}

#[test]
fn a_moment_is_written_as_rfc_3339_text() {
    assert_eq!(moment_string(0).as_deref(), Some("1970-01-01T00:00:00+00:00"));
    assert_eq!(moment_string(1_431_648_000).as_deref(), Some("2015-05-15T00:00:00+00:00"));
    assert_eq!(moment_string(1_700_000_000).as_deref(), Some("2023-11-14T22:13:20+00:00"));
}

#[test]
fn a_moment_beyond_the_calendar_is_not_written() {
    assert_eq!(moment_string(u64::MAX), None);
    assert_eq!(moment_string(i64::MAX as u64), None);
    assert_eq!(moment_string(i64::MAX as u64 + 1), None);
}

#[test]
fn an_anonymous_request_is_told_so() {
    assert_eq!(
        user_data(&AuthContext::anonymous()).as_deref(),
        Some("{\"authenticated\": false, \"user\": null, \"auth_source\": \"None\"}")
    );
}

#[test]
fn user_data_names_every_field() {
    let expected = r#"{
                "authenticated": true,
                "user": {
                    "id": "12",
                    "email": "alice@example.com",
                    "name": "Alice",
                    "email_verified": true,
                    "created_at": "2015-05-15T00:00:00+00:00"
                },
                "auth_source": "Session Cookie"
            }"#;
    let context = AuthContext { user: Some(alice()), source: AuthSource::Cookie };
    assert_eq!(user_data(&context).as_deref(), Some(expected));
}

#[test]
fn a_missing_name_is_written_as_null() {
    let mut user = alice();
    user.name = None;
    user.email_verified = false;
    let expected = r#"{
                "authenticated": true,
                "user": {
                    "id": "12",
                    "email": "alice@example.com",
                    "name": null,
                    "email_verified": false,
                    "created_at": "then"
                },
                "auth_source": "Authorization Header (Bearer)"
            }"#;
    assert_eq!(render_user_data(&user, "then", AuthSource::Bearer), expected);
}

#[test]
fn user_data_of_an_account_from_beyond_the_calendar_is_not_written() {
    let mut user = alice();
    user.created_at = u64::MAX;
    let context = AuthContext { user: Some(user), source: AuthSource::Bearer };
    assert_eq!(user_data(&context), None);
}
