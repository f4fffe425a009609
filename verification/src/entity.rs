//! What the presentation layer sees of the core: an account without its
//! secrets, a pair of credentials as it was typed, and the answer to it.

use vstd::prelude::*;
use crate::credentials::UserRecord;
use crate::credentials::UserView;
use crate::error::AuthError;
use crate::text::decimal;
use crate::text::decimal_string;

verus! {

/// An account as it is shown: its identifier in decimal, and its address.
#[derive(Debug, Clone, PartialEq)]
pub struct User {
    /// The identifier of the account, in decimal.
    pub id: String,
    /// The address that the account was registered with.
    pub email: String,
}

/// A [`User`] as plain values.
pub struct UserProfile {
    /// The identifier of the account, in decimal.
    pub id: Seq<char>,
    /// The address that the account was registered with.
    pub email: Seq<char>,
}

impl View for User {
    type V = UserProfile;

    open spec fn view(&self) -> UserProfile {
        UserProfile { id: self.id@, email: self.email@ }
    }
}

/// What is shown of an account.
pub open spec fn profile_of(user: UserView) -> UserProfile {
    UserProfile { id: decimal(user.id as nat), email: user.email }
}

impl User {
    /// What is shown of `record`.
    pub fn from_record(record: &UserRecord) -> (user: User)
        ensures
            user@ == profile_of(record@),
    {
        User { id: decimal_string(record.id), email: record.email.clone() }
    }
}

/// Credentials as they were typed.
#[derive(Debug, Clone, PartialEq)]
pub struct AuthRequest {
    /// The address.
    pub email: String,
    /// The password.
    pub password: String,
}

/// The answer to an [`AuthRequest`].
#[derive(Debug, Clone, PartialEq)]
pub struct AuthResponse {
    /// Whether the request was granted.
    pub success: bool,
    /// What to tell the person who asked.
    pub message: String,
    /// The identifier of the account, in decimal, if the request was granted.
    pub user_id: Option<String>,
    /// The identifier of the new session, if the request was granted.
    pub session_token: Option<String>,
}

/// An [`AuthResponse`] as plain values.
pub struct AuthResponseView {
    /// Whether the request was granted.
    pub success: bool,
    /// What to tell the person who asked.
    pub message: Seq<char>,
    /// The identifier of the account, in decimal.
    pub user_id: Option<Seq<char>>,
    /// The identifier of the new session.
    pub session_token: Option<Seq<char>>,
}

impl View for AuthResponse {
    type V = AuthResponseView;

    open spec fn view(&self) -> AuthResponseView {
        AuthResponseView {
            success: self.success,
            message: self.message@,
            user_id: match self.user_id {
                Some(id) => Some(id@),
                None => None,
            },
            session_token: match self.session_token {
                Some(t) => Some(t@),
                None => None,
            },
        }
    }
}

/// The answer that grants a request: it names the account and carries the
/// session.
pub open spec fn granted(
    message: Seq<char>,
    user_id: u64,
    session_token: Seq<char>,
) -> AuthResponseView {
    AuthResponseView {
        success: true,
        message,
        user_id: Some(decimal(user_id as nat)),
        session_token: Some(session_token),
    }
}

/// The answer that refuses a request: it carries the message of the failure
/// and nothing else.
pub open spec fn refused(error: AuthError) -> AuthResponseView {
    AuthResponseView {
        success: false,
        message: error.message_text(),
        user_id: None,
        session_token: None,
    }
}

impl AuthResponse {
    /// Grants a request.
    pub fn grant(message: &str, user_id: u64, session_token: String) -> (response: AuthResponse)
        ensures
            response@ == granted(message@, user_id, session_token@),
    {
        AuthResponse {
            success: true,
            message: message.to_owned(),
            user_id: Some(decimal_string(user_id)),
            session_token: Some(session_token),
        }
    }

    /// Refuses a request.
    pub fn refuse(error: AuthError) -> (response: AuthResponse)
        ensures
            response@ == refused(error),
    {
        AuthResponse {
            success: false,
            message: error.message(),
            user_id: None,
            session_token: None,
        }
    }
}

} // verus!
