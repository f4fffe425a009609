//! The ways in which an operation of the authentication core fails.

use vstd::prelude::*;

verus! {

/// Every failure that the stores and the façade report. Each kind has one
/// message, so that a caller can tell the kinds apart and cannot tell two
/// failures of one kind apart.
#[derive(Clone, Copy, Debug, PartialEq, Eq, Structural)]
pub enum AuthError {
    /// An account with this e-mail address exists already.
    DuplicateEmail,
    /// The password is too short, too long or blank.
    WeakPassword,
    /// No account has this e-mail address, or the password is not its own.
    InvalidCredentials,
    /// No account has this identifier.
    UserNotFound,
    /// No session has this identifier.
    SessionNotFound,
    /// The session was not used within its inactivity window.
    SessionExpired,
    /// No token of this purpose has this text.
    TokenInvalid,
    /// The token was not redeemed before its expiry.
    TokenExpired,
    /// The token was redeemed before.
    TokenAlreadyConsumed,
    /// The request carries no identity, and the route requires one.
    Unauthorized,
}

impl AuthError {
    /// The message of this kind of failure.
    pub open spec fn message_text(self) -> Seq<char> {
        match self {
            AuthError::DuplicateEmail => "Email already registered"@,
            AuthError::WeakPassword => "Password is too weak"@,
            AuthError::InvalidCredentials => "Invalid credentials"@,
            AuthError::UserNotFound => "User not found"@,
            AuthError::SessionNotFound => "Session not found"@,
            AuthError::SessionExpired => "Session expired"@,
            AuthError::TokenInvalid => "Invalid token"@,
            AuthError::TokenExpired => "Token expired"@,
            AuthError::TokenAlreadyConsumed => "Token already used"@,
            AuthError::Unauthorized => "Unauthorized"@,
        }
    }

    /// The message of this kind of failure, for the response to the caller.
    pub fn message(&self) -> (text: String)
        ensures
            text@ == self.message_text(),
    {
        match self {
            AuthError::DuplicateEmail => "Email already registered".to_owned(),
            AuthError::WeakPassword => "Password is too weak".to_owned(),
            AuthError::InvalidCredentials => "Invalid credentials".to_owned(),
            AuthError::UserNotFound => "User not found".to_owned(),
            AuthError::SessionNotFound => "Session not found".to_owned(),
            AuthError::SessionExpired => "Session expired".to_owned(),
            AuthError::TokenInvalid => "Invalid token".to_owned(),
            AuthError::TokenExpired => "Token expired".to_owned(),
            AuthError::TokenAlreadyConsumed => "Token already used".to_owned(),
            AuthError::Unauthorized => "Unauthorized".to_owned(),
        }
    }
}

} // verus!
