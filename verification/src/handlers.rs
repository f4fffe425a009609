//! Registration and login as a route handler sees them: credentials as they
//! were typed go in, and an answer that can be sent back comes out.

use vstd::prelude::*;
use crate::credentials::account_of;
use crate::entity::granted;
use crate::entity::refused;
use crate::entity::AuthRequest;
use crate::entity::AuthResponse;
use crate::entity::AuthResponseView;
use crate::error::AuthError;
use crate::password::weak_password;
use crate::service::login_post;
use crate::service::register_post;
use crate::service::AuthService;
use crate::service::ServiceView;

verus! {

/// What `answer_registration` does: it registers, and answers with the new
/// account and its session, or with the message of the failure.
pub open spec fn answer_registration_post(
    pre: ServiceView,
    post: ServiceView,
    email: Seq<char>,
    password: Seq<char>,
    now: u64,
    response: AuthResponseView,
) -> bool {
    match response.session_token {
        Some(session_id) => {
            &&& register_post(pre, post, email, password, now, Ok((post.users.last(), session_id)))
            &&& response == granted("Registration successful"@, post.users.last().id, session_id)
        },
        None => {
            let error = if weak_password(password) {
                AuthError::WeakPassword
            } else {
                AuthError::DuplicateEmail
            };
            &&& register_post(pre, post, email, password, now, Err(error))
            &&& response == refused(error)
        },
    }
}

/// What `answer_login` does: it logs in, and answers with the account and its
/// new session, or with the message of the one failure that a login has.
pub open spec fn answer_login_post(
    pre: ServiceView,
    post: ServiceView,
    email: Seq<char>,
    password: Seq<char>,
    now: u64,
    response: AuthResponseView,
) -> bool {
    match response.session_token {
        Some(session_id) => {
            &&& login_post(pre, post, email, password, now, Ok(session_id))
            &&& response == granted(
                "Login successful"@,
                pre.users[account_of(pre.users, email)].id,
                session_id,
            )
        },
        None => {
            &&& login_post(pre, post, email, password, now, Err(AuthError::InvalidCredentials))
            &&& response == refused(AuthError::InvalidCredentials)
        },
    }
}

impl AuthService {
    /// Registers the account that `request` asks for.
    pub fn answer_registration(
        &mut self,
        request: &AuthRequest,
        now: u64,
    ) -> (response: AuthResponse)
        requires
            old(self).wf(),
            old(self).has_room(),
        ensures
            final(self).wf(),
            answer_registration_post(
                old(self)@,
                final(self)@,
                request.email@,
                request.password@,
                now,
                response@,
            ),
    {
        match self.register(request.email.as_str(), request.password.as_str(), now) {
            Ok((user, session_id)) => AuthResponse::grant(
                "Registration successful",
                user.id,
                session_id,
            ),
            Err(e) => AuthResponse::refuse(e),
        }
    }

    /// Logs in with the credentials of `request`.
    pub fn answer_login(&mut self, request: &AuthRequest, now: u64) -> (response: AuthResponse)
        requires
            old(self).wf(),
            old(self).has_room(),
        ensures
            final(self).wf(),
            answer_login_post(
                old(self)@,
                final(self)@,
                request.email@,
                request.password@,
                now,
                response@,
            ),
    {
        match self.login(request.email.as_str(), request.password.as_str(), now) {
            Ok(session_id) => match self.users().find_by_email(request.email.as_str()) {
                Ok(user) => AuthResponse::grant("Login successful", user.id, session_id),
                Err(e) => AuthResponse::refuse(e),
            },
            Err(e) => AuthResponse::refuse(e),
        }
    }
}

} // verus!
