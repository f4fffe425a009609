//! The question "who is the current user?", as the presentation layer asks
//! it.

use vstd::prelude::*;
use crate::classifier::AuthContext;
use crate::entity::profile_of;
use crate::entity::User;
use crate::error::AuthError;

verus! {

/// Where the current user is looked up.
pub trait AuthRepository {
    /// The account of the current request, or the message of the failure.
    fn get_current_user(&self) -> Result<User, String>;
}

/// Answers from the identity that the classifier found for the request.
pub struct AuthRepositoryImpl {
    context: AuthContext,
}

impl AuthRepositoryImpl {
    /// The identity that this repository answers from.
    pub closed spec fn context(&self) -> AuthContext {
        self.context
    }

    /// A repository for one request.
    pub fn new(context: AuthContext) -> (repository: Self)
        ensures
            repository.context() == context,
    {
        AuthRepositoryImpl { context }
    }
}

impl AuthRepository for AuthRepositoryImpl {
    /// The account of the request as it is shown, or the message of
    /// `Unauthorized` if the request is anonymous.
    fn get_current_user(&self) -> (result: Result<User, String>)
        ensures
            match result {
                Ok(user) => self.context().user_view() matches Some(account) && user@
                    == profile_of(account),
                Err(message) => self.context().user is None && message@
                    == AuthError::Unauthorized.message_text(),
            },
    {
        match &self.context.user {
            Some(record) => Ok(User::from_record(record)),
            None => Err(AuthError::Unauthorized.message()),
        }
    }
}

/// The use case of showing the current user.
pub struct GetCurrentUserUseCase;

impl GetCurrentUserUseCase {
    /// Asks `repository` for the current user.
    pub fn execute(repository: &AuthRepositoryImpl) -> (result: Result<User, String>)
        ensures
            match result {
                Ok(user) => repository.context().user_view() matches Some(account) && user@
                    == profile_of(account),
                Err(message) => repository.context().user is None && message@
                    == AuthError::Unauthorized.message_text(),
            },
    {
        repository.get_current_user()
    }
}

} // verus!
