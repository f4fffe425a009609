//! The façade that route handlers call: registration, login, logout, password
//! change and reset, magic links, and the classification of requests.
//!
//! Each operation is stated as a relation between the state before and the
//! state after, over [`ServiceView`]. The time is an argument of every
//! operation that depends on it, and mail is queued, never sent.

use vstd::prelude::*;
use vstd::string::StringSliceAdditionalSpecFns;
use crate::classifier::chosen;
use crate::classifier::classify;
use crate::classifier::classify_request;
use crate::classifier::presented;
use crate::classifier::presented_bearer;
use crate::classifier::presented_cookie;
use crate::classifier::sessions_after;
use crate::classifier::source_of;
use crate::classifier::user_after;
use crate::classifier::AuthContext;
use crate::credentials::account_of;
use crate::credentials::credentials_hold;
use crate::credentials::email_taken;
use crate::credentials::new_account;
use crate::credentials::users_wf;
use crate::credentials::CredentialStore;
use crate::credentials::UserRecord;
use crate::credentials::UserView;
use crate::error::AuthError;
use crate::ledger::minted_as;
use crate::mail::letter;
use crate::mail::notice;
use crate::mail::Mail;
use crate::mail::MailKind;
use crate::mail::MailView;
use crate::mail::Outbox;
use crate::password::password_matches;
use crate::password::weak_password;
use crate::password::MAX_HASHABLE_BYTES;
use crate::session::opened;
use crate::session::unexpired;
use crate::session::SessionData;
use crate::session::SessionManager;
use crate::token::issued;
use crate::token::spent;
use crate::token::token_status;
use crate::token::TokenData;
use crate::token::TokenIssuer;
use crate::token::TokenPurpose;

verus! {

/// The durations that a service is set up with, in seconds.
#[derive(Clone, Copy, Debug, PartialEq, Eq, Structural)]
pub struct AuthConfig {
    /// How long a session stays active without being used.
    pub session_window: u64,
    /// How long a password-reset token can be redeemed.
    pub reset_ttl: u64,
    /// How long a magic-link token can be redeemed.
    pub magic_link_ttl: u64,
}

/// The state of a service as plain values.
pub struct ServiceView {
    /// The accounts, each at the place of its identifier.
    pub users: Seq<UserView>,
    /// The sessions, by identifier.
    pub sessions: Map<Seq<char>, SessionData>,
    /// The reset and magic-link tokens, by their text.
    pub tokens: Map<Seq<char>, TokenData>,
    /// The mail that waits for delivery, oldest first.
    pub outbox: Seq<MailView>,
    /// The durations that the service was set up with.
    pub config: AuthConfig,
    /// How many sessions were ever created.
    pub sessions_created: nat,
    /// How many tokens were ever issued.
    pub tokens_issued: nat,
}

/// Every session and every token belongs to an account.
pub open spec fn refs_live(state: ServiceView) -> bool {
    &&& forall|id: Seq<char>|
        #![trigger state.sessions.contains_key(id)]
        #![trigger state.sessions[id]]
        state.sessions.contains_key(id) ==> state.sessions[id].user_id < state.users.len()
    &&& forall|t: Seq<char>|
        #![trigger state.tokens.contains_key(t)]
        #![trigger state.tokens[t]]
        state.tokens.contains_key(t) ==> state.tokens[t].user_id < state.users.len()
}

/// A step keeps [`refs_live`] if it removes no account, and every session and
/// token after it either belonged to the same account before it or belongs to
/// an account now.
pub proof fn lemma_refs_live_kept(pre: ServiceView, post: ServiceView)
    requires
        refs_live(pre),
        pre.users.len() <= post.users.len(),
        forall|id: Seq<char>| #[trigger]
            post.sessions.contains_key(id) ==> post.sessions[id].user_id < post.users.len() || (
            pre.sessions.contains_key(id) && pre.sessions[id].user_id
                == post.sessions[id].user_id),
        forall|t: Seq<char>| #[trigger]
            post.tokens.contains_key(t) ==> post.tokens[t].user_id < post.users.len() || (
            pre.tokens.contains_key(t) && pre.tokens[t].user_id == post.tokens[t].user_id),
    ensures
        refs_live(post),
{
}

/// The state is consistent: the accounts are, and nothing refers to an
/// account that does not exist.
pub open spec fn state_wf(state: ServiceView) -> bool {
    &&& users_wf(state.users)
    &&& refs_live(state)
}

/// What `register` does.
pub open spec fn register_post(
    pre: ServiceView,
    post: ServiceView,
    email: Seq<char>,
    password: Seq<char>,
    now: u64,
    result: Result<(UserView, Seq<char>), AuthError>,
) -> bool {
    match result {
        Ok((user, session_id)) => {
            &&& !weak_password(password)
            &&& !email_taken(pre.users, email)
            &&& user.id == pre.users.len()
            &&& user == new_account(user.id, email, user.password_hash, now)
            &&& password_matches(password, user.password_hash)
            &&& minted_as(session_id, pre.sessions_created)
            &&& !pre.sessions.contains_key(session_id)
            &&& post == ServiceView {
                users: pre.users.push(user),
                sessions: pre.sessions.insert(
                    session_id,
                    opened(user.id, now, pre.config.session_window),
                ),
                outbox: pre.outbox.push(notice(email, MailKind::Welcome)),
                sessions_created: pre.sessions_created + 1,
                ..pre
            }
        },
        Err(e) => {
            &&& post == pre
            &&& weak_password(password) || email_taken(pre.users, email)
            &&& e == if weak_password(password) {
                AuthError::WeakPassword
            } else {
                AuthError::DuplicateEmail
            }
        },
    }
}

/// What `login` does.
pub open spec fn login_post(
    pre: ServiceView,
    post: ServiceView,
    email: Seq<char>,
    password: Seq<char>,
    now: u64,
    result: Result<Seq<char>, AuthError>,
) -> bool {
    match result {
        Ok(session_id) => {
            &&& credentials_hold(pre.users, email, password)
            &&& minted_as(session_id, pre.sessions_created)
            &&& !pre.sessions.contains_key(session_id)
            &&& post == ServiceView {
                sessions: pre.sessions.insert(
                    session_id,
                    opened(
                        pre.users[account_of(pre.users, email)].id,
                        now,
                        pre.config.session_window,
                    ),
                ),
                sessions_created: pre.sessions_created + 1,
                ..pre
            }
        },
        Err(e) => {
            &&& post == pre
            &&& !credentials_hold(pre.users, email, password)
            &&& e == AuthError::InvalidCredentials
        },
    }
}

/// What `logout` does.
pub open spec fn logout_post(pre: ServiceView, post: ServiceView, session_id: Seq<char>) -> bool {
    post == ServiceView { sessions: pre.sessions.remove(session_id), ..pre }
}

/// The state after the account `user_id` got a password whose hash string is
/// `password_hash`: the hash is replaced, and the notice is queued.
pub open spec fn with_password(
    pre: ServiceView,
    user_id: u64,
    password_hash: Seq<char>,
) -> ServiceView {
    ServiceView {
        users: pre.users.update(
            user_id as int,
            UserView { password_hash, ..pre.users[user_id as int] },
        ),
        outbox: pre.outbox.push(
            notice(pre.users[user_id as int].email, MailKind::PasswordChanged),
        ),
        ..pre
    }
}

/// What `change_password` does.
pub open spec fn change_password_post(
    pre: ServiceView,
    post: ServiceView,
    user_id: u64,
    old_password: Seq<char>,
    new_password: Seq<char>,
    result: Result<(), AuthError>,
) -> bool {
    match result {
        Ok(_) => {
            &&& user_id < pre.users.len()
            &&& password_matches(old_password, pre.users[user_id as int].password_hash)
            &&& password_matches(new_password, post.users[user_id as int].password_hash)
            &&& post == with_password(pre, user_id, post.users[user_id as int].password_hash)
        },
        Err(e) => {
            &&& post == pre
            &&& if user_id >= pre.users.len() {
                e == AuthError::UserNotFound
            } else {
                &&& e == AuthError::InvalidCredentials
                &&& !password_matches(old_password, pre.users[user_id as int].password_hash)
            }
        },
    }
}

/// The state after a token of `purpose` was issued to the account registered
/// under `email` and queued as a letter to it.
pub open spec fn with_token(
    pre: ServiceView,
    email: Seq<char>,
    purpose: TokenPurpose,
    ttl: u64,
    kind: MailKind,
    now: u64,
    token: Seq<char>,
) -> ServiceView {
    let user = pre.users[account_of(pre.users, email)];
    ServiceView {
        tokens: pre.tokens.insert(token, issued(user.id, purpose, ttl, now)),
        outbox: pre.outbox.push(letter(user.email, kind, token)),
        tokens_issued: pre.tokens_issued + 1,
        ..pre
    }
}

/// What `request_password_reset` does. The caller learns nothing; the token
/// goes out by mail only.
pub open spec fn request_password_reset_post(
    pre: ServiceView,
    post: ServiceView,
    email: Seq<char>,
    now: u64,
) -> bool {
    if email_taken(pre.users, email) {
        &&& post.outbox.len() == pre.outbox.len() + 1
        &&& post.outbox.last().token matches Some(token)
        &&& minted_as(token, pre.tokens_issued)
        &&& !pre.tokens.contains_key(token)
        &&& post == with_token(
            pre,
            email,
            TokenPurpose::PasswordReset,
            pre.config.reset_ttl,
            MailKind::PasswordReset,
            now,
            token,
        )
    } else {
        post == pre
    }
}

/// What `verify_reset_token` answers.
pub open spec fn reset_token_good(state: ServiceView, token: Seq<char>, now: u64) -> bool {
    token_status(state.tokens, token, TokenPurpose::PasswordReset, now) is Ok
}

/// What `confirm_password_reset` does.
pub open spec fn confirm_password_reset_post(
    pre: ServiceView,
    post: ServiceView,
    token: Seq<char>,
    new_password: Seq<char>,
    now: u64,
    result: Result<(), AuthError>,
) -> bool {
    match token_status(pre.tokens, token, TokenPurpose::PasswordReset, now) {
        Ok(user_id) => {
            &&& result is Ok
            &&& password_matches(new_password, post.users[user_id as int].password_hash)
            &&& post == with_password(
                ServiceView { tokens: pre.tokens.insert(token, spent(pre.tokens[token])), ..pre },
                user_id,
                post.users[user_id as int].password_hash,
            )
        },
        Err(e) => {
            &&& result == Err::<(), AuthError>(e)
            &&& post == pre
        },
    }
}

/// What `request_magic_link` does.
pub open spec fn request_magic_link_post(
    pre: ServiceView,
    post: ServiceView,
    email: Seq<char>,
    now: u64,
    result: Result<Seq<char>, AuthError>,
) -> bool {
    match result {
        Ok(token) => {
            &&& email_taken(pre.users, email)
            &&& minted_as(token, pre.tokens_issued)
            &&& !pre.tokens.contains_key(token)
            &&& post == with_token(
                pre,
                email,
                TokenPurpose::MagicLink,
                pre.config.magic_link_ttl,
                MailKind::MagicLink,
                now,
                token,
            )
        },
        Err(e) => {
            &&& post == pre
            &&& !email_taken(pre.users, email)
            &&& e == AuthError::UserNotFound
        },
    }
}

/// What `redeem_magic_link` does.
pub open spec fn redeem_magic_link_post(
    pre: ServiceView,
    post: ServiceView,
    token: Seq<char>,
    now: u64,
    result: Result<Seq<char>, AuthError>,
) -> bool {
    match token_status(pre.tokens, token, TokenPurpose::MagicLink, now) {
        Ok(user_id) => {
            &&& result matches Ok(session_id)
            &&& minted_as(session_id, pre.sessions_created)
            &&& !pre.sessions.contains_key(session_id)
            &&& post == ServiceView {
                tokens: pre.tokens.insert(token, spent(pre.tokens[token])),
                sessions: pre.sessions.insert(
                    session_id,
                    opened(user_id, now, pre.config.session_window),
                ),
                sessions_created: pre.sessions_created + 1,
                ..pre
            }
        },
        Err(e) => {
            &&& result == Err::<Seq<char>, AuthError>(e)
            &&& post == pre
        },
    }
}

/// What `authenticate` does, for a request that presents `bearer` in its
/// `Authorization` header and `cookie` as its session cookie.
pub open spec fn authenticate_post(
    pre: ServiceView,
    post: ServiceView,
    bearer: Option<Seq<char>>,
    cookie: Option<Seq<char>>,
    now: u64,
    context: AuthContext,
) -> bool {
    let used = chosen(bearer, cookie, context.source);
    &&& context.source == source_of(pre.users, pre.sessions, bearer, cookie, now)
    &&& context.user_view() == user_after(pre.users, pre.sessions, used)
    &&& post == ServiceView {
        sessions: sessions_after(pre.sessions, used, now, pre.config.session_window),
        ..pre
    }
}

/// A registration as plain values.
pub open spec fn registration_view(
    result: Result<(UserRecord, String), AuthError>,
) -> Result<(UserView, Seq<char>), AuthError> {
    match result {
        Ok((user, session_id)) => Ok((user@, session_id@)),
        Err(e) => Err(e),
    }
}

/// A result that carries a session identifier or a token, as plain values.
pub open spec fn text_view(result: Result<String, AuthError>) -> Result<Seq<char>, AuthError> {
    match result {
        Ok(text) => Ok(text@),
        Err(e) => Err(e),
    }
}

/// The authentication core of one process.
pub struct AuthService {
    users: CredentialStore,
    sessions: SessionManager,
    tokens: TokenIssuer,
    outbox: Outbox,
    config: AuthConfig,
}

impl View for AuthService {
    type V = ServiceView;

    closed spec fn view(&self) -> ServiceView {
        ServiceView {
            users: self.users@,
            sessions: self.sessions@,
            tokens: self.tokens@,
            outbox: self.outbox@,
            config: self.config,
            sessions_created: self.sessions.created(),
            tokens_issued: self.tokens.count_issued(),
        }
    }
}

impl AuthService {
    /// Each of the three stores is consistent by itself.
    pub closed spec fn stores_wf(&self) -> bool {
        &&& self.users.wf()
        &&& self.sessions.wf()
        &&& self.tokens.wf()
        &&& self.sessions.inactivity_window() == self.config.session_window
    }

    /// The stores are consistent, each by itself and with each other.
    pub open spec fn wf(&self) -> bool {
        &&& self.stores_wf()
        &&& state_wf(self@)
    }

    /// Neither the sessions nor the tokens have used up their serial numbers.
    pub open spec fn has_room(&self) -> bool {
        &&& self@.sessions_created < u64::MAX
        &&& self@.tokens_issued < u64::MAX
    }

    /// A service without accounts, sessions, tokens or mail.
    pub fn new(config: AuthConfig) -> (service: Self)
        ensures
            service.wf(),
            service.has_room(),
            service@ == (ServiceView {
                users: Seq::empty(),
                sessions: Map::empty(),
                tokens: Map::empty(),
                outbox: Seq::empty(),
                config,
                sessions_created: 0,
                tokens_issued: 0,
            }),
    {
        AuthService {
            users: CredentialStore::new(),
            sessions: SessionManager::new(config.session_window),
            tokens: TokenIssuer::new(),
            outbox: Outbox::new(),
            config,
        }
    }

    /// Decides [`AuthService::has_room`].
    pub fn check_room(&self) -> (room: bool)
        ensures
            room == self.has_room(),
    {
        self.sessions.has_room() && self.tokens.has_room()
    }

    /// The accounts.
    pub fn users(&self) -> (users: &CredentialStore)
        requires
            self.wf(),
        ensures
            users.wf(),
            users@ == self@.users,
    {
        &self.users
    }

    /// The sessions.
    pub fn sessions(&self) -> (sessions: &SessionManager)
        requires
            self.wf(),
        ensures
            sessions.wf(),
            sessions@ == self@.sessions,
            sessions.inactivity_window() == self@.config.session_window,
    {
        &self.sessions
    }

    /// The tokens.
    pub fn tokens(&self) -> (tokens: &TokenIssuer)
        requires
            self.wf(),
        ensures
            tokens.wf(),
            tokens@ == self@.tokens,
    {
        &self.tokens
    }

    /// The durations that the service was set up with.
    pub fn config(&self) -> (config: AuthConfig)
        ensures
            config == self@.config,
    {
        self.config
    }

    /// Creates an account and logs it in: the account is stored, a session is
    /// created for it, and its welcome message is queued.
    pub fn register(
        &mut self,
        email: &str,
        password: &str,
        now: u64,
    ) -> (result: Result<(UserRecord, String), AuthError>)
        requires
            old(self).wf(),
            old(self).has_room(),
        ensures
            final(self).wf(),
            register_post(
                old(self)@,
                final(self)@,
                email@,
                password@,
                now,
                registration_view(result),
            ),
    {
        let user = match self.users.create_user(email, password, now, &mut self.outbox) {
            Ok(user) => user,
            Err(e) => {
                return Err(e);
            },
        };
        let session_id = self.sessions.create(user.id, now);
        proof {
            lemma_refs_live_kept(old(self)@, self@);
        }
        Ok((user, session_id))
    }

    /// Checks credentials and creates a session for the account.
    pub fn login(
        &mut self,
        email: &str,
        password: &str,
        now: u64,
    ) -> (result: Result<String, AuthError>)
        requires
            old(self).wf(),
            old(self).has_room(),
        ensures
            final(self).wf(),
            login_post(old(self)@, final(self)@, email@, password@, now, text_view(result)),
    {
        let user = match self.users.verify_password(email, password) {
            Ok(user) => user,
            Err(e) => {
                return Err(e);
            },
        };
        let session_id = self.sessions.create(user.id, now);
        proof {
            lemma_refs_live_kept(old(self)@, self@);
        }
        Ok(session_id)
    }

    /// Ends a session. Ending a session that does not exist changes nothing.
    pub fn logout(&mut self, session_id: &str)
        requires
            old(self).wf(),
        ensures
            final(self).wf(),
            logout_post(old(self)@, final(self)@, session_id@),
    {
        self.sessions.destroy(session_id);
        proof {
            lemma_refs_live_kept(old(self)@, self@);
        }
    }

    /// Gives an account a new password, after its old one was verified again.
    pub fn change_password(
        &mut self,
        user_id: u64,
        old_password: &str,
        new_password: &str,
    ) -> (result: Result<(), AuthError>)
        requires
            old(self).wf(),
            new_password.spec_bytes().len() <= MAX_HASHABLE_BYTES,
        ensures
            final(self).wf(),
            change_password_post(
                old(self)@,
                final(self)@,
                user_id,
                old_password@,
                new_password@,
                result,
            ),
    {
        let user = match self.users.find_by_id(user_id) {
            Ok(user) => user,
            Err(e) => {
                return Err(e);
            },
        };
        assert(email_taken(self.users@, user.email@) && account_of(self.users@, user.email@)
            == user_id) by {
            assert(self.users@[user_id as int].email == user.email@);
        }
        match self.users.verify_password(user.email.as_str(), old_password) {
            Ok(_) => {},
            Err(e) => {
                return Err(e);
            },
        }
        let result = self.users.update_password(user_id, new_password, &mut self.outbox);
        proof {
            lemma_refs_live_kept(old(self)@, self@);
        }
        result
    }

    /// Starts a password reset. If an account is registered under `email`, a
    /// reset token is issued and queued as a letter to it. The caller is told
    /// nothing either way.
    pub fn request_password_reset(&mut self, email: &str, now: u64)
        requires
            old(self).wf(),
            old(self).has_room(),
        ensures
            final(self).wf(),
            request_password_reset_post(old(self)@, final(self)@, email@, now),
    {
        match self.users.find_by_email(email) {
            Ok(user) => {
                let token = self.tokens.issue(
                    user.id,
                    TokenPurpose::PasswordReset,
                    self.config.reset_ttl,
                    now,
                );
                self.outbox.push_letter(
                    user.email.as_str(),
                    MailKind::PasswordReset,
                    token.as_str(),
                );
                proof {
                    lemma_refs_live_kept(old(self)@, self@);
                }
            },
            Err(_) => {},
        }
    }

    /// Says whether `token` could be redeemed for a password reset now. The
    /// token stays as it is.
    pub fn verify_reset_token(&self, token: &str, now: u64) -> (good: bool)
        requires
            self.wf(),
        ensures
            good == reset_token_good(self@, token@, now),
    {
        self.tokens.verify(token, TokenPurpose::PasswordReset, now).is_ok()
    }

    /// Completes a password reset: the token is consumed, and the account it
    /// was issued for gets the new password.
    pub fn confirm_password_reset(
        &mut self,
        token: &str,
        new_password: &str,
        now: u64,
    ) -> (result: Result<(), AuthError>)
        requires
            old(self).wf(),
            new_password.spec_bytes().len() <= MAX_HASHABLE_BYTES,
        ensures
            final(self).wf(),
            confirm_password_reset_post(
                old(self)@,
                final(self)@,
                token@,
                new_password@,
                now,
                result,
            ),
    {
        let user_id = match self.tokens.redeem(token, TokenPurpose::PasswordReset, now) {
            Ok(user_id) => user_id,
            Err(e) => {
                return Err(e);
            },
        };
        let result = self.users.update_password(user_id, new_password, &mut self.outbox);
        proof {
            lemma_refs_live_kept(old(self)@, self@);
        }
        result
    }

    /// Issues a magic-link token for the account registered under `email`,
    /// queues it as a letter to the account, and returns it.
    pub fn request_magic_link(
        &mut self,
        email: &str,
        now: u64,
    ) -> (result: Result<String, AuthError>)
        requires
            old(self).wf(),
            old(self).has_room(),
        ensures
            final(self).wf(),
            request_magic_link_post(old(self)@, final(self)@, email@, now, text_view(result)),
    {
        let user = match self.users.find_by_email(email) {
            Ok(user) => user,
            Err(e) => {
                return Err(e);
            },
        };
        let token = self.tokens.issue(
            user.id,
            TokenPurpose::MagicLink,
            self.config.magic_link_ttl,
            now,
        );
        self.outbox.push_letter(user.email.as_str(), MailKind::MagicLink, token.as_str());
        proof {
            lemma_refs_live_kept(old(self)@, self@);
        }
        Ok(token)
    }

    /// Redeems a magic-link token: the token is consumed, and a session is
    /// created for the account it was issued for.
    pub fn redeem_magic_link(
        &mut self,
        token: &str,
        now: u64,
    ) -> (result: Result<String, AuthError>)
        requires
            old(self).wf(),
            old(self).has_room(),
        ensures
            final(self).wf(),
            redeem_magic_link_post(old(self)@, final(self)@, token@, now, text_view(result)),
    {
        let user_id = match self.tokens.redeem(token, TokenPurpose::MagicLink, now) {
            Ok(user_id) => user_id,
            Err(e) => {
                return Err(e);
            },
        };
        let session_id = self.sessions.create(user_id, now);
        proof {
            lemma_refs_live_kept(old(self)@, self@);
        }
        Ok(session_id)
    }

    /// Classifies a request by the value of its `Authorization` header and
    /// the session identifier in its cookie, and touches the session that its
    /// identity rests on.
    pub fn authenticate(
        &mut self,
        authorization: Option<&str>,
        session_cookie: Option<&str>,
        now: u64,
    ) -> (context: AuthContext)
        requires
            old(self).wf(),
        ensures
            final(self).wf(),
            authenticate_post(
                old(self)@,
                final(self)@,
                presented_bearer(authorization),
                presented(session_cookie),
                now,
                context,
            ),
    {
        let context = classify(&self.users, &mut self.sessions, authorization, session_cookie, now);
        proof {
            lemma_refs_live_kept(old(self)@, self@);
        }
        context
    }

    /// Classifies a request by the values of its `Authorization` and `Cookie`
    /// headers, and touches the session that its identity rests on.
    pub fn authenticate_request(
        &mut self,
        authorization: Option<&str>,
        cookie: Option<&str>,
        now: u64,
    ) -> (context: AuthContext)
        requires
            old(self).wf(),
        ensures
            final(self).wf(),
            authenticate_post(
                old(self)@,
                final(self)@,
                presented_bearer(authorization),
                presented_cookie(cookie),
                now,
                context,
            ),
    {
        let context = classify_request(&self.users, &mut self.sessions, authorization, cookie, now);
        proof {
            lemma_refs_live_kept(old(self)@, self@);
        }
        context
    }

    /// Removes every session that has expired at `now`, and says how many
    /// there were.
    pub fn sweep_expired_sessions(&mut self, now: u64) -> (count: usize)
        requires
            old(self).wf(),
        ensures
            final(self).wf(),
            final(self)@ == (ServiceView {
                sessions: unexpired(old(self)@.sessions, now),
                ..old(self)@
            }),
            count == old(self)@.sessions.dom().len() - final(self)@.sessions.dom().len(),
    {
        let count = self.sessions.sweep_expired(now);
        proof {
            lemma_refs_live_kept(old(self)@, self@);
        }
        count
    }

    /// Hands the waiting mail over for delivery, oldest first, and leaves the
    /// outbox empty.
    pub fn take_mail(&mut self) -> (mails: Vec<Mail>)
        requires
            old(self).wf(),
        ensures
            final(self).wf(),
            mails@.map_values(|m: Mail| m@) == old(self)@.outbox,
            final(self)@ == (ServiceView { outbox: Seq::empty(), ..old(self)@ }),
    {
        self.outbox.drain()
    }
}

} // verus!
