//! What holds of the core across several operations.
//!
//! Each statement speaks of the states and results that the operations'
//! contracts relate, so it holds of every run of the executable code.

use vstd::prelude::*;
use crate::classifier::authenticates;
use crate::classifier::AuthContext;
use crate::classifier::AuthSource;
use crate::clock::expiry;
use crate::credentials::account_of;
use crate::credentials::credentials_hold;
use crate::credentials::email_taken;
use crate::credentials::users_wf;
use crate::credentials::UserView;
use crate::entity::refused;
use crate::entity::AuthResponseView;
use crate::error::AuthError;
use crate::handlers::answer_login_post;
use crate::ledger::lemma_one_serial;
use crate::ledger::minted_as;
use crate::password::password_matches;
use crate::service::authenticate_post;
use crate::service::confirm_password_reset_post;
use crate::service::login_post;
use crate::service::logout_post;
use crate::service::register_post;
use crate::service::reset_token_good;
use crate::service::state_wf;
use crate::service::ServiceView;
use crate::session::session_status;
use crate::session::touch_post;
use crate::session::SessionData;
use crate::text::email_key;
use crate::token::redeem_post;
use crate::token::token_status;
use crate::token::TokenData;
use crate::token::TokenPurpose;

verus! {

/// Registration keeps the accounts consistent and makes the new credentials
/// hold.
pub proof fn lemma_registered_credentials_hold(
    pre: ServiceView,
    post: ServiceView,
    email: Seq<char>,
    password: Seq<char>,
    now: u64,
    user: UserView,
    session_id: Seq<char>,
)
    requires
        state_wf(pre),
        register_post(pre, post, email, password, now, Ok((user, session_id))),
    ensures
        users_wf(post.users),
        email_taken(post.users, email),
        account_of(post.users, email) == pre.users.len(),
        user.id == pre.users.len(),
        credentials_hold(post.users, email, password),
{
    let place = pre.users.len() as int;
    assert(post.users[place] == user);
    assert(users_wf(post.users)) by {
        assert forall|i: int| 0 <= i < post.users.len() implies (#[trigger] post.users[i]).id
            == i by {
            if i < place {
                assert(post.users[i] == pre.users[i]);
            }
        }
        assert forall|i: int, j: int|
            0 <= i < post.users.len() && 0 <= j < post.users.len() && i != j implies email_key(
            (#[trigger] post.users[i]).email,
        ) != email_key((#[trigger] post.users[j]).email) by {
            if i < place {
                assert(post.users[i] == pre.users[i]);
            }
            if j < place {
                assert(post.users[j] == pre.users[j]);
            }
        }
    }
}

/// Whoever registered can log in: for every registration that succeeds, a
/// login with the same address and password succeeds, and the session that it
/// returns authenticates the account until its inactivity window has passed.
pub proof fn law_register_then_login(
    pre: ServiceView,
    registered: ServiceView,
    post: ServiceView,
    email: Seq<char>,
    password: Seq<char>,
    registered_at: u64,
    login_at: u64,
    user: UserView,
    first_session: Seq<char>,
    login: Result<Seq<char>, AuthError>,
)
    requires
        state_wf(pre),
        register_post(pre, registered, email, password, registered_at, Ok((user, first_session))),
        login_post(registered, post, email, password, login_at, login),
    ensures
        login is Ok,
        post.sessions.contains_key(login->Ok_0),
        post.sessions[login->Ok_0].user_id == user.id,
        forall|t: u64|
            t < expiry(login_at, post.config.session_window) ==> #[trigger] authenticates(
                post.users,
                post.sessions,
                Some(login->Ok_0),
                t,
            ),
{
    lemma_registered_credentials_hold(
        pre,
        registered,
        email,
        password,
        registered_at,
        user,
        first_session,
    );
}

/// A login that fails says nothing of why: for an address that no account
/// has and for a wrong password to an address that an account has, the error
/// is the same one, and the state stays as it was.
pub proof fn law_login_failures_alike(
    pre: ServiceView,
    post_unknown: ServiceView,
    post_wrong: ServiceView,
    unknown_email: Seq<char>,
    some_password: Seq<char>,
    known_email: Seq<char>,
    wrong_password: Seq<char>,
    now_unknown: u64,
    now_wrong: u64,
    unknown: Result<Seq<char>, AuthError>,
    wrong: Result<Seq<char>, AuthError>,
)
    requires
        !email_taken(pre.users, unknown_email),
        email_taken(pre.users, known_email),
        !password_matches(
            wrong_password,
            pre.users[account_of(pre.users, known_email)].password_hash,
        ),
        login_post(pre, post_unknown, unknown_email, some_password, now_unknown, unknown),
        login_post(pre, post_wrong, known_email, wrong_password, now_wrong, wrong),
    ensures
        unknown == Err::<Seq<char>, AuthError>(AuthError::InvalidCredentials),
        wrong == unknown,
        post_unknown == pre,
        post_wrong == pre,
{
}

/// The answers to two logins that fail are the same answer, field by field,
/// whether the address was unknown or the password was wrong.
pub proof fn law_login_answers_alike(
    pre: ServiceView,
    post_unknown: ServiceView,
    post_wrong: ServiceView,
    unknown_email: Seq<char>,
    some_password: Seq<char>,
    known_email: Seq<char>,
    wrong_password: Seq<char>,
    now_unknown: u64,
    now_wrong: u64,
    unknown: AuthResponseView,
    wrong: AuthResponseView,
)
    requires
        !email_taken(pre.users, unknown_email),
        email_taken(pre.users, known_email),
        !password_matches(
            wrong_password,
            pre.users[account_of(pre.users, known_email)].password_hash,
        ),
        answer_login_post(pre, post_unknown, unknown_email, some_password, now_unknown, unknown),
        answer_login_post(pre, post_wrong, known_email, wrong_password, now_wrong, wrong),
    ensures
        unknown == refused(AuthError::InvalidCredentials),
        wrong == unknown,
{
}

/// A session that is left alone for its inactivity window expires: after a
/// touch that succeeded at `touched_at`, a touch at or after `touched_at`
/// plus the window fails with `SessionExpired`, and so does every later one.
pub proof fn law_idle_session_expires(
    pre: Map<Seq<char>, SessionData>,
    mid: Map<Seq<char>, SessionData>,
    post: Map<Seq<char>, SessionData>,
    session_id: Seq<char>,
    window: u64,
    touched_at: u64,
    later: u64,
    first: SessionData,
    second: Result<SessionData, AuthError>,
)
    requires
        touch_post(pre, mid, session_id, touched_at, window, Ok(first)),
        later >= touched_at + window,
        touch_post(mid, post, session_id, later, window, second),
    ensures
        second == Err::<SessionData, AuthError>(AuthError::SessionExpired),
        post == mid,
        forall|t: u64|
            t >= later ==> #[trigger] session_status(post, session_id, t) == Err::<
                SessionData,
                AuthError,
            >(AuthError::SessionExpired),
{
}

/// A token is redeemed at most once: after a redemption that succeeded, every
/// redemption of the same token fails with `TokenAlreadyConsumed`, at whatever
/// time and for whatever purpose it was issued.
pub proof fn law_redeem_once(
    pre: Map<Seq<char>, TokenData>,
    mid: Map<Seq<char>, TokenData>,
    post: Map<Seq<char>, TokenData>,
    token: Seq<char>,
    purpose: TokenPurpose,
    first_at: u64,
    second_at: u64,
    first: u64,
    second: Result<u64, AuthError>,
)
    requires
        redeem_post(pre, mid, token, purpose, first_at, Ok(first)),
        redeem_post(mid, post, token, purpose, second_at, second),
    ensures
        second == Err::<u64, AuthError>(AuthError::TokenAlreadyConsumed),
        post == mid,
{
}

/// Of two redemptions of one token, whichever comes first, exactly one
/// succeeds if the token could be redeemed at all, and none otherwise.
pub proof fn law_racing_redemptions(
    pre: Map<Seq<char>, TokenData>,
    mid: Map<Seq<char>, TokenData>,
    post: Map<Seq<char>, TokenData>,
    token: Seq<char>,
    purpose: TokenPurpose,
    now: u64,
    first: Result<u64, AuthError>,
    second: Result<u64, AuthError>,
)
    requires
        redeem_post(pre, mid, token, purpose, now, first),
        redeem_post(mid, post, token, purpose, now, second),
    ensures
        !(first is Ok && second is Ok),
        token_status(pre, token, purpose, now) is Ok ==> first is Ok && second == Err::<
            u64,
            AuthError,
        >(AuthError::TokenAlreadyConsumed),
        token_status(pre, token, purpose, now) is Err ==> first is Err && second == first,
{
}

/// A reset token confirms one reset: after a confirmation that succeeded, a
/// second confirmation with the same token fails with `TokenAlreadyConsumed`
/// and changes nothing.
pub proof fn law_confirm_reset_once(
    pre: ServiceView,
    mid: ServiceView,
    post: ServiceView,
    token: Seq<char>,
    first_password: Seq<char>,
    second_password: Seq<char>,
    first_at: u64,
    second_at: u64,
    second: Result<(), AuthError>,
)
    requires
        confirm_password_reset_post(pre, mid, token, first_password, first_at, Ok(())),
        confirm_password_reset_post(mid, post, token, second_password, second_at, second),
    ensures
        second == Err::<(), AuthError>(AuthError::TokenAlreadyConsumed),
        post == mid,
{
}

/// Checking a reset token does not use it up. `verify_reset_token` cannot
/// change the state, so the state at the confirmation is the state at the
/// checks: if the token was good at `checked_at` and has not expired at
/// `confirmed_at`, the confirmation succeeds.
pub proof fn law_verify_keeps_token(
    state: ServiceView,
    post: ServiceView,
    token: Seq<char>,
    new_password: Seq<char>,
    checked_at: u64,
    confirmed_at: u64,
    result: Result<(), AuthError>,
)
    requires
        reset_token_good(state, token, checked_at),
        confirmed_at < state.tokens[token].expires_at,
        confirm_password_reset_post(state, post, token, new_password, confirmed_at, result),
    ensures
        result is Ok,
{
}

/// An expired session never authenticates: a request that presents nothing
/// but identifiers of sessions that are missing or have expired is anonymous,
/// and it changes nothing.
pub proof fn law_expired_session_never_authenticates(
    pre: ServiceView,
    post: ServiceView,
    bearer: Option<Seq<char>>,
    cookie: Option<Seq<char>>,
    now: u64,
    context: AuthContext,
)
    requires
        bearer matches Some(id) ==> session_status(pre.sessions, id, now) is Err,
        cookie matches Some(id) ==> session_status(pre.sessions, id, now) is Err,
        authenticate_post(pre, post, bearer, cookie, now, context),
    ensures
        context.source == AuthSource::Anonymous,
        context.user is None,
        post == pre,
{
}

/// Logout is final: after it, the session authenticates no request, whether
/// it is presented as a bearer token or in the cookie.
pub proof fn law_logout_ends_session(
    pre: ServiceView,
    mid: ServiceView,
    post: ServiceView,
    session_id: Seq<char>,
    now: u64,
    context: AuthContext,
)
    requires
        logout_post(pre, mid, session_id),
        authenticate_post(mid, post, Some(session_id), Some(session_id), now, context),
    ensures
        context.source == AuthSource::Anonymous,
        context.user is None,
{
}

/// An identifier is issued once: tokens that were minted under different
/// serial numbers differ. A session that was destroyed, or a token that was
/// consumed, therefore never comes back under a later creation.
pub proof fn law_identifiers_never_return(
    earlier: Seq<char>,
    earlier_serial: nat,
    later: Seq<char>,
    later_serial: nat,
)
    requires
        minted_as(earlier, earlier_serial),
        minted_as(later, later_serial),
        earlier_serial != later_serial,
    ensures
        earlier != later,
{
    if earlier == later {
        lemma_one_serial(earlier, earlier_serial as u64, later_serial as u64);
    }
}

/// Every kind of failure can be told from every other by its message.
pub proof fn law_failures_distinguishable(a: AuthError, b: AuthError)
    requires
        a != b,
    ensures
        a.message_text() != b.message_text(),
        refused(a) != refused(b),
{
    reveal_strlit("Email already registered");
    reveal_strlit("Password is too weak");
    reveal_strlit("Invalid credentials");
    reveal_strlit("User not found");
    reveal_strlit("Session not found");
    reveal_strlit("Session expired");
    reveal_strlit("Invalid token");
    reveal_strlit("Token expired");
    reveal_strlit("Token already used");
    reveal_strlit("Unauthorized");
    if a.message_text().len() == b.message_text().len() {
        assert(a.message_text()[0] != b.message_text()[0]);
    }
}

/// The bearer token wins: a request that presents a bearer token and a
/// session cookie, both of which authenticate, is given the identity of the
/// bearer token's session, and the cookie's session is not touched unless it
/// is the same one.
pub proof fn law_bearer_precedence(
    pre: ServiceView,
    post: ServiceView,
    bearer: Seq<char>,
    cookie: Seq<char>,
    now: u64,
    context: AuthContext,
)
    requires
        authenticates(pre.users, pre.sessions, Some(bearer), now),
        authenticates(pre.users, pre.sessions, Some(cookie), now),
        authenticate_post(pre, post, Some(bearer), Some(cookie), now, context),
    ensures
        context.source == AuthSource::Bearer,
        context.user_view() == Some(pre.users[pre.sessions[bearer].user_id as int]),
        cookie != bearer ==> post.sessions[cookie] == pre.sessions[cookie],
{
}

} // verus!
