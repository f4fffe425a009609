//! The request classifier: which identity, if any, a request carries.
//!
//! A request may present a session identifier in two places: as a bearer
//! token in its `Authorization` header, and in its session cookie. The bearer
//! token is tried first. The cookie is tried only if the bearer token is
//! missing or does not authenticate.

use vstd::prelude::*;
use vstd::string::StrSliceExecFns;
use crate::cookies::session_cookie;
use crate::cookies::session_cookie_of;
use crate::credentials::CredentialStore;
use crate::credentials::UserRecord;
use crate::credentials::UserView;
use crate::error::AuthError;
use crate::session::session_status;
use crate::session::touched;
use crate::session::SessionData;
use crate::session::SessionManager;
use crate::text::same_text;

verus! {

/// Where the identity of a request was found.
#[derive(Clone, Copy, Debug, PartialEq, Eq, Structural)]
pub enum AuthSource {
    /// In the `Authorization` header.
    Bearer,
    /// In the session cookie.
    Cookie,
    /// Nowhere: the request is anonymous.
    Anonymous,
}

impl AuthSource {
    /// How the source is named to a person.
    pub open spec fn label_text(self) -> Seq<char> {
        match self {
            AuthSource::Bearer => "Authorization Header (Bearer)"@,
            AuthSource::Cookie => "Session Cookie"@,
            AuthSource::Anonymous => "None"@,
        }
    }

    /// How the source is named to a person.
    pub fn label(&self) -> (text: &'static str)
        ensures
            text@ == self.label_text(),
    {
        match self {
            AuthSource::Bearer => "Authorization Header (Bearer)",
            AuthSource::Cookie => "Session Cookie",
            AuthSource::Anonymous => "None",
        }
    }
}

/// The identity of one request. It is computed for the request and never
/// stored.
#[derive(Debug, Clone)]
pub struct AuthContext {
    /// The account that the request acts for, if it carries an identity.
    pub user: Option<UserRecord>,
    /// Where the identity was found.
    pub source: AuthSource,
}

impl AuthContext {
    /// The account of the context, as plain values.
    pub open spec fn user_view(&self) -> Option<UserView> {
        match self.user {
            Some(u) => Some(u@),
            None => None,
        }
    }

    /// The context of a request without identity.
    pub fn anonymous() -> (context: Self)
        ensures
            context.user is None,
            context.source == AuthSource::Anonymous,
    {
        AuthContext { user: None, source: AuthSource::Anonymous }
    }

    /// Whether the request carries an identity.
    pub fn is_authenticated(&self) -> (yes: bool)
        ensures
            yes == self.user is Some,
    {
        self.user.is_some()
    }

    /// The account of the request, for a route that requires one.
    pub fn require_user(self) -> (result: Result<UserRecord, AuthError>)
        ensures
            match result {
                Ok(user) => self.user == Some(user),
                Err(e) => e == AuthError::Unauthorized && self.user is None,
            },
    {
        match self.user {
            Some(user) => Ok(user),
            None => Err(AuthError::Unauthorized),
        }
    }
}

/// The token in the value of an `Authorization` header: what follows the
/// scheme `Bearer` and one space.
pub open spec fn bearer_of(header: Seq<char>) -> Option<Seq<char>> {
    if header.len() >= 7 && header.subrange(0, 7) == "Bearer "@ {
        Some(header.subrange(7, header.len() as int))
    } else {
        None
    }
}

/// Computes [`bearer_of`].
pub fn bearer_token(header: &str) -> (token: Option<&str>)
    ensures
        match token {
            Some(t) => bearer_of(header@) == Some(t@),
            None => bearer_of(header@) == None::<Seq<char>>,
        },
{
    let n = header.unicode_len();
    if n < 7 {
        return None;
    }
    if same_text(header.substring_char(0, 7), "Bearer ") {
        Some(header.substring_char(7, n))
    } else {
        None
    }
}

/// What a header or cookie that may be missing holds, as plain values.
pub open spec fn presented(value: Option<&str>) -> Option<Seq<char>> {
    match value {
        Some(s) => Some(s@),
        None => None,
    }
}

/// The bearer token that a request with this `Authorization` header presents.
pub open spec fn presented_bearer(authorization: Option<&str>) -> Option<Seq<char>> {
    match authorization {
        Some(h) => bearer_of(h@),
        None => None,
    }
}

/// The session identifier that a request with this `Cookie` header presents.
pub open spec fn presented_cookie(cookie: Option<&str>) -> Option<Seq<char>> {
    match cookie {
        Some(h) => session_cookie_of(h@),
        None => None,
    }
}

/// Whether the session identifier `id`, if one was presented, authenticates a
/// request at `now`: the session exists, has not expired, and belongs to an
/// account.
pub open spec fn authenticates(
    users: Seq<UserView>,
    sessions: Map<Seq<char>, SessionData>,
    id: Option<Seq<char>>,
    now: u64,
) -> bool {
    match id {
        Some(id) => session_status(sessions, id, now) is Ok && sessions[id].user_id < users.len(),
        None => false,
    }
}

/// Where the identity of a request is found: in the bearer token if that
/// authenticates, else in the cookie if that does, else nowhere.
pub open spec fn source_of(
    users: Seq<UserView>,
    sessions: Map<Seq<char>, SessionData>,
    bearer: Option<Seq<char>>,
    cookie: Option<Seq<char>>,
    now: u64,
) -> AuthSource {
    if authenticates(users, sessions, bearer, now) {
        AuthSource::Bearer
    } else if authenticates(users, sessions, cookie, now) {
        AuthSource::Cookie
    } else {
        AuthSource::Anonymous
    }
}

/// The session identifier that a context from `source` rests on.
pub open spec fn chosen(
    bearer: Option<Seq<char>>,
    cookie: Option<Seq<char>>,
    source: AuthSource,
) -> Option<Seq<char>> {
    match source {
        AuthSource::Bearer => bearer,
        AuthSource::Cookie => cookie,
        AuthSource::Anonymous => None,
    }
}

/// The sessions after a request that rests on `used`: that session was
/// touched, and no other.
pub open spec fn sessions_after(
    sessions: Map<Seq<char>, SessionData>,
    used: Option<Seq<char>>,
    now: u64,
    window: u64,
) -> Map<Seq<char>, SessionData> {
    match used {
        Some(id) => sessions.insert(id, touched(sessions[id], now, window)),
        None => sessions,
    }
}

/// The account of a request that rests on `used`.
pub open spec fn user_after(
    users: Seq<UserView>,
    sessions: Map<Seq<char>, SessionData>,
    used: Option<Seq<char>>,
) -> Option<UserView> {
    match used {
        Some(id) => Some(users[sessions[id].user_id as int]),
        None => None,
    }
}

fn try_session(
    users: &CredentialStore,
    sessions: &mut SessionManager,
    id: Option<&str>,
    now: u64,
) -> (user: Option<UserRecord>)
    requires
        users.wf(),
        old(sessions).wf(),
    ensures
        final(sessions).wf(),
        final(sessions).inactivity_window() == old(sessions).inactivity_window(),
        final(sessions).created() == old(sessions).created(),
        match user {
            Some(u) => {
                &&& authenticates(users@, old(sessions)@, presented(id), now)
                &&& Some(u@) == user_after(users@, old(sessions)@, presented(id))
                &&& final(sessions)@ == sessions_after(
                    old(sessions)@,
                    presented(id),
                    now,
                    old(sessions).inactivity_window(),
                )
            },
            None => {
                &&& !authenticates(users@, old(sessions)@, presented(id), now)
                &&& final(sessions)@ == old(sessions)@
            },
        },
{
    match id {
        None => None,
        Some(id) => match sessions.status(id, now) {
            Err(_) => None,
            Ok(data) => match users.find_by_id(data.user_id) {
                Err(_) => None,
                Ok(user) => {
                    let _ = sessions.touch(id, now);
                    Some(user)
                },
            },
        },
    }
}

/// Classifies a request by the value of its `Authorization` header and the
/// value of its session cookie, either of which may be missing. The session
/// that the context rests on is touched; no other session changes.
pub fn classify(
    users: &CredentialStore,
    sessions: &mut SessionManager,
    authorization: Option<&str>,
    session_cookie: Option<&str>,
    now: u64,
) -> (context: AuthContext)
    requires
        users.wf(),
        old(sessions).wf(),
    ensures
        final(sessions).wf(),
        final(sessions).inactivity_window() == old(sessions).inactivity_window(),
        final(sessions).created() == old(sessions).created(),
        context.source == source_of(
            users@,
            old(sessions)@,
            presented_bearer(authorization),
            presented(session_cookie),
            now,
        ),
        context.user_view() == user_after(
            users@,
            old(sessions)@,
            chosen(presented_bearer(authorization), presented(session_cookie), context.source),
        ),
        final(sessions)@ == sessions_after(
            old(sessions)@,
            chosen(presented_bearer(authorization), presented(session_cookie), context.source),
            now,
            old(sessions).inactivity_window(),
        ),
{
    let bearer = match authorization {
        Some(header) => bearer_token(header),
        None => None,
    };
    match try_session(users, sessions, bearer, now) {
        Some(user) => AuthContext { user: Some(user), source: AuthSource::Bearer },
        None => match try_session(users, sessions, session_cookie, now) {
            Some(user) => AuthContext { user: Some(user), source: AuthSource::Cookie },
            None => AuthContext::anonymous(),
        },
    }
}

/// Classifies a request by the values of its `Authorization` and `Cookie`
/// headers, either of which may be missing: the session cookie is read out of
/// the `Cookie` header, and the rest is [`classify`].
pub fn classify_request(
    users: &CredentialStore,
    sessions: &mut SessionManager,
    authorization: Option<&str>,
    cookie: Option<&str>,
    now: u64,
) -> (context: AuthContext)
    requires
        users.wf(),
        old(sessions).wf(),
    ensures
        final(sessions).wf(),
        final(sessions).inactivity_window() == old(sessions).inactivity_window(),
        final(sessions).created() == old(sessions).created(),
        context.source == source_of(
            users@,
            old(sessions)@,
            presented_bearer(authorization),
            presented_cookie(cookie),
            now,
        ),
        context.user_view() == user_after(
            users@,
            old(sessions)@,
            chosen(presented_bearer(authorization), presented_cookie(cookie), context.source),
        ),
        final(sessions)@ == sessions_after(
            old(sessions)@,
            chosen(presented_bearer(authorization), presented_cookie(cookie), context.source),
            now,
            old(sessions).inactivity_window(),
        ),
{
    let session_id = match cookie {
        Some(header) => session_cookie(header),
        None => None,
    };
    match &session_id {
        Some(id) => classify(users, sessions, authorization, Some(id.as_str()), now),
        None => classify(users, sessions, authorization, None, now),
    }
}

} // verus!
