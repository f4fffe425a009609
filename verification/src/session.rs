//! Server-side sessions with sliding expiry.
//!
//! A session is active from its creation until its inactivity window passes
//! without a [`SessionManager::touch`]; from then on it is expired, and every
//! touch says so. An active or expired session is gone for good once it is
//! destroyed or swept.

use vstd::prelude::*;
use crate::clock::deadline;
use crate::clock::expired;
use crate::clock::expiry;
use crate::clock::has_expired;
use crate::entropy::random_bytes;
use crate::entropy::SECRET_BYTES;
use crate::error::AuthError;
use crate::ledger::lemma_as_map_at;
use crate::ledger::lemma_token_text_shape;
use crate::ledger::minted_as;
use crate::ledger::position;
use crate::ledger::token_text;
use crate::ledger::Ledger;

verus! {

/// What the manager keeps of one session.
#[derive(Clone, Copy, Debug, PartialEq, Eq, Structural)]
pub struct SessionData {
    /// The account that the session authenticates.
    pub user_id: u64,
    /// When the session was created.
    pub created_at: u64,
    /// When the session was last created or touched.
    pub last_seen_at: u64,
    /// The first moment at which the session no longer authenticates.
    pub expires_at: u64,
}

/// A session as it is handed to the caller: its identifier and its record.
#[derive(Clone, Debug)]
pub struct Session {
    /// The opaque identifier that the client presents.
    pub session_id: String,
    /// The account that the session authenticates.
    pub user_id: u64,
    /// When the session was created.
    pub created_at: u64,
    /// When the session was last created or touched.
    pub last_seen_at: u64,
    /// The first moment at which the session no longer authenticates.
    pub expires_at: u64,
}

impl Session {
    /// The record of this session, without its identifier.
    pub open spec fn data(&self) -> SessionData {
        SessionData {
            user_id: self.user_id,
            created_at: self.created_at,
            last_seen_at: self.last_seen_at,
            expires_at: self.expires_at,
        }
    }
}

/// The record of a session created for `user_id` at `now`.
pub open spec fn opened(user_id: u64, now: u64, window: u64) -> SessionData {
    SessionData { user_id, created_at: now, last_seen_at: now, expires_at: expiry(now, window) }
}

/// The record of `session` after it was used at `now`: the window starts
/// again.
pub open spec fn touched(session: SessionData, now: u64, window: u64) -> SessionData {
    SessionData {
        user_id: session.user_id,
        created_at: session.created_at,
        last_seen_at: now,
        expires_at: expiry(now, window),
    }
}

/// Whether the session `session_id` authenticates a request at `now`, and if
/// not, why.
pub open spec fn session_status(
    sessions: Map<Seq<char>, SessionData>,
    session_id: Seq<char>,
    now: u64,
) -> Result<SessionData, AuthError> {
    if !sessions.contains_key(session_id) {
        Err(AuthError::SessionNotFound)
    } else if expired(sessions[session_id].expires_at, now) {
        Err(AuthError::SessionExpired)
    } else {
        Ok(sessions[session_id])
    }
}

/// What a touch of `session_id` at `now` does: a session that authenticates
/// gets its window anew and is returned as it is then; otherwise nothing
/// changes and the reason is returned.
pub open spec fn touch_post(
    pre: Map<Seq<char>, SessionData>,
    post: Map<Seq<char>, SessionData>,
    session_id: Seq<char>,
    now: u64,
    window: u64,
    result: Result<SessionData, AuthError>,
) -> bool {
    match session_status(pre, session_id, now) {
        Ok(session) => {
            &&& result == Ok::<SessionData, AuthError>(touched(session, now, window))
            &&& post == pre.insert(session_id, touched(session, now, window))
        },
        Err(e) => {
            &&& result == Err::<SessionData, AuthError>(e)
            &&& post == pre
        },
    }
}

/// The outcome of a touch as plain values.
pub open spec fn touch_view(result: Result<Session, AuthError>) -> Result<SessionData, AuthError> {
    match result {
        Ok(session) => Ok(session.data()),
        Err(e) => Err(e),
    }
}

/// The sessions of `sessions` that have not expired at `now`.
pub open spec fn unexpired(
    sessions: Map<Seq<char>, SessionData>,
    now: u64,
) -> Map<Seq<char>, SessionData> {
    Map::new(
        |id: Seq<char>| sessions.contains_key(id) && !expired(sessions[id].expires_at, now),
        |id: Seq<char>| sessions[id],
    )
}

/// The sessions of one process, by identifier.
pub struct SessionManager {
    ledger: Ledger<SessionData>,
    window: u64,
}

impl SessionManager {
    /// The sessions that exist, expired ones included, by identifier.
    pub closed spec fn view(&self) -> Map<Seq<char>, SessionData> {
        self.ledger@
    }

    /// The inactivity window, in seconds.
    pub closed spec fn inactivity_window(&self) -> u64 {
        self.window
    }

    /// How many sessions were ever created.
    pub closed spec fn created(&self) -> nat {
        self.ledger.minted()
    }

    /// The representation is consistent.
    pub closed spec fn wf(&self) -> bool {
        self.ledger.wf()
    }

    /// A manager without sessions, whose sessions will expire `window` seconds
    /// after their last use.
    pub fn new(window: u64) -> (manager: Self)
        ensures
            manager.wf(),
            manager@ == Map::<Seq<char>, SessionData>::empty(),
            manager.inactivity_window() == window,
            manager.created() == 0,
    {
        SessionManager { ledger: Ledger::new(), window }
    }

    /// The inactivity window, in seconds.
    pub fn window(&self) -> (window: u64)
        ensures
            window == self.inactivity_window(),
    {
        self.window
    }

    /// The number of sessions that exist, expired ones included.
    pub fn len(&self) -> (n: usize)
        requires
            self.wf(),
        ensures
            self@.dom().finite(),
            n == self@.dom().len(),
    {
        proof {
            self.ledger.lemma_distinct();
        }
        self.ledger.len()
    }

    /// Whether another session can be created: the serial numbers are not
    /// used up.
    pub fn has_room(&self) -> (room: bool)
        ensures
            room == (self.created() < u64::MAX),
    {
        self.ledger.has_room()
    }

    /// Creates a session for `user_id` whose identifier is made from `secret`.
    pub fn create_with_secret(
        &mut self,
        user_id: u64,
        now: u64,
        secret: &[u8],
    ) -> (session_id: String)
        requires
            old(self).wf(),
            old(self).created() < u64::MAX,
        ensures
            final(self).wf(),
            session_id@ == token_text(secret@, old(self).created() as u64),
            !old(self)@.contains_key(session_id@),
            final(self)@ == old(self)@.insert(
                session_id@,
                opened(user_id, now, old(self).inactivity_window()),
            ),
            final(self).inactivity_window() == old(self).inactivity_window(),
            final(self).created() == old(self).created() + 1,
    {
        let record = SessionData {
            user_id,
            created_at: now,
            last_seen_at: now,
            expires_at: deadline(now, self.window),
        };
        self.ledger.mint(secret, record)
    }

    /// Creates a session for `user_id` under a fresh random identifier.
    pub fn create(&mut self, user_id: u64, now: u64) -> (session_id: String)
        requires
            old(self).wf(),
            old(self).created() < u64::MAX,
        ensures
            final(self).wf(),
            minted_as(session_id@, old(self).created()),
            !old(self)@.contains_key(session_id@),
            final(self)@ == old(self)@.insert(
                session_id@,
                opened(user_id, now, old(self).inactivity_window()),
            ),
            final(self).inactivity_window() == old(self).inactivity_window(),
            final(self).created() == old(self).created() + 1,
    {
        let secret = random_bytes(SECRET_BYTES);
        proof {
            lemma_token_text_shape(secret@, self.created() as u64);
        }
        self.create_with_secret(user_id, now, secret.as_slice())
    }

    /// Uses the session: if it exists and has not expired, its window starts
    /// again at `now`. An expired session stays as it is, so that every later
    /// touch reports it as expired too.
    pub fn touch(&mut self, session_id: &str, now: u64) -> (result: Result<Session, AuthError>)
        requires
            old(self).wf(),
        ensures
            final(self).wf(),
            final(self).inactivity_window() == old(self).inactivity_window(),
            final(self).created() == old(self).created(),
            touch_post(
                old(self)@,
                final(self)@,
                session_id@,
                now,
                old(self).inactivity_window(),
                touch_view(result),
            ),
            result matches Ok(session) ==> session.session_id@ == session_id@,
    {
        match self.ledger.find(session_id) {
            None => Err(AuthError::SessionNotFound),
            Some(i) => {
                let current = *self.ledger.value_at(i);
                if has_expired(current.expires_at, now) {
                    Err(AuthError::SessionExpired)
                } else {
                    let expires_at = deadline(now, self.window);
                    let next = SessionData {
                        user_id: current.user_id,
                        created_at: current.created_at,
                        last_seen_at: now,
                        expires_at,
                    };
                    self.ledger.set_at(i, next);
                    Ok(
                        Session {
                            session_id: session_id.to_owned(),
                            user_id: current.user_id,
                            created_at: current.created_at,
                            last_seen_at: now,
                            expires_at,
                        },
                    )
                }
            },
        }
    }

    /// Looks the session up without using it.
    pub fn status(&self, session_id: &str, now: u64) -> (result: Result<SessionData, AuthError>)
        requires
            self.wf(),
        ensures
            result == session_status(self@, session_id@, now),
    {
        match self.ledger.find(session_id) {
            None => Err(AuthError::SessionNotFound),
            Some(i) => {
                let current = *self.ledger.value_at(i);
                if has_expired(current.expires_at, now) {
                    Err(AuthError::SessionExpired)
                } else {
                    Ok(current)
                }
            },
        }
    }

    /// Ends the session. Ending a session that does not exist changes nothing.
    pub fn destroy(&mut self, session_id: &str)
        requires
            old(self).wf(),
        ensures
            final(self).wf(),
            final(self)@ == old(self)@.remove(session_id@),
            final(self).inactivity_window() == old(self).inactivity_window(),
            final(self).created() == old(self).created(),
    {
        match self.ledger.find(session_id) {
            None => {
                assert(self@ =~= old(self)@.remove(session_id@));
            },
            Some(i) => {
                self.ledger.remove_at(i);
            },
        }
    }

    /// Removes every session that has expired at `now`, and says how many
    /// there were.
    pub fn sweep_expired(&mut self, now: u64) -> (count: usize)
        requires
            old(self).wf(),
        ensures
            final(self).wf(),
            final(self)@ == unexpired(old(self)@, now),
            count == old(self)@.dom().len() - final(self)@.dom().len(),
            final(self).inactivity_window() == old(self).inactivity_window(),
            final(self).created() == old(self).created(),
    {
        let ghost start = self.ledger;
        let total = self.ledger.len();
        let mut count: usize = 0;
        let mut i: usize = 0;
        proof {
            start.lemma_distinct();
        }
        while i < self.ledger.len()
            invariant
                self.ledger.wf(),
                self.window == old(self).window,
                self.ledger.minted() == start.minted(),
                i <= self.ledger.pairs().len(),
                total == start.pairs().len(),
                count + self.ledger.pairs().len() == total,
                forall|j: int| 0 <= j < i ==> !expired(self.ledger.pairs()[j].1.expires_at, now),
                unexpired(self.ledger@, now) == unexpired(start@, now),
            decreases self.ledger.pairs().len() - i,
        {
            let current = *self.ledger.value_at(i);
            if has_expired(current.expires_at, now) {
                let ghost before = self.ledger@;
                proof {
                    self.ledger.lemma_distinct();
                    lemma_as_map_at(self.ledger.pairs(), i as int);
                }
                self.ledger.remove_at(i);
                assert(unexpired(self.ledger@, now) =~= unexpired(before, now));
                count = count + 1;
            } else {
                i = i + 1;
            }
        }
        proof {
            self.ledger.lemma_distinct();
            assert forall|id: Seq<char>| self.ledger@.contains_key(id) implies !expired(
                self.ledger@[id].expires_at,
                now,
            ) by {
                let j = position(self.ledger.pairs(), id);
                lemma_as_map_at(self.ledger.pairs(), j);
            }
            assert(self.ledger@ =~= unexpired(self.ledger@, now));
        }
        count
    }
}

} // verus!
