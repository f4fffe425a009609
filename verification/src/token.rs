//! Single-use, time-limited tokens for password reset and magic-link login.
//!
//! Checking a token and redeeming it are two operations: [`TokenIssuer::verify`]
//! reads, [`TokenIssuer::redeem`] reads and consumes in one step.

use vstd::prelude::*;
use crate::clock::deadline;
use crate::clock::expired;
use crate::clock::expiry;
use crate::clock::has_expired;
use crate::entropy::random_bytes;
use crate::entropy::SECRET_BYTES;
use crate::error::AuthError;
use crate::ledger::lemma_token_text_shape;
use crate::ledger::minted_as;
use crate::ledger::token_text;
use crate::ledger::Ledger;

verus! {

/// What a token entitles its bearer to.
#[derive(Clone, Copy, Debug, PartialEq, Eq, Structural)]
pub enum TokenPurpose {
    /// Setting a new password without the old one.
    PasswordReset,
    /// Logging in without a password.
    MagicLink,
}

/// What the issuer keeps of one token.
#[derive(Clone, Copy, Debug, PartialEq, Eq, Structural)]
pub struct TokenData {
    /// The account that the token was issued for.
    pub user_id: u64,
    /// What the token may be redeemed for.
    pub purpose: TokenPurpose,
    /// When the token was issued.
    pub created_at: u64,
    /// The first moment at which the token can no longer be redeemed.
    pub expires_at: u64,
    /// Whether the token was redeemed.
    pub consumed: bool,
}

/// The record of a token issued at `now` that lasts `ttl` seconds.
pub open spec fn issued(user_id: u64, purpose: TokenPurpose, ttl: u64, now: u64) -> TokenData {
    TokenData { user_id, purpose, created_at: now, expires_at: expiry(now, ttl), consumed: false }
}

/// The record of `token` after it was redeemed.
pub open spec fn spent(token: TokenData) -> TokenData {
    TokenData {
        user_id: token.user_id,
        purpose: token.purpose,
        created_at: token.created_at,
        expires_at: token.expires_at,
        consumed: true,
    }
}

/// The account for which `token` can be redeemed at `now` for `purpose`, or
/// the reason why it cannot. A token that was redeemed is reported as
/// consumed whether or not it has expired since.
pub open spec fn token_status(
    tokens: Map<Seq<char>, TokenData>,
    token: Seq<char>,
    purpose: TokenPurpose,
    now: u64,
) -> Result<u64, AuthError> {
    if !tokens.contains_key(token) || tokens[token].purpose != purpose {
        Err(AuthError::TokenInvalid)
    } else if tokens[token].consumed {
        Err(AuthError::TokenAlreadyConsumed)
    } else if expired(tokens[token].expires_at, now) {
        Err(AuthError::TokenExpired)
    } else {
        Ok(tokens[token].user_id)
    }
}

/// What a redemption of `token` at `now` does: a token that can be redeemed
/// is consumed, and its account is returned; otherwise nothing changes and
/// the reason is returned.
pub open spec fn redeem_post(
    pre: Map<Seq<char>, TokenData>,
    post: Map<Seq<char>, TokenData>,
    token: Seq<char>,
    purpose: TokenPurpose,
    now: u64,
    result: Result<u64, AuthError>,
) -> bool {
    &&& result == token_status(pre, token, purpose, now)
    &&& post == if result is Ok {
        pre.insert(token, spent(pre[token]))
    } else {
        pre
    }
}

/// The tokens of one process, by their text.
pub struct TokenIssuer {
    ledger: Ledger<TokenData>,
}

impl TokenIssuer {
    /// The tokens that were issued, by their text.
    pub closed spec fn view(&self) -> Map<Seq<char>, TokenData> {
        self.ledger@
    }

    /// How many tokens were ever issued.
    pub closed spec fn count_issued(&self) -> nat {
        self.ledger.minted()
    }

    /// The representation is consistent.
    pub closed spec fn wf(&self) -> bool {
        self.ledger.wf()
    }

    /// An issuer that has issued nothing.
    pub fn new() -> (issuer: Self)
        ensures
            issuer.wf(),
            issuer@ == Map::<Seq<char>, TokenData>::empty(),
            issuer.count_issued() == 0,
    {
        TokenIssuer { ledger: Ledger::new() }
    }

    /// Whether another token can be issued: the serial numbers are not used up.
    pub fn has_room(&self) -> (room: bool)
        ensures
            room == (self.count_issued() < u64::MAX),
    {
        self.ledger.has_room()
    }

    /// Issues a token whose text is made from `secret`.
    pub fn issue_with_secret(
        &mut self,
        user_id: u64,
        purpose: TokenPurpose,
        ttl: u64,
        now: u64,
        secret: &[u8],
    ) -> (token: String)
        requires
            old(self).wf(),
            old(self).count_issued() < u64::MAX,
        ensures
            final(self).wf(),
            token@ == token_text(secret@, old(self).count_issued() as u64),
            !old(self)@.contains_key(token@),
            final(self)@ == old(self)@.insert(token@, issued(user_id, purpose, ttl, now)),
            final(self).count_issued() == old(self).count_issued() + 1,
    {
        let record = TokenData {
            user_id,
            purpose,
            created_at: now,
            expires_at: deadline(now, ttl),
            consumed: false,
        };
        self.ledger.mint(secret, record)
    }

    /// Issues a token for `user_id` under fresh random text. The token can be
    /// redeemed once, for `purpose`, before `ttl` seconds have passed.
    pub fn issue(
        &mut self,
        user_id: u64,
        purpose: TokenPurpose,
        ttl: u64,
        now: u64,
    ) -> (token: String)
        requires
            old(self).wf(),
            old(self).count_issued() < u64::MAX,
        ensures
            final(self).wf(),
            minted_as(token@, old(self).count_issued()),
            !old(self)@.contains_key(token@),
            final(self)@ == old(self)@.insert(token@, issued(user_id, purpose, ttl, now)),
            final(self).count_issued() == old(self).count_issued() + 1,
    {
        let secret = random_bytes(SECRET_BYTES);
        proof {
            lemma_token_text_shape(secret@, self.count_issued() as u64);
        }
        self.issue_with_secret(user_id, purpose, ttl, now, secret.as_slice())
    }

    /// Says whether `token` could be redeemed now, and for which account. The
    /// token stays as it is.
    pub fn verify(
        &self,
        token: &str,
        purpose: TokenPurpose,
        now: u64,
    ) -> (result: Result<u64, AuthError>)
        requires
            self.wf(),
        ensures
            result == token_status(self@, token@, purpose, now),
    {
        match self.ledger.find(token) {
            None => Err(AuthError::TokenInvalid),
            Some(i) => {
                let record = *self.ledger.value_at(i);
                if record.purpose != purpose {
                    Err(AuthError::TokenInvalid)
                } else if record.consumed {
                    Err(AuthError::TokenAlreadyConsumed)
                } else if has_expired(record.expires_at, now) {
                    Err(AuthError::TokenExpired)
                } else {
                    Ok(record.user_id)
                }
            },
        }
    }

    /// Redeems `token`: if it can be redeemed, it is consumed and the account
    /// is returned; if not, nothing changes.
    pub fn redeem(
        &mut self,
        token: &str,
        purpose: TokenPurpose,
        now: u64,
    ) -> (result: Result<u64, AuthError>)
        requires
            old(self).wf(),
        ensures
            final(self).wf(),
            final(self).count_issued() == old(self).count_issued(),
            redeem_post(old(self)@, final(self)@, token@, purpose, now, result),
    {
        match self.ledger.find(token) {
            None => Err(AuthError::TokenInvalid),
            Some(i) => {
                let record = *self.ledger.value_at(i);
                if record.purpose != purpose {
                    Err(AuthError::TokenInvalid)
                } else if record.consumed {
                    Err(AuthError::TokenAlreadyConsumed)
                } else if has_expired(record.expires_at, now) {
                    Err(AuthError::TokenExpired)
                } else {
                    let used = TokenData {
                        user_id: record.user_id,
                        purpose: record.purpose,
                        created_at: record.created_at,
                        expires_at: record.expires_at,
                        consumed: true,
                    };
                    self.ledger.set_at(i, used);
                    Ok(record.user_id)
                }
            },
        }
    }
}

} // verus!
