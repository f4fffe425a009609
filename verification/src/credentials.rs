//! The credential store: the accounts, each with the hash of its password.
//!
//! An account's identifier is the number of accounts that existed when it was
//! created. Accounts are never removed, so an identifier that was handed out
//! stays valid.

use vstd::prelude::*;
use vstd::string::StringSliceAdditionalSpecFns;
use crate::error::AuthError;
use crate::mail::notice;
use crate::mail::MailKind;
use crate::mail::Outbox;
use crate::password::hash_password;
use crate::password::digest;
use crate::password::password_matches;
use crate::password::verify_password;
use crate::password::weak_password;
use crate::password::MAX_HASHABLE_BYTES;
use crate::text::email_key;
use crate::text::same_email;

verus! {

/// One account.
#[derive(Debug, Clone)]
pub struct UserRecord {
    /// The identifier of the account.
    pub id: u64,
    /// The address that the account was registered with, as it was written.
    pub email: String,
    /// The hash string of the account's password.
    pub password_hash: String,
    /// Whether the address was confirmed.
    pub email_verified: bool,
    /// The name that the account goes by, if it has one.
    pub name: Option<String>,
    /// When the account was created.
    pub created_at: u64,
}

/// A [`UserRecord`] as plain values.
pub struct UserView {
    /// The identifier of the account.
    pub id: u64,
    /// The address that the account was registered with.
    pub email: Seq<char>,
    /// The hash string of the account's password.
    pub password_hash: Seq<char>,
    /// Whether the address was confirmed.
    pub email_verified: bool,
    /// The name that the account goes by.
    pub name: Option<Seq<char>>,
    /// When the account was created.
    pub created_at: u64,
}

impl View for UserRecord {
    type V = UserView;

    open spec fn view(&self) -> UserView {
        UserView {
            id: self.id,
            email: self.email@,
            password_hash: self.password_hash@,
            email_verified: self.email_verified,
            name: match self.name {
                Some(n) => Some(n@),
                None => None,
            },
            created_at: self.created_at,
        }
    }
}

impl UserRecord {
    /// A copy of this record.
    pub fn duplicate(&self) -> (copy: UserRecord)
        ensures
            copy@ == self@,
    {
        let name = match &self.name {
            Some(n) => Some(n.clone()),
            None => None,
        };
        UserRecord {
            id: self.id,
            email: self.email.clone(),
            password_hash: self.password_hash.clone(),
            email_verified: self.email_verified,
            name,
            created_at: self.created_at,
        }
    }
}

/// The account that a new registration makes.
pub open spec fn new_account(
    id: u64,
    email: Seq<char>,
    password_hash: Seq<char>,
    now: u64,
) -> UserView {
    UserView { id, email, password_hash, email_verified: false, name: None, created_at: now }
}

/// Every account is identified by its place, and no two accounts have
/// addresses that differ in the case of their letters only.
pub open spec fn users_wf(users: Seq<UserView>) -> bool {
    &&& forall|i: int| 0 <= i < users.len() ==> (#[trigger] users[i]).id == i
    &&& forall|i: int, j: int|
        0 <= i < users.len() && 0 <= j < users.len() && i != j ==> email_key(
            (#[trigger] users[i]).email,
        ) != email_key((#[trigger] users[j]).email)
}

/// Some account is registered under `email`, in whatever case.
pub open spec fn email_taken(users: Seq<UserView>, email: Seq<char>) -> bool {
    exists|i: int|
        0 <= i < users.len() && email_key((#[trigger] users[i]).email) == email_key(email)
}

/// The place of the account registered under `email`, if there is one.
pub open spec fn account_of(users: Seq<UserView>, email: Seq<char>) -> int {
    choose|i: int|
        0 <= i < users.len() && email_key((#[trigger] users[i]).email) == email_key(email)
}

/// Whether `email` and `password` are the credentials of an account. An
/// unknown address and a wrong password give the same answer.
pub open spec fn credentials_hold(
    users: Seq<UserView>,
    email: Seq<char>,
    password: Seq<char>,
) -> bool {
    &&& email_taken(users, email)
    &&& password_matches(password, users[account_of(users, email)].password_hash)
}

/// What an attempt to log in comes to, once the account was looked up and the
/// password was held against its hash: the account, if there is one and the
/// password is its own.
pub fn credentials_outcome(
    found: Option<UserRecord>,
    password_ok: bool,
) -> (result: Result<UserRecord, AuthError>)
    ensures
        match result {
            Ok(user) => password_ok && found == Some(user),
            Err(e) => e == AuthError::InvalidCredentials && (found is None || !password_ok),
        },
{
    match found {
        Some(user) => {
            if password_ok {
                Ok(user)
            } else {
                Err(AuthError::InvalidCredentials)
            }
        },
        None => Err(AuthError::InvalidCredentials),
    }
}

/// The accounts of one process.
pub struct CredentialStore {
    users: Vec<UserRecord>,
    decoy_hash: String,
}

impl View for CredentialStore {
    type V = Seq<UserView>;

    closed spec fn view(&self) -> Seq<UserView> {
        self.users@.map_values(|u: UserRecord| u@)
    }
}

impl CredentialStore {
    /// The accounts are consistent: see [`users_wf`].
    pub open spec fn wf(&self) -> bool {
        users_wf(self@)
    }

    /// The hash string that the password of a login for an unknown address is
    /// held against, so that such a login does the work of one with a wrong
    /// password. It belongs to no account.
    pub closed spec fn decoy(&self) -> Seq<char> {
        self.decoy_hash@
    }

    /// A store without accounts. Its decoy is a fresh hash of the empty
    /// password.
    pub fn new() -> (store: Self)
        ensures
            store.wf(),
            store@ == Seq::<UserView>::empty(),
            password_matches(Seq::<char>::empty(), store.decoy()),
    {
        proof {
            reveal_strlit("");
        }
        let decoy_hash = hash_password("");
        assert(""@ =~= Seq::<char>::empty());
        let store = CredentialStore { users: Vec::new(), decoy_hash };
        assert(store@ =~= Seq::<UserView>::empty());
        store
    }

    /// The number of accounts.
    pub fn len(&self) -> (n: usize)
        ensures
            n == self@.len(),
    {
        self.users.len()
    }

    fn index_of(&self, email: &str) -> (at: Option<usize>)
        requires
            self.wf(),
        ensures
            match at {
                Some(i) => {
                    &&& email_taken(self@, email@)
                    &&& i == account_of(self@, email@)
                    &&& i < self@.len()
                },
                None => !email_taken(self@, email@),
            },
    {
        let mut i: usize = 0;
        while i < self.users.len()
            invariant
                self.wf(),
                i <= self.users.len(),
                forall|j: int| 0 <= j < i ==> email_key(self@[j].email) != email_key(email@),
            decreases self.users.len() - i,
        {
            if same_email(self.users[i].email.as_str(), email) {
                assert(email_key(self@[i as int].email) == email_key(email@));
                return Some(i);
            }
            i = i + 1;
        }
        None
    }

    /// Stores a new account whose password hashes to `password_hash`, and
    /// queues its welcome message.
    pub fn insert_user(
        &mut self,
        email: &str,
        password_hash: String,
        now: u64,
        outbox: &mut Outbox,
    ) -> (result: Result<UserRecord, AuthError>)
        requires
            old(self).wf(),
        ensures
            final(self).wf(),
            match result {
                Ok(user) => {
                    &&& !email_taken(old(self)@, email@)
                    &&& user@.id == old(self)@.len()
                    &&& user@ == new_account(user@.id, email@, password_hash@, now)
                    &&& final(self)@ == old(self)@.push(user@)
                    &&& final(outbox)@ == old(outbox)@.push(notice(email@, MailKind::Welcome))
                },
                Err(e) => {
                    &&& e == AuthError::DuplicateEmail
                    &&& email_taken(old(self)@, email@)
                    &&& final(self)@ == old(self)@
                    &&& final(outbox)@ == old(outbox)@
                },
            },
    {
        if self.index_of(email).is_some() {
            return Err(AuthError::DuplicateEmail);
        }
        let id: u64 = self.users.len() as u64;
        let user = UserRecord {
            id,
            email: email.to_owned(),
            password_hash,
            email_verified: false,
            name: None,
            created_at: now,
        };
        let copy = user.duplicate();
        self.users.push(user);
        outbox.push_notice(email, MailKind::Welcome);
        assert(self@ =~= old(self)@.push(copy@));
        Ok(copy)
    }

    /// Registers an account: the password is checked, hashed with a fresh
    /// salt, and stored with the address; a welcome message is queued.
    pub fn create_user(
        &mut self,
        email: &str,
        password: &str,
        now: u64,
        outbox: &mut Outbox,
    ) -> (result: Result<UserRecord, AuthError>)
        requires
            old(self).wf(),
        ensures
            final(self).wf(),
            match result {
                Ok(user) => {
                    &&& !weak_password(password@)
                    &&& !email_taken(old(self)@, email@)
                    &&& user@.id == old(self)@.len()
                    &&& user@ == new_account(user@.id, email@, user@.password_hash, now)
                    &&& password_matches(password@, user@.password_hash)
                    &&& final(self)@ == old(self)@.push(user@)
                    &&& final(outbox)@ == old(outbox)@.push(notice(email@, MailKind::Welcome))
                },
                Err(e) => {
                    &&& final(self)@ == old(self)@
                    &&& final(outbox)@ == old(outbox)@
                    &&& e == if weak_password(password@) {
                        AuthError::WeakPassword
                    } else {
                        AuthError::DuplicateEmail
                    }
                    &&& weak_password(password@) || email_taken(old(self)@, email@)
                },
            },
    {
        match digest(password) {
            Ok(password_hash) => self.insert_user(email, password_hash, now, outbox),
            Err(e) => Err(e),
        }
    }

    /// Checks credentials. An unknown address and a wrong password fail alike,
    /// and both take the time of one password verification.
    pub fn verify_password(
        &self,
        email: &str,
        password: &str,
    ) -> (result: Result<UserRecord, AuthError>)
        requires
            self.wf(),
        ensures
            match result {
                Ok(user) => {
                    &&& credentials_hold(self@, email@, password@)
                    &&& user@ == self@[account_of(self@, email@)]
                },
                Err(e) => e == AuthError::InvalidCredentials && !credentials_hold(
                    self@,
                    email@,
                    password@,
                ),
            },
    {
        match self.index_of(email) {
            Some(i) => {
                let ok = verify_password(password, self.users[i].password_hash.as_str());
                credentials_outcome(Some(self.users[i].duplicate()), ok)
            },
            None => {
                let _ = verify_password(password, self.decoy_hash.as_str());
                credentials_outcome(None, false)
            },
        }
    }

    /// The account registered under `email`, in whatever case.
    pub fn find_by_email(&self, email: &str) -> (result: Result<UserRecord, AuthError>)
        requires
            self.wf(),
        ensures
            match result {
                Ok(user) => email_taken(self@, email@) && user@ == self@[account_of(self@, email@)],
                Err(e) => e == AuthError::UserNotFound && !email_taken(self@, email@),
            },
    {
        match self.index_of(email) {
            Some(i) => Ok(self.users[i].duplicate()),
            None => Err(AuthError::UserNotFound),
        }
    }

    /// The account with the identifier `user_id`.
    pub fn find_by_id(&self, user_id: u64) -> (result: Result<UserRecord, AuthError>)
        requires
            self.wf(),
        ensures
            match result {
                Ok(user) => user_id < self@.len() && user@ == self@[user_id as int],
                Err(e) => e == AuthError::UserNotFound && user_id >= self@.len(),
            },
    {
        if user_id < self.users.len() as u64 {
            Ok(self.users[user_id as usize].duplicate())
        } else {
            Err(AuthError::UserNotFound)
        }
    }

    /// Replaces the hash string of an account by `password_hash`, and queues
    /// the notice that the password was changed.
    pub fn set_password_hash(
        &mut self,
        user_id: u64,
        password_hash: String,
        outbox: &mut Outbox,
    ) -> (result: Result<(), AuthError>)
        requires
            old(self).wf(),
        ensures
            final(self).wf(),
            match result {
                Ok(_) => {
                    &&& user_id < old(self)@.len()
                    &&& final(self)@ == old(self)@.update(
                        user_id as int,
                        UserView { password_hash: password_hash@, ..old(self)@[user_id as int] },
                    )
                    &&& final(outbox)@ == old(outbox)@.push(
                        notice(old(self)@[user_id as int].email, MailKind::PasswordChanged),
                    )
                },
                Err(e) => {
                    &&& e == AuthError::UserNotFound
                    &&& user_id >= old(self)@.len()
                    &&& final(self)@ == old(self)@
                    &&& final(outbox)@ == old(outbox)@
                },
            },
    {
        if user_id >= self.users.len() as u64 {
            return Err(AuthError::UserNotFound);
        }
        let i = user_id as usize;
        self.users[i].password_hash = password_hash;
        outbox.push_notice(self.users[i].email.as_str(), MailKind::PasswordChanged);
        assert(self@ =~= old(self)@.update(
            user_id as int,
            UserView { password_hash: password_hash@, ..old(self)@[user_id as int] },
        ));
        Ok(())
    }

    /// Gives an account a new password: it is hashed with a fresh salt, the
    /// hash replaces the old one, and a notice is queued.
    pub fn update_password(
        &mut self,
        user_id: u64,
        new_password: &str,
        outbox: &mut Outbox,
    ) -> (result: Result<(), AuthError>)
        requires
            old(self).wf(),
            new_password.spec_bytes().len() <= MAX_HASHABLE_BYTES,
        ensures
            final(self).wf(),
            match result {
                Ok(_) => {
                    &&& user_id < old(self)@.len()
                    &&& final(self)@ == old(self)@.update(
                        user_id as int,
                        UserView {
                            password_hash: final(self)@[user_id as int].password_hash,
                            ..old(self)@[user_id as int]
                        },
                    )
                    &&& password_matches(new_password@, final(self)@[user_id as int].password_hash)
                    &&& final(outbox)@ == old(outbox)@.push(
                        notice(old(self)@[user_id as int].email, MailKind::PasswordChanged),
                    )
                },
                Err(e) => {
                    &&& e == AuthError::UserNotFound
                    &&& user_id >= old(self)@.len()
                    &&& final(self)@ == old(self)@
                    &&& final(outbox)@ == old(outbox)@
                },
            },
    {
        if user_id >= self.users.len() as u64 {
            return Err(AuthError::UserNotFound);
        }
        let password_hash = hash_password(new_password);
        self.set_password_hash(user_id, password_hash, outbox)
    }

    /// Records that the address of an account was confirmed. An identifier
    /// that no account has changes nothing.
    pub fn mark_email_verified(&mut self, user_id: u64)
        requires
            old(self).wf(),
        ensures
            final(self).wf(),
            final(self)@ == if user_id < old(self)@.len() {
                old(self)@.update(
                    user_id as int,
                    UserView { email_verified: true, ..old(self)@[user_id as int] },
                )
            } else {
                old(self)@
            },
    {
        if user_id < self.users.len() as u64 {
            let i = user_id as usize;
            self.users[i].email_verified = true;
            assert(self@ =~= old(self)@.update(
                user_id as int,
                UserView { email_verified: true, ..old(self)@[user_id as int] },
            ));
        }
    }

    /// Gives an account a name, or takes its name away.
    pub fn update_name(
        &mut self,
        user_id: u64,
        name: Option<String>,
    ) -> (result: Result<(), AuthError>)
        requires
            old(self).wf(),
        ensures
            final(self).wf(),
            match result {
                Ok(_) => {
                    &&& user_id < old(self)@.len()
                    &&& final(self)@ == old(self)@.update(
                        user_id as int,
                        UserView {
                            name: match name {
                                Some(n) => Some(n@),
                                None => None,
                            },
                            ..old(self)@[user_id as int]
                        },
                    )
                },
                Err(e) => {
                    &&& e == AuthError::UserNotFound
                    &&& user_id >= old(self)@.len()
                    &&& final(self)@ == old(self)@
                },
            },
    {
        if user_id >= self.users.len() as u64 {
            return Err(AuthError::UserNotFound);
        }
        let i = user_id as usize;
        self.users[i].name = name;
        assert(self@ =~= old(self)@.update(
            user_id as int,
            UserView {
                name: match name {
                    Some(n) => Some(n@),
                    None => None,
                },
                ..old(self)@[user_id as int]
            },
        ));
        Ok(())
    }
}

} // verus!
