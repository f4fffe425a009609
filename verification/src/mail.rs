//! Notifications for the mail collaborator.
//!
//! The core sends nothing itself. An operation that owes its user a message
//! appends it to an [`Outbox`]; whoever runs the core takes the messages out
//! and delivers them, and a delivery that fails changes nothing here.

use vstd::prelude::*;

verus! {

/// The template of a message.
#[derive(Clone, Copy, Debug, PartialEq, Eq, Structural)]
pub enum MailKind {
    /// Greets a new account.
    Welcome,
    /// Tells an account that its password was changed.
    PasswordChanged,
    /// Carries a password-reset token.
    PasswordReset,
    /// Carries a magic-link token.
    MagicLink,
}

/// One message: where it goes, which template it uses, and the token that the
/// template is filled with, if it takes one.
#[derive(Debug, Clone)]
pub struct Mail {
    /// The address of the recipient.
    pub to: String,
    /// The template.
    pub kind: MailKind,
    /// The token to embed, for the two kinds that carry one.
    pub token: Option<String>,
}

/// A [`Mail`] as plain values.
pub struct MailView {
    /// The address of the recipient.
    pub to: Seq<char>,
    /// The template.
    pub kind: MailKind,
    /// The token to embed.
    pub token: Option<Seq<char>>,
}

impl View for Mail {
    type V = MailView;

    open spec fn view(&self) -> MailView {
        MailView {
            to: self.to@,
            kind: self.kind,
            token: match self.token {
                Some(t) => Some(t@),
                None => None,
            },
        }
    }
}

/// A message of `kind` to `to` that carries no token.
pub open spec fn notice(to: Seq<char>, kind: MailKind) -> MailView {
    MailView { to, kind, token: None }
}

/// A message of `kind` to `to` that carries `token`.
pub open spec fn letter(to: Seq<char>, kind: MailKind, token: Seq<char>) -> MailView {
    MailView { to, kind, token: Some(token) }
}

/// The messages that wait for delivery, oldest first.
pub struct Outbox {
    queue: Vec<Mail>,
}

impl View for Outbox {
    type V = Seq<MailView>;

    closed spec fn view(&self) -> Seq<MailView> {
        self.queue@.map_values(|m: Mail| m@)
    }
}

impl Outbox {
    /// An outbox with nothing in it.
    pub fn new() -> (outbox: Self)
        ensures
            outbox@ == Seq::<MailView>::empty(),
    {
        let outbox = Outbox { queue: Vec::new() };
        assert(outbox@ =~= Seq::<MailView>::empty());
        outbox
    }

    /// The number of messages that wait.
    pub fn len(&self) -> (n: usize)
        ensures
            n == self@.len(),
    {
        self.queue.len()
    }

    /// Appends a message.
    pub fn push(&mut self, mail: Mail)
        ensures
            final(self)@ == old(self)@.push(mail@),
    {
        self.queue.push(mail);
        assert(self@ =~= old(self)@.push(mail@));
    }

    /// Appends a message of `kind` to `to` that carries no token.
    pub fn push_notice(&mut self, to: &str, kind: MailKind)
        ensures
            final(self)@ == old(self)@.push(notice(to@, kind)),
    {
        self.push(Mail { to: to.to_owned(), kind, token: None });
    }

    /// Appends a message of `kind` to `to` that carries `token`.
    pub fn push_letter(&mut self, to: &str, kind: MailKind, token: &str)
        ensures
            final(self)@ == old(self)@.push(letter(to@, kind, token@)),
    {
        self.push(Mail { to: to.to_owned(), kind, token: Some(token.to_owned()) });
    }

    /// Takes every waiting message out, oldest first, and leaves the outbox
    /// empty.
    pub fn drain(&mut self) -> (mails: Vec<Mail>)
        ensures
            mails@.map_values(|m: Mail| m@) == old(self)@,
            final(self)@ == Seq::<MailView>::empty(),
    {
        let mut mails: Vec<Mail> = Vec::new();
        mails.append(&mut self.queue);
        assert(mails@ =~= old(self).queue@);
        assert(self@ =~= Seq::<MailView>::empty());
        mails
    }
}

} // verus!
