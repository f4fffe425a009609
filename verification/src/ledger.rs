//! A table of records that are found by an unguessable token.
//!
//! A token is the hexadecimal text of a secret followed by the serial number
//! under which the table minted it. The secret makes the token unguessable; the
//! serial number, which the table never uses twice, makes it differ from every
//! token minted before, whatever the secrets were.

use vstd::prelude::*;
use vstd::bytes::lemma_auto_spec_u64_to_from_le_bytes;
use vstd::bytes::spec_u64_to_le_bytes;
use vstd::bytes::u64_to_le_bytes;
use crate::entropy::SECRET_BYTES;
use crate::text::hex;
use crate::text::hex_digits_only;
use crate::text::hex_string;
use crate::text::lemma_hex_concat;
use crate::text::lemma_hex_digits_only;
use crate::text::lemma_hex_injective;
use crate::text::same_text;

verus! {

/// The token that stands for `secret` under the serial number `serial`.
pub open spec fn token_text(secret: Seq<u8>, serial: u64) -> Seq<char> {
    hex(secret + spec_u64_to_le_bytes(serial))
}

/// `token` ends in the sixteen digits of `serial`.
pub open spec fn carries_serial(token: Seq<char>, serial: u64) -> bool {
    &&& token.len() >= 16
    &&& token.subrange(token.len() - 16, token.len() as int) == hex(
        spec_u64_to_le_bytes(serial),
    )
}

/// A minted token has two digits for each byte of the secret, then the serial
/// number.
pub proof fn lemma_token_text_shape(secret: Seq<u8>, serial: u64)
    ensures
        token_text(secret, serial).len() == 2 * secret.len() + 16,
        token_text(secret, serial).subrange(0, 2 * secret.len() as int) == hex(secret),
        carries_serial(token_text(secret, serial), serial),
        hex_digits_only(token_text(secret, serial)),
{
    lemma_hex_digits_only(secret + spec_u64_to_le_bytes(serial));
    lemma_auto_spec_u64_to_from_le_bytes();
    let tail = spec_u64_to_le_bytes(serial);
    lemma_hex_concat(secret, tail);
    let text = token_text(secret, serial);
    assert(hex(tail).len() == 16);
    assert(text.subrange(text.len() - 16, text.len() as int) =~= hex(tail));
    assert(text.subrange(0, 2 * secret.len() as int) =~= hex(secret));
}

/// No text carries two serial numbers.
pub proof fn lemma_one_serial(token: Seq<char>, a: u64, b: u64)
    requires
        carries_serial(token, a),
        carries_serial(token, b),
    ensures
        a == b,
{
    lemma_auto_spec_u64_to_from_le_bytes();
    lemma_hex_injective(spec_u64_to_le_bytes(a), spec_u64_to_le_bytes(b));
}

/// The shape of a token that was minted under `serial` from a secret of
/// [`SECRET_BYTES`] bytes: two digits for each byte of the secret, then the
/// serial number, and nothing but hexadecimal digits.
pub open spec fn minted_as(token: Seq<char>, serial: nat) -> bool {
    &&& serial <= u64::MAX
    &&& token.len() == 2 * SECRET_BYTES + 16
    &&& carries_serial(token, serial as u64)
    &&& hex_digits_only(token)
}

/// No key stands at two places of `s`.
pub open spec fn keys_distinct<T>(s: Seq<(Seq<char>, T)>) -> bool {
    forall|i: int, j: int| 0 <= i < s.len() && 0 <= j < s.len() && i != j ==> s[i].0 != s[j].0
}

/// `key` stands somewhere in `s`.
pub open spec fn holds<T>(s: Seq<(Seq<char>, T)>, key: Seq<char>) -> bool {
    exists|i: int| 0 <= i < s.len() && s[i].0 == key
}

/// A place of `s` at which `key` stands, if there is one.
pub open spec fn position<T>(s: Seq<(Seq<char>, T)>, key: Seq<char>) -> int {
    choose|i: int| 0 <= i < s.len() && s[i].0 == key
}

/// The map from each key of `s` to the record beside it.
pub open spec fn as_map<T>(s: Seq<(Seq<char>, T)>) -> Map<Seq<char>, T> {
    Map::new(|key: Seq<char>| holds(s, key), |key: Seq<char>| s[position(s, key)].1)
}

/// With distinct keys, the map gives at each key the record of its one place.
pub proof fn lemma_as_map_at<T>(s: Seq<(Seq<char>, T)>, i: int)
    requires
        keys_distinct(s),
        0 <= i < s.len(),
    ensures
        holds(s, s[i].0),
        position(s, s[i].0) == i,
        as_map(s).contains_key(s[i].0),
        as_map(s)[s[i].0] == s[i].1,
{
}

/// Appending a record under a new key inserts it into the map.
pub proof fn lemma_as_map_push<T>(s: Seq<(Seq<char>, T)>, key: Seq<char>, value: T)
    requires
        keys_distinct(s),
        !holds(s, key),
    ensures
        keys_distinct(s.push((key, value))),
        as_map(s.push((key, value))) == as_map(s).insert(key, value),
{
    let grown = s.push((key, value));
    assert(keys_distinct(grown));
    assert forall|k: Seq<char>| holds(grown, k) <==> (k == key || holds(s, k)) by {
        if holds(s, k) {
            let i = position(s, k);
            assert(grown[i].0 == k);
        }
        if k == key {
            assert(grown[s.len() as int].0 == k);
        }
    }
    assert forall|k: Seq<char>| holds(grown, k) implies #[trigger] as_map(grown)[k] == as_map(
        s,
    ).insert(key, value)[k] by {
        let i = position(grown, k);
        if k != key {
            let j = position(s, k);
            assert(grown[j].0 == k);
            assert(i == j);
        }
    }
    assert(as_map(grown) =~= as_map(s).insert(key, value));
}

/// Replacing the record at one place replaces it in the map.
pub proof fn lemma_as_map_update<T>(s: Seq<(Seq<char>, T)>, i: int, value: T)
    requires
        keys_distinct(s),
        0 <= i < s.len(),
    ensures
        keys_distinct(s.update(i, (s[i].0, value))),
        as_map(s.update(i, (s[i].0, value))) == as_map(s).insert(s[i].0, value),
{
    let key = s[i].0;
    let changed = s.update(i, (key, value));
    assert(keys_distinct(changed));
    assert forall|k: Seq<char>| holds(changed, k) <==> holds(s, k) by {
        if holds(s, k) {
            let j = position(s, k);
            assert(changed[j].0 == k);
        }
        if holds(changed, k) {
            let j = position(changed, k);
            assert(s[j].0 == k);
        }
    }
    assert(holds(s, key)) by {
        assert(s[i].0 == key);
    }
    assert forall|k: Seq<char>| holds(changed, k) implies #[trigger] as_map(changed)[k] == as_map(
        s,
    ).insert(key, value)[k] by {
        let a = position(changed, k);
        let b = position(s, k);
        assert(s[a].0 == k);
        assert(a == b);
    }
    assert(as_map(changed) =~= as_map(s).insert(key, value));
}

/// Taking the record at one place out takes its key out of the map.
pub proof fn lemma_as_map_remove<T>(s: Seq<(Seq<char>, T)>, i: int)
    requires
        keys_distinct(s),
        0 <= i < s.len(),
    ensures
        keys_distinct(s.remove(i)),
        as_map(s.remove(i)) == as_map(s).remove(s[i].0),
{
    let key = s[i].0;
    let rest = s.remove(i);
    assert forall|a: int, b: int|
        0 <= a < rest.len() && 0 <= b < rest.len() && a != b implies rest[a].0 != rest[b].0 by {
        let a0 = if a < i {
            a
        } else {
            a + 1
        };
        let b0 = if b < i {
            b
        } else {
            b + 1
        };
        assert(rest[a] == s[a0] && rest[b] == s[b0]);
    }
    assert forall|k: Seq<char>| holds(rest, k) <==> (holds(s, k) && k != key) by {
        if holds(rest, k) {
            let a = position(rest, k);
            let a0 = if a < i {
                a
            } else {
                a + 1
            };
            assert(s[a0].0 == k);
        }
        if holds(s, k) && k != key {
            let b = position(s, k);
            let b0 = if b < i {
                b
            } else {
                b - 1
            };
            assert(rest[b0].0 == k);
        }
    }
    assert forall|k: Seq<char>| holds(rest, k) implies #[trigger] as_map(rest)[k] == as_map(
        s,
    ).remove(key)[k] by {
        let a = position(rest, k);
        let a0 = if a < i {
            a
        } else {
            a + 1
        };
        assert(s[a0].0 == k);
        assert(position(s, k) == a0);
    }
    assert(as_map(rest) =~= as_map(s).remove(key));
}

/// With distinct keys, the map has one key for each place.
pub proof fn lemma_as_map_len<T>(s: Seq<(Seq<char>, T)>)
    requires
        keys_distinct(s),
    ensures
        as_map(s).dom().finite(),
        as_map(s).dom().len() == s.len(),
    decreases s.len(),
{
    if s.len() == 0 {
        assert(as_map(s).dom() =~= Set::<Seq<char>>::empty());
    } else {
        let front = s.drop_last();
        let last = s.last();
        assert(keys_distinct(front));
        assert(!holds(front, last.0)) by {
            if holds(front, last.0) {
                let i = position(front, last.0);
                assert(s[i].0 == s[s.len() - 1].0);
            }
        }
        lemma_as_map_len(front);
        lemma_as_map_push(front, last.0, last.1);
        assert(s =~= front.push(last));
        assert(as_map(s).dom() =~= as_map(front).dom().insert(last.0));
        assert(!as_map(front).dom().contains(last.0));
    }
}

/// One record of a [`Ledger`], with the token that finds it.
pub struct Entry<T> {
    token: String,
    serial: u64,
    value: T,
}

/// Records of type `T`, each under a token of its own.
pub struct Ledger<T> {
    entries: Vec<Entry<T>>,
    next: u64,
}

impl<T> Ledger<T> {
    /// The tokens and their records, in the order in which they were minted.
    pub closed spec fn pairs(&self) -> Seq<(Seq<char>, T)> {
        self.entries@.map_values(|e: Entry<T>| (e.token@, e.value))
    }

    /// How many tokens this table has minted since it was made.
    pub closed spec fn minted(&self) -> nat {
        self.next as nat
    }

    /// Every serial number in use is below the next one, stands in its token,
    /// and is used once.
    pub closed spec fn wf(&self) -> bool {
        &&& forall|i: int|
            0 <= i < self.entries.len() ==> (#[trigger] self.entries[i]).serial < self.next
        &&& forall|i: int|
            0 <= i < self.entries.len() ==> carries_serial(
                (#[trigger] self.entries[i]).token@,
                self.entries[i].serial,
            )
        &&& forall|i: int, j: int|
            0 <= i < self.entries.len() && 0 <= j < self.entries.len() && i != j ==> (
            #[trigger] self.entries[i]).serial != (#[trigger] self.entries[j]).serial
    }

    /// The records by token.
    pub open spec fn view(&self) -> Map<Seq<char>, T> {
        as_map(self.pairs())
    }

    /// A well-formed table holds no token twice, so its map has as many keys
    /// as the table has records.
    pub proof fn lemma_distinct(&self)
        requires
            self.wf(),
        ensures
            keys_distinct(self.pairs()),
            self@.dom().finite(),
            self@.dom().len() == self.pairs().len(),
    {
        let pairs = self.pairs();
        assert forall|i: int, j: int|
            0 <= i < pairs.len() && 0 <= j < pairs.len() && i != j implies pairs[i].0
            != pairs[j].0 by {
            if self.entries[i].token@ == self.entries[j].token@ {
                lemma_one_serial(
                    self.entries[i].token@,
                    self.entries[i].serial,
                    self.entries[j].serial,
                );
            }
        }
        lemma_as_map_len(self.pairs());
    }

    /// An empty table.
    pub fn new() -> (table: Self)
        ensures
            table.wf(),
            table.pairs() == Seq::<(Seq<char>, T)>::empty(),
            table@ == Map::<Seq<char>, T>::empty(),
            table.minted() == 0,
    {
        let table = Ledger { entries: Vec::new(), next: 0 };
        assert(table.pairs() =~= Seq::<(Seq<char>, T)>::empty());
        assert(table@ =~= Map::<Seq<char>, T>::empty());
        table
    }

    /// The number of records.
    pub fn len(&self) -> (n: usize)
        ensures
            n == self.pairs().len(),
    {
        self.entries.len()
    }

    /// Whether another token can be minted: the serial numbers are not used up.
    pub fn has_room(&self) -> (room: bool)
        ensures
            room == (self.minted() < u64::MAX),
    {
        self.next < u64::MAX
    }

    /// Stores `value` under a new token made from `secret`, and returns the
    /// token.
    pub fn mint(&mut self, secret: &[u8], value: T) -> (token: String)
        requires
            old(self).wf(),
            old(self).minted() < u64::MAX,
        ensures
            final(self).wf(),
            token@ == token_text(secret@, old(self).minted() as u64),
            !old(self)@.contains_key(token@),
            final(self).pairs() == old(self).pairs().push((token@, value)),
            final(self)@ == old(self)@.insert(token@, value),
            final(self).minted() == old(self).minted() + 1,
    {
        let serial: u64 = self.next;
        let mut bytes: Vec<u8> = Vec::new();
        bytes.extend_from_slice(secret);
        let tail = u64_to_le_bytes(serial);
        bytes.extend_from_slice(tail.as_slice());
        assert(bytes@ =~= secret@ + spec_u64_to_le_bytes(serial));
        let token = hex_string(bytes.as_slice());
        let stored = token.clone();
        proof {
            old(self).lemma_distinct();
            lemma_token_text_shape(secret@, serial);
            if holds(old(self).pairs(), token@) {
                let i = position(old(self).pairs(), token@);
                lemma_one_serial(token@, old(self).entries[i].serial, serial);
            }
            lemma_as_map_push(old(self).pairs(), token@, value);
        }
        self.next = serial + 1;
        self.entries.push(Entry { token: stored, serial, value });
        assert(self.pairs() =~= old(self).pairs().push((token@, value)));
        token
    }

    /// The place of the record that `token` finds. Every stored token is
    /// compared, each in time that depends on its length alone.
    pub fn find(&self, token: &str) -> (at: Option<usize>)
        requires
            self.wf(),
        ensures
            match at {
                Some(i) => {
                    &&& i < self.pairs().len()
                    &&& self.pairs()[i as int].0 == token@
                    &&& self@.contains_key(token@)
                    &&& self@[token@] == self.pairs()[i as int].1
                },
                None => !self@.contains_key(token@),
            },
    {
        let mut at: Option<usize> = None;
        let mut i: usize = 0;
        while i < self.entries.len()
            invariant
                i <= self.entries.len(),
                match at {
                    Some(k) => k < i && self.entries[k as int].token@ == token@,
                    None => forall|j: int| 0 <= j < i ==> self.entries[j].token@ != token@,
                },
            decreases self.entries.len() - i,
        {
            if same_text(self.entries[i].token.as_str(), token) {
                at = Some(i);
            }
            i = i + 1;
        }
        proof {
            self.lemma_distinct();
            match at {
                Some(k) => {
                    lemma_as_map_at(self.pairs(), k as int);
                },
                None => {
                    if holds(self.pairs(), token@) {
                        let j = position(self.pairs(), token@);
                        assert(self.entries[j].token@ == token@);
                    }
                },
            }
        }
        at
    }

    /// The record at place `i`.
    pub fn value_at(&self, i: usize) -> (value: &T)
        requires
            i < self.pairs().len(),
        ensures
            *value == self.pairs()[i as int].1,
    {
        &self.entries[i].value
    }

    /// The token at place `i`.
    pub fn token_at(&self, i: usize) -> (token: &str)
        requires
            i < self.pairs().len(),
        ensures
            token@ == self.pairs()[i as int].0,
    {
        self.entries[i].token.as_str()
    }

    /// Replaces the record at place `i`; its token stays.
    pub fn set_at(&mut self, i: usize, value: T)
        requires
            old(self).wf(),
            i < old(self).pairs().len(),
        ensures
            final(self).wf(),
            final(self).pairs() == old(self).pairs().update(
                i as int,
                (old(self).pairs()[i as int].0, value),
            ),
            final(self)@ == old(self)@.insert(old(self).pairs()[i as int].0, value),
            final(self).minted() == old(self).minted(),
    {
        proof {
            old(self).lemma_distinct();
            lemma_as_map_update(old(self).pairs(), i as int, value);
        }
        self.entries[i].value = value;
        assert(self.pairs() =~= old(self).pairs().update(
            i as int,
            (old(self).pairs()[i as int].0, value),
        ));
    }

    /// Takes the record at place `i` out, with its token.
    pub fn remove_at(&mut self, i: usize) -> (value: T)
        requires
            old(self).wf(),
            i < old(self).pairs().len(),
        ensures
            final(self).wf(),
            value == old(self).pairs()[i as int].1,
            final(self).pairs() == old(self).pairs().remove(i as int),
            final(self)@ == old(self)@.remove(old(self).pairs()[i as int].0),
            final(self).minted() == old(self).minted(),
    {
        proof {
            old(self).lemma_distinct();
            lemma_as_map_remove(old(self).pairs(), i as int);
        }
        let entry = self.entries.remove(i);
        assert(self.pairs() =~= old(self).pairs().remove(i as int));
        entry.value
    }
}

} // verus!
