//! The `Cookie` header of a request, and the session cookie in it.
//!
//! The header is split and decoded by the `cookie` crate. Which of the cookies
//! is the session cookie is decided here.

use vstd::prelude::*;
use crate::text::same_text;

verus! {

/// The name of the cookie that carries the session identifier.
pub const SESSION_COOKIE: &'static str = "session_id";

/// The names and values of the cookies in the value of a `Cookie` header, in
/// the order in which they stand there.
///
/// This names what `cookie::Cookie::split_parse_encoded` yields, without the
/// parts that do not parse; it depends on the header alone.
pub uninterp spec fn cookie_pairs(header: Seq<char>) -> Seq<(Seq<char>, Seq<char>)>;

/// One cookie of a request.
#[derive(Debug, Clone)]
pub struct CookiePair {
    /// The name of the cookie.
    pub name: String,
    /// The value of the cookie, percent-decoded.
    pub value: String,
}

impl View for CookiePair {
    type V = (Seq<char>, Seq<char>);

    open spec fn view(&self) -> (Seq<char>, Seq<char>) {
        (self.name@, self.value@)
    }
}

/// The cookies of `pairs` as plain values.
pub open spec fn pairs_view(pairs: Seq<CookiePair>) -> Seq<(Seq<char>, Seq<char>)> {
    pairs.map_values(|pair: CookiePair| pair@)
}

/// Calls `cookie::Cookie::split_parse_encoded`, which splits the header at
/// its semicolons, skips the parts that are blank, and parses each other part
/// as a name and a value, percent-decoding both. The parts that do not parse
/// are left out.
///
/// Trusted: the answer is a function of the header alone.
#[verifier::external_body]
fn parse_cookies(header: &str) -> (pairs: Vec<CookiePair>)
    ensures
        pairs_view(pairs@) == cookie_pairs(header@),
{
    cookie::Cookie::split_parse_encoded(header)
        .filter_map(|parsed| parsed.ok())
        .map(|c| CookiePair { name: c.name().to_owned(), value: c.value().to_owned() })
        .collect()
}

/// The value of the last cookie of `pairs` that is called `name`. Where a
/// request sends a name twice, the later cookie counts.
pub open spec fn last_named(
    pairs: Seq<(Seq<char>, Seq<char>)>,
    name: Seq<char>,
) -> Option<Seq<char>>
    decreases pairs.len(),
{
    if pairs.len() == 0 {
        None
    } else if pairs.last().0 == name {
        Some(pairs.last().1)
    } else {
        last_named(pairs.drop_last(), name)
    }
}

/// Computes [`last_named`].
pub fn cookie_named(pairs: &Vec<CookiePair>, name: &str) -> (value: Option<String>)
    ensures
        match value {
            Some(v) => last_named(pairs_view(pairs@), name@) == Some(v@),
            None => last_named(pairs_view(pairs@), name@) == None::<Seq<char>>,
        },
{
    let ghost all = pairs_view(pairs@);
    let mut i: usize = pairs.len();
    assert(all.take(i as int) =~= all);
    while i > 0
        invariant
            i <= pairs.len(),
            all == pairs_view(pairs@),
            last_named(all, name@) == last_named(all.take(i as int), name@),
        decreases i,
    {
        i = i - 1;
        proof {
            let front = all.take(i + 1);
            assert(front.last() == all[i as int]);
            assert(front.drop_last() =~= all.take(i as int));
        }
        if same_text(pairs[i].name.as_str(), name) {
            return Some(pairs[i].value.clone());
        }
    }
    None
}

/// The session identifier that a request with this `Cookie` header presents.
pub open spec fn session_cookie_of(header: Seq<char>) -> Option<Seq<char>> {
    last_named(cookie_pairs(header), SESSION_COOKIE@)
}

/// Reads the session cookie out of the value of a `Cookie` header.
pub fn session_cookie(header: &str) -> (value: Option<String>)
    ensures
        match value {
            Some(v) => session_cookie_of(header@) == Some(v@),
            None => session_cookie_of(header@) == None::<Seq<char>>,
        },
{
    let pairs = parse_cookies(header);
    cookie_named(&pairs, SESSION_COOKIE)
}

} // verus!
