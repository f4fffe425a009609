//! What the index page is told about the current request: a JSON object that
//! the page's script reads.

use vstd::prelude::*;
use vstd::string::StringExecFns;
use crate::classifier::AuthContext;
use crate::classifier::AuthSource;
use crate::credentials::UserRecord;
use crate::credentials::UserView;
use crate::text::decimal;
use crate::text::decimal_string;

verus! {

/// The RFC 3339 text of the moment `seconds` after the start of 1970, in UTC,
/// or nothing if the calendar of the `chrono` crate does not reach that far.
///
/// This names what `chrono::DateTime::from_timestamp` and
/// `chrono::DateTime::to_rfc3339` return, which depends on the number alone.
pub uninterp spec fn rfc3339_text(seconds: int) -> Option<Seq<char>>;

/// Calls `chrono::DateTime::from_timestamp` with no nanoseconds and, where
/// that gives a moment, `chrono::DateTime::to_rfc3339` on it.
///
/// Trusted: the answer is a function of `seconds` alone.
#[verifier::external_body]
fn rfc3339(seconds: i64) -> (text: Option<String>)
    ensures
        match text {
            Some(t) => rfc3339_text(seconds as int) == Some(t@),
            None => rfc3339_text(seconds as int) == None::<Seq<char>>,
        },
{
    match chrono::DateTime::from_timestamp(seconds, 0) {
        Some(moment) => Some(moment.to_rfc3339()),
        None => None,
    }
}

/// The text of a moment of the core's clock, which counts seconds from the
/// start of 1970 without sign.
pub open spec fn moment_text(at: u64) -> Option<Seq<char>> {
    if at <= i64::MAX {
        rfc3339_text(at as int)
    } else {
        None
    }
}

/// Writes a moment of the core's clock as RFC 3339 text, if the calendar
/// reaches it.
pub fn moment_string(at: u64) -> (text: Option<String>)
    ensures
        match text {
            Some(t) => moment_text(at) == Some(t@),
            None => moment_text(at) == None::<Seq<char>>,
        },
{
    if at <= i64::MAX as u64 {
        rfc3339(at as i64)
    } else {
        None
    }
}

/// What the page is told about an anonymous request.
pub open spec fn anonymous_data() -> Seq<char> {
    "{\"authenticated\": false, \"user\": null, \"auth_source\": \"None\"}"@
}

/// How a name that may be missing is written: in quotes, or as `null`.
pub open spec fn name_text(name: Option<Seq<char>>) -> Seq<char> {
    match name {
        Some(n) => "\""@ + n + "\""@,
        None => "null"@,
    }
}

/// How a truth value is written.
pub open spec fn flag_text(flag: bool) -> Seq<char> {
    if flag {
        "true"@
    } else {
        "false"@
    }
}

/// What the page is told about a request of `user`, whose account was created
/// at the moment written as `created_at`, and whose identity was found in
/// `source`. The strings go in as they are: nothing is escaped.
pub open spec fn user_data_text(
    user: UserView,
    created_at: Seq<char>,
    source: AuthSource,
) -> Seq<char> {
    "{\n                \"authenticated\": true,\n"@
        + "                \"user\": {\n                    \"id\": \""@
        + decimal(user.id as nat) + "\",\n                    \"email\": \""@ + user.email
        + "\",\n                    \"name\": "@ + name_text(user.name)
        + ",\n                    \"email_verified\": "@ + flag_text(user.email_verified)
        + ",\n                    \"created_at\": \""@ + created_at
        + "\"\n                },\n                \"auth_source\": \""@ + source.label_text()
        + "\"\n            }"@
}

/// Writes [`user_data_text`].
pub fn render_user_data(user: &UserRecord, created_at: &str, source: AuthSource) -> (text: String)
    ensures
        text@ == user_data_text(user@, created_at@, source),
{
    let mut text = "{\n                \"authenticated\": true,\n".to_owned();
    text.append("                \"user\": {\n                    \"id\": \"");
    text.append(decimal_string(user.id).as_str());
    text.append("\",\n                    \"email\": \"");
    text.append(user.email.as_str());
    text.append("\",\n                    \"name\": ");
    match &user.name {
        Some(n) => {
            let mut quoted = "\"".to_owned();
            quoted.append(n.as_str());
            quoted.append("\"");
            text.append(quoted.as_str());
        },
        None => {
            text.append("null");
        },
    }
    text.append(",\n                    \"email_verified\": ");
    if user.email_verified {
        text.append("true");
    } else {
        text.append("false");
    }
    text.append(",\n                    \"created_at\": \"");
    text.append(created_at);
    text.append("\"\n                },\n                \"auth_source\": \"");
    text.append(source.label());
    text.append("\"\n            }");
    text
}

/// What the page is told about the request of `context`, or nothing if the
/// moment at which its account was created cannot be written.
pub open spec fn page_data(context: AuthContext) -> Option<Seq<char>> {
    match context.user_view() {
        Some(user) => match moment_text(user.created_at) {
            Some(created_at) => Some(user_data_text(user, created_at, context.source)),
            None => None,
        },
        None => Some(anonymous_data()),
    }
}

/// Writes [`page_data`].
pub fn user_data(context: &AuthContext) -> (text: Option<String>)
    ensures
        match text {
            Some(t) => page_data(*context) == Some(t@),
            None => page_data(*context) == None::<Seq<char>>,
        },
{
    match &context.user {
        Some(user) => match moment_string(user.created_at) {
            Some(created_at) => Some(render_user_data(user, created_at.as_str(), context.source)),
            None => None,
        },
        None => Some(
            "{\"authenticated\": false, \"user\": null, \"auth_source\": \"None\"}".to_owned(),
        ),
    }
}

} // verus!
