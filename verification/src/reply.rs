//! Replies in JSON, and what requests in JSON hold.
use crate::json::{Fields, Json, JsonTree};
use crate::settings;
use vstd::prelude::*;

verus! {

/// An HTTP status and the JSON that goes with it.
pub struct Response {
    pub status: u16,
    pub body: Json,
}

/// The text under `key`, or an empty one.
pub open spec fn text_or_empty(request: JsonTree, key: Seq<char>) -> Seq<char> {
    settings::or_else(request.text_under(key), ""@)
}

/// The text under `key` of a request, or an empty one.
pub(crate) fn requested<'a>(request: &'a Json, key: &str) -> (r: &'a str)
    ensures
        r@ == text_or_empty(request@, key@),
{
    match request.text_under(key) {
        Some(value) => value,
        None => "",
    }
}

/// An object with one text.
pub open spec fn one_text(key: Seq<char>, value: Seq<char>) -> JsonTree {
    JsonTree::Object(map![key => JsonTree::Text(value)])
}

/// An object with one text.
pub(crate) fn one_text_json(key: &str, value: &str) -> (json: Json)
    ensures
        json@ == one_text(key@, value@),
{
    Fields::new().with(key, Json::text(value)).object()
}

/// A status with a message.
pub open spec fn status_message(status: Seq<char>, message: Seq<char>) -> JsonTree {
    JsonTree::Object(
        map!["status"@ => JsonTree::Text(status), "message"@ => JsonTree::Text(message)],
    )
}

/// A status with a message.
pub(crate) fn status_message_json(status: &str, message: &str) -> (json: Json)
    ensures
        json@ == status_message(status@, message@),
{
    Fields::new().with("status", Json::text(status)).with("message", Json::text(message)).object()
}

/// What a request does not hold as text counts as an empty text.
pub proof fn law_missing_texts_are_empty(request: JsonTree, key: Seq<char>, value: Seq<char>)
    ensures
        request.member(key) == Some(JsonTree::Text(value)) ==> text_or_empty(request, key) == value,
        request.text_under(key) is None ==> text_or_empty(request, key).len() == 0,
{
    reveal_strlit("");
}

/// A reply holds what it was made of, and nothing else.
pub proof fn law_replies_hold_what_they_say(
    key: Seq<char>,
    value: Seq<char>,
    status: Seq<char>,
    message: Seq<char>,
    other: Seq<char>,
)
    ensures
        one_text(key, value).text_under(key) == Some(value),
        other != key ==> one_text(key, value).member(other) is None,
        status_message(status, message).text_under("status"@) == Some(status),
        status_message(status, message).text_under("message"@) == Some(message),
        other != "status"@ && other != "message"@ ==> status_message(status, message).member(other)
            is None,
{
    reveal_strlit("status");
    reveal_strlit("message");
    assert("status"@.len() == 6 && "message"@.len() == 7);
}

} // verus!
