use vstd::prelude::*;
use crate::message::{ErrorKind, Message, MessageList, Reply, ReplyView};

verus! {

/// The JSON string literal (quoted and escaped) that serde_json writes for a text.
pub uninterp spec fn json_string_of(s: Seq<char>) -> Seq<char>;

/// The string member `key` of the JSON object written in `text`, as serde_json
/// reads it: `None` when `text` is no JSON, is no object, lacks the member,
/// or holds something other than a string there.
pub uninterp spec fn json_text_member(text: Seq<char>, key: Seq<char>) -> Option<Seq<char>>;

/// Relies on `serde_json::to_string` applied to a `str`: it writes the quoted,
/// escaped literal into a `Vec<u8>`, which cannot fail, so the error arm is
/// never taken.
#[verifier::external_body]
fn json_string(s: &str) -> (r: String)
    ensures
        r@ == json_string_of(s@),
{
    match serde_json::to_string(s) {
        Ok(t) => t,
        Err(_) => String::new(),
    }
}

/// Relies on `serde_json::from_str` into a `serde_json::Value`, and on
/// `Value::get` with a string key, to read one string member of an object.
#[verifier::external_body]
fn text_member(text: &str, key: &str) -> (r: Option<String>)
    ensures
        match r {
            Some(s) => json_text_member(text@, key@) == Some(s@),
            None => json_text_member(text@, key@) is None,
        },
{
    match serde_json::from_str::<serde_json::Value>(text) {
        Ok(v) => match v.get(key) {
            Some(serde_json::Value::String(s)) => Some(s.clone()),
            _ => None,
        },
        Err(_) => None,
    }
}

/// The JSON object of one message: `{"content":<text>}`.
pub open spec fn message_json(c: Seq<char>) -> Seq<char> {
    "{\"content\":"@ + json_string_of(c) + "}"@
}

/// The messages of a log as JSON objects, separated by commas.
pub open spec fn items_json(log: Seq<Seq<char>>) -> Seq<char>
    decreases log.len(),
{
    if log.len() == 0 {
        Seq::empty()
    } else if log.len() == 1 {
        message_json(log[0])
    } else {
        items_json(log.drop_last()) + ","@ + message_json(log.last())
    }
}

/// The JSON object of a whole log: `{"messages":[...]}`.
pub open spec fn log_json(log: Seq<Seq<char>>) -> Seq<char> {
    "{\"messages\":["@ + items_json(log) + "]}"@
}

/// The JSON text of a reply: `null` for an informational call.
pub open spec fn reply_json(r: ReplyView) -> Seq<char> {
    match r {
        ReplyView::Info => "null"@,
        ReplyView::Messages(log) => log_json(log),
    }
}

/// The name of the one member of a message object.
pub open spec fn content_key() -> Seq<char> {
    "content"@
}

/// Encodes one message as the JSON object `{"content":...}`.
pub fn encode_message(m: &Message) -> (r: String)
    ensures
        r@ == message_json(m@),
{
    let mut out = "{\"content\":".to_owned();
    let quoted = json_string(m.content.as_str());
    out.append(quoted.as_str());
    out.append("}");
    out
}

/// Encodes a whole log as `{"messages":[...]}`, in log order.
pub fn encode_log(l: &MessageList) -> (r: String)
    ensures
        r@ == log_json(l@),
{
    let mut items = String::new();
    let mut i: usize = 0;
    while i < l.messages.len()
        invariant
            i <= l.messages.len(),
            items@ == items_json(l@.take(i as int)),
        decreases l.messages.len() - i,
    {
        let one = encode_message(&l.messages[i]);
        if i > 0 {
            items.append(",");
        }
        items.append(one.as_str());
        proof {
            let next = l@.take(i + 1);
            assert(next.drop_last() =~= l@.take(i as int));
            assert(next.last() == l.messages@[i as int]@);
            if i == 0 {
                assert(items@ =~= message_json(next[0]));
            }
        }
        i = i + 1;
    }
    assert(l@.take(i as int) =~= l@);
    let mut out = "{\"messages\":[".to_owned();
    out.append(items.as_str());
    out.append("]}");
    out
}

/// The JSON text that carries a reply back across the actor boundary.
pub fn encode_reply(r: &Reply) -> (t: String)
    ensures
        t@ == reply_json(r@),
{
    match r {
        Reply::Info => "null".to_owned(),
        Reply::Messages(l) => encode_log(l),
    }
}

/// A message from the `content` member read out of a request body, if any.
pub fn message_from_member(member: Option<String>) -> (r: Result<Message, ErrorKind>)
    ensures
        match member {
            Some(c) => r matches Ok(m) && m@ == c@,
            None => r == Err::<Message, ErrorKind>(ErrorKind::InvalidRequestBody),
        },
{
    match member {
        Some(c) => Ok(Message::new(c)),
        None => Err(ErrorKind::InvalidRequestBody),
    }
}

/// Reads a message out of a JSON request body such as `{"content":"hi"}`.
/// A body without a string `content` member is `InvalidRequestBody`.
pub fn decode_message(body: &str) -> (r: Result<Message, ErrorKind>)
    ensures
        match json_text_member(body@, content_key()) {
            Some(c) => r matches Ok(m) && m@ == c,
            None => r == Err::<Message, ErrorKind>(ErrorKind::InvalidRequestBody),
        },
{
    let member = text_member(body, "content");
    message_from_member(member)
}

} // verus!
