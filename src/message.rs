use vstd::prelude::*;

verus! {

/// One posted message. Immutable once created.
pub struct Message {
    pub content: String,
}

impl View for Message {
    type V = Seq<char>;

    open spec fn view(&self) -> Seq<char> {
        self.content@
    }
}

impl Message {
    pub fn new(content: String) -> (r: Message)
        ensures
            r@ == content@,
    {
        Message { content }
    }

    /// A fresh message holding the same text.
    pub fn duplicate(&self) -> (r: Message)
        ensures
            r@ == self@,
    {
        Message { content: self.content.clone() }
    }
}

/// The texts of a sequence of messages, in order.
pub open spec fn texts(ms: Seq<Message>) -> Seq<Seq<char>> {
    ms.map_values(|m: Message| m@)
}

/// A copy of a message log, in the same order.
pub fn copy_log(ms: &Vec<Message>) -> (r: Vec<Message>)
    ensures
        texts(r@) == texts(ms@),
{
    let mut out: Vec<Message> = Vec::new();
    let mut i: usize = 0;
    while i < ms.len()
        invariant
            i <= ms.len(),
            out@.len() == i,
            forall|j: int| 0 <= j < i ==> out@[j]@ == ms@[j]@,
        decreases ms.len() - i,
    {
        out.push(ms[i].duplicate());
        i = i + 1;
    }
    assert(texts(out@) =~= texts(ms@));
    out
}

/// The whole log of an actor, as handed back by list and append.
pub struct MessageList {
    pub messages: Vec<Message>,
}

impl View for MessageList {
    type V = Seq<Seq<char>>;

    open spec fn view(&self) -> Seq<Seq<char>> {
        texts(self.messages@)
    }
}

impl MessageList {
    /// Number of messages in the list.
    pub fn len(&self) -> (r: usize)
        ensures
            r == self@.len(),
    {
        self.messages.len()
    }

    /// The text of message `i`.
    pub fn content_at(&self, i: usize) -> (r: String)
        requires
            i < self@.len(),
        ensures
            r@ == self@[i as int],
    {
        self.messages[i].content.clone()
    }
}

/// What can go wrong on the way to the actor and back.
#[derive(PartialEq, Eq, Structural, Clone, Copy, Debug)]
pub enum ErrorKind {
    /// The request body is no well-formed message; nothing was sent.
    InvalidRequestBody,
    /// The actor's identity could not be resolved to a live actor.
    DirectoryUnavailable,
    /// Delivery to or from the actor failed; an append may have been applied.
    TransportError,
    /// The request maps to no operation of the actor.
    UnsupportedOperation,
}

impl ErrorKind {
    /// The HTTP status code under which the error is reported.
    pub fn status(&self) -> (r: u16)
        ensures
            r == match *self {
                ErrorKind::InvalidRequestBody => 400u16,
                ErrorKind::DirectoryUnavailable => 503u16,
                ErrorKind::TransportError => 502u16,
                ErrorKind::UnsupportedOperation => 404u16,
            },
    {
        match *self {
            ErrorKind::InvalidRequestBody => 400,
            ErrorKind::DirectoryUnavailable => 503,
            ErrorKind::TransportError => 502,
            ErrorKind::UnsupportedOperation => 404,
        }
    }

    /// The error that an actor reported under an HTTP status code, if any.
    pub fn from_status(status: u16) -> (r: Option<ErrorKind>)
        ensures
            r == match status {
                400u16 => Some(ErrorKind::InvalidRequestBody),
                404u16 => Some(ErrorKind::UnsupportedOperation),
                503u16 => Some(ErrorKind::DirectoryUnavailable),
                502u16 => Some(ErrorKind::TransportError),
                _ => None::<ErrorKind>,
            },
    {
        match status {
            400 => Some(ErrorKind::InvalidRequestBody),
            404 => Some(ErrorKind::UnsupportedOperation),
            503 => Some(ErrorKind::DirectoryUnavailable),
            502 => Some(ErrorKind::TransportError),
            _ => None,
        }
    }
}

/// The request methods that reach an actor.
#[derive(PartialEq, Eq, Structural, Clone, Copy, Debug)]
pub enum Method {
    Head,
    Get,
    Post,
    Put,
    Patch,
    Delete,
    Options,
    Connect,
    Trace,
}

/// An operation of the actor, carrying all it needs.
pub enum Operation {
    /// An informational call that touches no state.
    Info,
    /// Read the whole log.
    List,
    /// Add a message at the end of the log.
    Append(Message),
}

/// The mathematical form of an operation.
pub ghost enum OpView {
    Info,
    List,
    Append(Seq<char>),
}

impl View for Operation {
    type V = OpView;

    open spec fn view(&self) -> OpView {
        match self {
            Operation::Info => OpView::Info,
            Operation::List => OpView::List,
            Operation::Append(m) => OpView::Append(m@),
        }
    }
}

/// What the actor answers to an operation.
pub enum Reply {
    /// The answer to an informational call; it carries no data.
    Info,
    /// The whole log after the operation.
    Messages(MessageList),
}

/// The mathematical form of a reply.
pub ghost enum ReplyView {
    Info,
    Messages(Seq<Seq<char>>),
}

impl View for Reply {
    type V = ReplyView;

    open spec fn view(&self) -> ReplyView {
        match self {
            Reply::Info => ReplyView::Info,
            Reply::Messages(l) => ReplyView::Messages(l@),
        }
    }
}

} // verus!
