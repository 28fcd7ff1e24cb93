use vstd::prelude::*;
use crate::codec::{content_key, decode_message, encode_message, json_text_member, message_json};
use crate::message::{
    copy_log, texts, ErrorKind, Message, MessageList, Method, OpView, Operation, Reply, ReplyView,
};

verus! {

/// The state of the single-writer actor: its message log, in append order.
pub struct Chatroom {
    messages: Vec<Message>,
}

/// The effect of one operation on a log: the new log and the reply.
pub open spec fn step(log: Seq<Seq<char>>, op: OpView) -> (Seq<Seq<char>>, ReplyView) {
    match op {
        OpView::Info => (log, ReplyView::Info),
        OpView::List => (log, ReplyView::Messages(log)),
        OpView::Append(c) => (log.push(c), ReplyView::Messages(log.push(c))),
    }
}

/// The effect of a run of operations, applied one at a time in order:
/// the final log and the reply to each.
pub open spec fn run(log: Seq<Seq<char>>, ops: Seq<OpView>) -> (Seq<Seq<char>>, Seq<ReplyView>)
    decreases ops.len(),
{
    if ops.len() == 0 {
        (log, Seq::empty())
    } else {
        let (before, replies) = run(log, ops.drop_last());
        let (after, reply) = step(before, ops.last());
        (after, replies.push(reply))
    }
}

/// The texts that the appends among `ops` add, in order.
pub open spec fn appended(ops: Seq<OpView>) -> Seq<Seq<char>>
    decreases ops.len(),
{
    if ops.len() == 0 {
        Seq::empty()
    } else {
        match ops.last() {
            OpView::Append(c) => appended(ops.drop_last()).push(c),
            _ => appended(ops.drop_last()),
        }
    }
}

/// A run of appends of the given texts.
pub open spec fn appends(ms: Seq<Seq<char>>) -> Seq<OpView> {
    ms.map_values(|c: Seq<char>| OpView::Append(c))
}

pub open spec fn op_views(ops: Seq<Operation>) -> Seq<OpView> {
    ops.map_values(|o: Operation| o@)
}

pub open spec fn reply_views(rs: Seq<Reply>) -> Seq<ReplyView> {
    rs.map_values(|r: Reply| r@)
}

/// A request as it crosses the actor boundary: a path, a method and a body.
pub struct ActorRequest {
    pub path: String,
    pub method: Method,
    pub body: String,
}

/// Which operation a request asks for, before its body is read.
#[derive(PartialEq, Eq, Structural, Clone, Copy, Debug)]
pub enum Route {
    Info,
    List,
    Append,
}

/// The path of the informational call.
pub open spec fn root_path() -> Seq<char> {
    "/"@
}

/// The path of the message log.
pub open spec fn messages_path() -> Seq<char> {
    "/messages"@
}

/// The operation that a path and method name; everything else is unsupported.
pub open spec fn route_spec(path: Seq<char>, method: Method) -> Result<Route, ErrorKind> {
    if path == root_path() {
        Ok(Route::Info)
    } else if path == messages_path() {
        match method {
            Method::Get => Ok(Route::List),
            Method::Post => Ok(Route::Append),
            _ => Err(ErrorKind::UnsupportedOperation),
        }
    } else {
        Err(ErrorKind::UnsupportedOperation)
    }
}

fn same_text(a: &str, b: &str) -> (r: bool)
    ensures
        r == (a@ == b@),
{
    a.to_owned() == b.to_owned()
}

/// Maps a request's path and method onto an operation of the actor.
pub fn route_of(path: &str, method: Method) -> (r: Result<Route, ErrorKind>)
    ensures
        r == route_spec(path@, method),
{
    if same_text(path, "/") {
        Ok(Route::Info)
    } else if same_text(path, "/messages") {
        match method {
            Method::Get => Ok(Route::List),
            Method::Post => Ok(Route::Append),
            _ => Err(ErrorKind::UnsupportedOperation),
        }
    } else {
        Err(ErrorKind::UnsupportedOperation)
    }
}

impl Operation {
    /// The request that carries this operation to the actor; an append
    /// carries its message as the JSON body.
    pub fn to_request(&self) -> (r: ActorRequest)
        ensures
            match self@ {
                OpView::Info => r.path@ == root_path() && r.method == Method::Get && r.body@
                    == Seq::<char>::empty(),
                OpView::List => r.path@ == messages_path() && r.method == Method::Get
                    && r.body@ == Seq::<char>::empty(),
                OpView::Append(c) => r.path@ == messages_path() && r.method == Method::Post
                    && r.body@ == message_json(c),
            },
    {
        match self {
            Operation::Info => ActorRequest {
                path: "/".to_owned(),
                method: Method::Get,
                body: String::new(),
            },
            Operation::List => ActorRequest {
                path: "/messages".to_owned(),
                method: Method::Get,
                body: String::new(),
            },
            Operation::Append(m) => ActorRequest {
                path: "/messages".to_owned(),
                method: Method::Post,
                body: encode_message(m),
            },
        }
    }
}

impl View for Chatroom {
    type V = Seq<Seq<char>>;

    closed spec fn view(&self) -> Seq<Seq<char>> {
        texts(self.messages@)
    }
}

impl Chatroom {
    /// A fresh actor with an empty log.
    pub fn new() -> (r: Chatroom)
        ensures
            r@ == Seq::<Seq<char>>::empty(),
    {
        let r = Chatroom { messages: Vec::new() };
        assert(r@ =~= Seq::<Seq<char>>::empty());
        r
    }

    /// The current log, verbatim.
    pub fn list(&self) -> (r: MessageList)
        ensures
            r@ == self@,
    {
        MessageList { messages: copy_log(&self.messages) }
    }

    /// Adds `m` at the end of the log and returns the whole updated log.
    pub fn append(&mut self, m: Message) -> (r: MessageList)
        ensures
            final(self)@ == old(self)@.push(m@),
            r@ == final(self)@,
    {
        self.messages.push(m);
        assert(texts(self.messages@) =~= texts(old(self).messages@).push(m@));
        self.list()
    }

    /// Applies one operation; no other operation can run meanwhile, since
    /// the actor is held exclusively.
    pub fn apply(&mut self, op: Operation) -> (r: Reply)
        ensures
            (final(self)@, r@) == step(old(self)@, op@),
    {
        match op {
            Operation::Info => Reply::Info,
            Operation::List => Reply::Messages(self.list()),
            Operation::Append(m) => Reply::Messages(self.append(m)),
        }
    }

    /// Serves one request that reached the actor. A request that names no
    /// operation, or an append whose body holds no message, is refused and
    /// leaves the log as it was.
    pub fn fetch(&mut self, req: &ActorRequest) -> (r: Result<Reply, ErrorKind>)
        ensures
            match route_spec(req.path@, req.method) {
                Err(e) => r == Err::<Reply, ErrorKind>(e) && final(self)@ == old(self)@,
                Ok(Route::Info) => r matches Ok(rep) && (final(self)@, rep@) == step(
                    old(self)@,
                    OpView::Info,
                ),
                Ok(Route::List) => r matches Ok(rep) && (final(self)@, rep@) == step(
                    old(self)@,
                    OpView::List,
                ),
                Ok(Route::Append) => match json_text_member(req.body@, content_key()) {
                    None => r == Err::<Reply, ErrorKind>(ErrorKind::InvalidRequestBody)
                        && final(self)@ == old(self)@,
                    Some(c) => r matches Ok(rep) && (final(self)@, rep@) == step(
                        old(self)@,
                        OpView::Append(c),
                    ),
                },
            },
    {
        match route_of(req.path.as_str(), req.method) {
            Err(e) => Err(e),
            Ok(Route::Info) => Ok(self.apply(Operation::Info)),
            Ok(Route::List) => Ok(self.apply(Operation::List)),
            Ok(Route::Append) => match decode_message(req.body.as_str()) {
                Err(e) => Err(e),
                Ok(m) => Ok(self.apply(Operation::Append(m))),
            },
        }
    }

    /// Drains an inbound queue: applies its operations one at a time, first
    /// in, first served, and returns the reply to each in the same order.
    pub fn process(&mut self, queue: Vec<Operation>) -> (r: Vec<Reply>)
        ensures
            (final(self)@, reply_views(r@)) == run(old(self)@, op_views(queue@)),
    {
        let ghost all = op_views(queue@);
        let total: usize = queue.len();
        let mut queue = queue;
        let mut replies: Vec<Reply> = Vec::new();
        let mut k: usize = 0;
        while queue.len() > 0
            invariant
                k + queue@.len() == all.len(),
                all.len() == total,
                op_views(queue@) == all.skip(k as int),
                (self@, reply_views(replies@)) == run(old(self)@, all.take(k as int)),
            decreases queue.len(),
        {
            let ghost before = queue@;
            let op = queue.remove(0);
            proof {
                assert(op_views(before)[0] == all.skip(k as int)[0]);
                assert(all.take(k + 1).drop_last() =~= all.take(k as int));
                assert forall|j: int| 0 <= j < queue@.len() implies op_views(queue@)[j] == all.skip(
                    k + 1,
                )[j] by {
                    assert(op_views(before)[j + 1] == all.skip(k as int)[j + 1]);
                }
            }
            let reply = self.apply(op);
            replies.push(reply);
            k = k + 1;
            proof {
                assert(reply_views(replies@) =~= reply_views(replies@.drop_last()).push(reply@));
                assert(op_views(queue@) =~= all.skip(k as int));
            }
        }
        assert(all.take(k as int) =~= all);
        replies
    }
}

} // verus!

verus! {

/// Appends served one at a time lose nothing and duplicate nothing: the final
/// log is the old one followed by the appended texts in the order served, so
/// its length grows by exactly their number, and the reply to the i-th append
/// is the log up to and including that append.
pub proof fn lemma_appends_in_order(log: Seq<Seq<char>>, ms: Seq<Seq<char>>)
    ensures
        run(log, appends(ms)).0 == log + ms,
        run(log, appends(ms)).0.len() == log.len() + ms.len(),
        run(log, appends(ms)).1.len() == ms.len(),
        forall|i: int|
            0 <= i < ms.len() ==> #[trigger] run(log, appends(ms)).1[i] == ReplyView::Messages(
                (log + ms).take(log.len() + i + 1),
            ),
    decreases ms.len(),
{
    if ms.len() == 0 {
        assert(log + ms =~= log);
    } else {
        let rest = ms.drop_last();
        lemma_appends_in_order(log, rest);
        assert(appends(ms).drop_last() =~= appends(rest));
        assert((log + rest).push(ms.last()) =~= log + ms);
        assert((log + ms).take((log.len() + ms.len()) as int) =~= log + ms);
        assert forall|i: int| 0 <= i < rest.len() implies #[trigger] run(log, appends(ms)).1[i]
            == ReplyView::Messages((log + ms).take(log.len() + i + 1)) by {
            assert((log + rest).take(log.len() + i + 1) =~= (log + ms).take(log.len() + i + 1));
        }
    }
}

/// Lists and appends served one at a time never expose a partial state: every
/// log handed back is the old log followed by exactly the texts appended up to
/// that point, and is a prefix of the final log.
pub proof fn lemma_replies_are_prefixes(log: Seq<Seq<char>>, ops: Seq<OpView>)
    ensures
        run(log, ops).0 == log + appended(ops),
        run(log, ops).1.len() == ops.len(),
        forall|i: int|
            0 <= i < ops.len() ==> match #[trigger] run(log, ops).1[i] {
                ReplyView::Messages(l) => l == log + appended(ops.take(i + 1)) && l.len()
                    <= run(log, ops).0.len() && l == run(log, ops).0.take(l.len() as int),
                ReplyView::Info => true,
            },
    decreases ops.len(),
{
    if ops.len() == 0 {
        assert(log + appended(ops) =~= log);
    } else {
        let rest = ops.drop_last();
        lemma_replies_are_prefixes(log, rest);
        let (before, replies) = run(log, rest);
        let (after, reply) = step(before, ops.last());
        assert(ops.take(ops.len() as int) =~= ops);
        match ops.last() {
            OpView::Append(c) => {
                assert(log + appended(ops) =~= (log + appended(rest)).push(c));
            },
            _ => {},
        }
        assert(after.take(after.len() as int) =~= after);
        assert forall|i: int| 0 <= i < rest.len() implies match #[trigger] run(log, ops).1[i] {
            ReplyView::Messages(l) => l == log + appended(ops.take(i + 1)) && l.len()
                <= after.len() && l == after.take(l.len() as int),
            ReplyView::Info => true,
        } by {
            assert(ops.take(i + 1) =~= rest.take(i + 1));
            assert(run(log, ops).1[i] == replies[i]);
            match replies[i] {
                ReplyView::Messages(l) => {
                    assert(after.take(l.len() as int) =~= before.take(l.len() as int));
                },
                ReplyView::Info => {},
            }
        }
    }
}

} // verus!
