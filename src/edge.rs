use vstd::prelude::*;
use crate::chatroom::step;
use crate::codec::{content_key, decode_message, encode_reply, json_text_member, reply_json};
use crate::directory::{activate_spec, call_spec, directory_wf, lemma_activate_wf, resolve, Directory, DirectoryView};
use crate::message::{ErrorKind, Message, MessageList, OpView, Operation, Reply, ReplyView};

verus! {

/// What every request handler shares: the name of the one actor that all
/// traffic goes to, and the directory through which it is reached.
pub struct AppState {
    actor: String,
    directory: Directory,
}

/// The log of the actor that `state` sends to, once it is live.
pub open spec fn log_after_activation(d: DirectoryView, name: Seq<char>) -> Seq<Seq<char>> {
    activate_spec(d, name).0.logs[activate_spec(d, name).1]
}

impl AppState {
    /// The name of the actor that all requests go to.
    pub closed spec fn actor(&self) -> Seq<char> {
        self.actor@
    }

    /// The live actors reachable from the handlers.
    pub closed spec fn actors(&self) -> DirectoryView {
        self.directory@
    }

    pub open spec fn wf(&self) -> bool {
        directory_wf(self.actors())
    }

    /// Handlers that send every request to the actor named `name`; no actor
    /// is live yet.
    pub fn with_actor(name: &str) -> (r: AppState)
        ensures
            r.wf(),
            r.actor() == name@,
            r.actors().names.len() == 0,
    {
        AppState { actor: name.to_owned(), directory: Directory::new() }
    }

    /// Handlers that send every request to the actor named `CHATROOM`.
    pub fn new() -> (r: AppState)
        ensures
            r.wf(),
            r.actor() == "CHATROOM"@,
            r.actors().names.len() == 0,
    {
        AppState::with_actor("CHATROOM")
    }

    /// Resolves the configured actor and sends it one operation.
    fn send(&mut self, op: Operation) -> (r: Result<Reply, ErrorKind>)
        requires
            old(self).wf(),
        ensures
            final(self).wf(),
            final(self).actor() == old(self).actor(),
            final(self).actors() == call_spec(
                activate_spec(old(self).actors(), old(self).actor()).0,
                activate_spec(old(self).actors(), old(self).actor()).1,
                op@,
            ).0,
            r matches Ok(rep) && (rep@ == step(
                log_after_activation(old(self).actors(), old(self).actor()),
                op@,
            ).1),
    {
        proof {
            lemma_activate_wf(self.directory@, self.actor@);
        }
        let id = resolve(self.actor.as_str());
        let h = self.directory.activate(&id);
        self.directory.call(&h, op)
    }
}

/// The informational call: the actor's reply to it, as JSON text.
pub fn root(state: &mut AppState) -> (r: Result<String, ErrorKind>)
    requires
        old(state).wf(),
    ensures
        final(state).wf(),
        final(state).actor() == old(state).actor(),
        final(state).actors() == activate_spec(old(state).actors(), old(state).actor()).0,
        r matches Ok(t) && t@ == reply_json(ReplyView::Info),
{
    proof {
        let (d1, a) = activate_spec(state.actors(), state.actor());
        lemma_activate_wf(state.actors(), state.actor());
        assert(d1.logs.update(a, d1.logs[a]) =~= d1.logs);
    }
    match state.send(Operation::Info) {
        Ok(reply) => Ok(encode_reply(&reply)),
        Err(e) => Err(e),
    }
}

/// Lists the messages of the actor: its whole log, which the call leaves as
/// it was.
pub fn get_messages(state: &mut AppState) -> (r: Result<MessageList, ErrorKind>)
    requires
        old(state).wf(),
    ensures
        final(state).wf(),
        final(state).actor() == old(state).actor(),
        final(state).actors() == activate_spec(old(state).actors(), old(state).actor()).0,
        r matches Ok(l) && l@ == log_after_activation(old(state).actors(), old(state).actor()),
{
    proof {
        let (d1, a) = activate_spec(state.actors(), state.actor());
        lemma_activate_wf(state.actors(), state.actor());
        assert(d1.logs.update(a, d1.logs[a]) =~= d1.logs);
    }
    match state.send(Operation::List) {
        Ok(Reply::Messages(l)) => Ok(l),
        Ok(Reply::Info) => Err(ErrorKind::TransportError),
        Err(e) => Err(e),
    }
}

/// Appends a message to the actor's log and returns the whole updated log.
pub fn post_message(state: &mut AppState, m: Message) -> (r: Result<MessageList, ErrorKind>)
    requires
        old(state).wf(),
    ensures
        final(state).wf(),
        final(state).actor() == old(state).actor(),
        final(state).actors() == call_spec(
            activate_spec(old(state).actors(), old(state).actor()).0,
            activate_spec(old(state).actors(), old(state).actor()).1,
            OpView::Append(m@),
        ).0,
        r matches Ok(l) && l@ == log_after_activation(old(state).actors(), old(state).actor()).push(
            m@,
        ),
{
    proof {
        lemma_activate_wf(state.actors(), state.actor());
    }
    match state.send(Operation::Append(m)) {
        Ok(Reply::Messages(l)) => Ok(l),
        Ok(Reply::Info) => Err(ErrorKind::TransportError),
        Err(e) => Err(e),
    }
}

/// Handles a posted JSON body such as `{"content":"hi"}`: appends the message
/// and returns the whole updated log. A body that holds no message is refused
/// with `InvalidRequestBody` before any actor is reached, and nothing changes.
pub fn post_messages(state: &mut AppState, body: &str) -> (r: Result<MessageList, ErrorKind>)
    requires
        old(state).wf(),
    ensures
        final(state).wf(),
        final(state).actor() == old(state).actor(),
        match json_text_member(body@, content_key()) {
            None => r == Err::<MessageList, ErrorKind>(ErrorKind::InvalidRequestBody)
                && final(state).actors() == old(state).actors(),
            Some(c) => {
                &&& final(state).actors() == call_spec(
                    activate_spec(old(state).actors(), old(state).actor()).0,
                    activate_spec(old(state).actors(), old(state).actor()).1,
                    OpView::Append(c),
                ).0
                &&& r matches Ok(l) && l@ == log_after_activation(
                    old(state).actors(),
                    old(state).actor(),
                ).push(c)
            },
        },
{
    match decode_message(body) {
        Ok(m) => post_message(state, m),
        Err(e) => Err(e),
    }
}

} // verus!
