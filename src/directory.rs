use vstd::prelude::*;
use crate::chatroom::{step, Chatroom};
use crate::message::{ErrorKind, OpView, Operation, Reply, ReplyView};

verus! {

/// The stable identity of an actor, derived from its name alone: the same
/// name always gives the same identity, and distinct names never meet.
pub struct ActorIdentity {
    name: String,
}

impl View for ActorIdentity {
    type V = Seq<char>;

    closed spec fn view(&self) -> Seq<char> {
        self.name@
    }
}

/// Derives the identity of the actor called `name`.
pub fn resolve(name: &str) -> (r: ActorIdentity)
    ensures
        r@ == name@,
{
    ActorIdentity { name: name.to_owned() }
}

/// A reference to one live actor of a directory.
#[derive(PartialEq, Eq, Structural, Clone, Copy, Debug)]
pub struct ActorHandle {
    slot: usize,
}

impl View for ActorHandle {
    type V = int;

    closed spec fn view(&self) -> int {
        self.slot as int
    }
}

/// The mathematical form of a directory: the name of each live actor and,
/// at the same position, its log.
pub ghost struct DirectoryView {
    pub names: Seq<Seq<char>>,
    pub logs: Seq<Seq<Seq<char>>>,
}

/// One log per name, and no name twice.
pub open spec fn directory_wf(d: DirectoryView) -> bool {
    &&& d.names.len() == d.logs.len()
    &&& forall|i: int, j: int|
        0 <= i < d.names.len() && 0 <= j < d.names.len() && i != j ==> d.names[i] != d.names[j]
}

/// Where the actor called `name` lives, if it is live.
pub open spec fn slot_of(names: Seq<Seq<char>>, name: Seq<char>) -> Option<int> {
    if exists|i: int| 0 <= i < names.len() && names[i] == name {
        Some(choose|i: int| 0 <= i < names.len() && names[i] == name)
    } else {
        None
    }
}

/// Activation: the live actor of that name if there is one, else a new
/// actor with an empty log.
pub open spec fn activate_spec(d: DirectoryView, name: Seq<char>) -> (DirectoryView, int) {
    match slot_of(d.names, name) {
        Some(i) => (d, i),
        None => (
            DirectoryView { names: d.names.push(name), logs: d.logs.push(Seq::empty()) },
            d.names.len() as int,
        ),
    }
}

/// A call through a handle: the addressed actor takes one step; a handle
/// that addresses no live actor is a transport failure that changes nothing.
pub open spec fn call_spec(d: DirectoryView, slot: int, op: OpView) -> (
    DirectoryView,
    Result<ReplyView, ErrorKind>,
) {
    if 0 <= slot < d.logs.len() {
        let (log, reply) = step(d.logs[slot], op);
        (DirectoryView { names: d.names, logs: d.logs.update(slot, log) }, Ok(reply))
    } else {
        (d, Err(ErrorKind::TransportError))
    }
}

/// The live actors of a process, each reachable by name.
pub struct Directory {
    names: Vec<String>,
    rooms: Vec<Chatroom>,
}

impl View for Directory {
    type V = DirectoryView;

    closed spec fn view(&self) -> DirectoryView {
        DirectoryView {
            names: self.names@.map_values(|s: String| s@),
            logs: self.rooms@.map_values(|c: Chatroom| c@),
        }
    }
}

impl Directory {
    pub open spec fn wf(&self) -> bool {
        directory_wf(self@)
    }

    /// A directory with no live actor.
    pub fn new() -> (r: Directory)
        ensures
            r.wf(),
            r@.names.len() == 0,
    {
        let r = Directory { names: Vec::new(), rooms: Vec::new() };
        assert(r@.names.len() == 0);
        r
    }

    /// Returns a handle on the one live actor with this identity, bringing it
    /// to life on first use; activating it again hands back the same actor.
    pub fn activate(&mut self, id: &ActorIdentity) -> (r: ActorHandle)
        requires
            old(self).wf(),
        ensures
            final(self).wf(),
            (final(self)@, r@) == activate_spec(old(self)@, id@),
    {
        let mut i: usize = 0;
        while i < self.names.len()
            invariant
                self.wf(),
                *self == *old(self),
                i <= self.names@.len(),
                forall|j: int| 0 <= j < i ==> self@.names[j] != id@,
            decreases self.names.len() - i,
        {
            if self.names[i] == id.name {
                proof {
                    assert(self@.names[i as int] == id@);
                    let k = choose|k: int| 0 <= k < self@.names.len() && self@.names[k] == id@;
                    assert(k == i);
                }
                return ActorHandle { slot: i };
            }
            i = i + 1;
        }
        let slot = self.names.len();
        self.names.push(id.name.clone());
        self.rooms.push(Chatroom::new());
        proof {
            let d = old(self)@;
            assert(self@.names =~= d.names.push(id@));
            assert(self@.logs =~= d.logs.push(Seq::empty()));
        }
        ActorHandle { slot }
    }

    /// Delivers one operation to the actor that `h` addresses and hands back
    /// its reply; the actor is held exclusively for the whole step.
    pub fn call(&mut self, h: &ActorHandle, op: Operation) -> (r: Result<Reply, ErrorKind>)
        requires
            old(self).wf(),
        ensures
            final(self).wf(),
            final(self)@ == call_spec(old(self)@, h@, op@).0,
            match call_spec(old(self)@, h@, op@).1 {
                Ok(rep) => r matches Ok(x) && x@ == rep,
                Err(e) => r == Err::<Reply, ErrorKind>(e),
            },
    {
        if h.slot < self.rooms.len() {
            let reply = self.rooms[h.slot].apply(op);
            proof {
                let d = old(self)@;
                let (log, _) = step(d.logs[h@], op@);
                assert(self@.logs =~= d.logs.update(h@, log));
                assert(self@.names =~= d.names);
            }
            Ok(reply)
        } else {
            Err(ErrorKind::TransportError)
        }
    }
}

} // verus!

verus! {

proof fn lemma_slot_of_found(names: Seq<Seq<char>>, name: Seq<char>, k: int)
    requires
        0 <= k < names.len(),
        names[k] == name,
        forall|i: int, j: int|
            0 <= i < names.len() && 0 <= j < names.len() && i != j ==> names[i] != names[j],
    ensures
        slot_of(names, name) == Some(k),
{
    let c = choose|i: int| 0 <= i < names.len() && names[i] == name;
    assert(names[c] == name);
}

/// Activation keeps the directory well formed and hands out the slot of the
/// actor that bears the name.
pub proof fn lemma_activate_wf(d: DirectoryView, name: Seq<char>)
    requires
        directory_wf(d),
    ensures
        directory_wf(activate_spec(d, name).0),
        0 <= activate_spec(d, name).1 < activate_spec(d, name).0.names.len(),
        activate_spec(d, name).0.names[activate_spec(d, name).1] == name,
{
    match slot_of(d.names, name) {
        Some(i) => {
            let c = choose|i: int| 0 <= i < d.names.len() && d.names[i] == name;
            assert(c == i);
        },
        None => {
            let e = activate_spec(d, name).0;
            assert forall|i: int, j: int|
                0 <= i < e.names.len() && 0 <= j < e.names.len() && i != j implies e.names[i]
                != e.names[j] by {
                if i == d.names.len() {
                    assert(!(0 <= j < d.names.len() && d.names[j] == name));
                } else if j == d.names.len() {
                    assert(!(0 <= i < d.names.len() && d.names[i] == name));
                }
            }
        },
    }
}

/// One name, one actor: activating a name a second time changes nothing and
/// gives the same handle, even after an append through the first handle; and
/// that append is what a list through the second handle sees.
pub proof fn lemma_one_actor_per_name(d: DirectoryView, name: Seq<char>, c: Seq<char>)
    requires
        directory_wf(d),
    ensures
        ({
            let (d1, a) = activate_spec(d, name);
            let (d2, b) = activate_spec(d1, name);
            d2 == d1 && b == a
        }),
        ({
            let (d1, a) = activate_spec(d, name);
            let (d3, appended) = call_spec(d1, a, OpView::Append(c));
            let (d4, b) = activate_spec(d3, name);
            let (d5, listed) = call_spec(d4, b, OpView::List);
            &&& b == a
            &&& d4 == d3
            &&& appended == listed
            &&& listed matches Ok(ReplyView::Messages(l)) && l.len() > 0 && l.last() == c
        }),
{
    lemma_activate_wf(d, name);
    let (d1, a) = activate_spec(d, name);
    lemma_slot_of_found(d1.names, name, a);
    let (d3, appended) = call_spec(d1, a, OpView::Append(c));
    assert(d3.names == d1.names);
    lemma_slot_of_found(d3.names, name, a);
}

} // verus!
