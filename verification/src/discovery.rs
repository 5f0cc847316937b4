//! Daemon discovery: which files are daemon sockets, which of them have been
//! attached to, and the steps of attaching to one.
use vstd::prelude::*;

use crate::protocol::{ClientMessage, MessageView, ServerMessage};
use crate::text::laws::extensions_follow_the_last_point;
use crate::text::{
    has_extension, has_path, holds_path, is_extension, is_same_path, same, same_path, texts,
};

verus! {

/// One event from an attached daemon, with the id of the instance it came
/// from.
#[derive(Debug, PartialEq, Eq)]
pub struct Tagged {
    pub instance_id: String,
    pub message: ServerMessage,
}

pub open spec fn socket_name() -> spec_fn(Seq<char>) -> bool {
    |n: Seq<char>| has_extension(n, "sock"@)
}

/// The daemon sockets among the files of a directory: every `*.sock`.
pub fn scan_sockets(names: &Vec<String>) -> (r: Vec<String>)
    ensures
        texts(r@) == texts(names@).filter(socket_name()),
{
    let ghost all = texts(names@);
    let mut r: Vec<String> = Vec::new();
    let mut i: usize = 0;
    proof {
        reveal(Seq::filter);
        assert(texts(r@) =~= all.take(0).filter(socket_name()));
    }
    while i < names.len()
        invariant
            i <= names.len(),
            all == texts(names@),
            texts(r@) == all.take(i as int).filter(socket_name()),
        decreases names.len() - i,
    {
        let ghost before = texts(r@);
        proof {
            reveal(Seq::filter);
            assert(all[i as int] == names@[i as int]@);
            assert(all.take(i + 1).drop_last() =~= all.take(i as int));
            assert(all.take(i + 1).last() == all[i as int]);
        }
        if is_extension(names[i].as_str(), "sock") {
            r.push(names[i].clone());
            assert(texts(r@) =~= before.push(all[i as int]));
        }
        i = i + 1;
    }
    assert(all.take(i as int) =~= all);
    r
}

/// How far attaching to a socket has come.
#[derive(Debug, PartialEq, Eq)]
pub enum AttachStep {
    /// Connect to the socket.
    Connect,
    /// Send this message, which asks for every service's events.
    Subscribe(ClientMessage),
    /// Wait for the daemon's first message.
    AwaitReply,
    /// Attached to the instance with this id: pass on its messages, the first
    /// one included.
    Serve(String),
    /// Leave the socket alone; it may be tried again.
    GiveUp,
}

/// What came of the step that was taken.
pub enum AttachEvent {
    Connected,
    Sent,
    Reply(ServerMessage),
    /// The connection could not be made, broke, or closed.
    Failed,
}

/// The sockets that have been attached to or are being attached to, and the
/// ids of the instances that are attached.
pub struct SocketBook {
    seen: Vec<String>,
    attached: Vec<String>,
}

#[verifier::ext_equal]
pub ghost struct BookView {
    pub seen: Seq<Seq<char>>,
    pub attached: Seq<Seq<char>>,
}

impl View for SocketBook {
    type V = BookView;

    closed spec fn view(&self) -> BookView {
        BookView { seen: texts(self.seen@), attached: texts(self.attached@) }
    }
}

pub open spec fn other_than(x: Seq<char>) -> spec_fn(Seq<char>) -> bool {
    |s: Seq<char>| s != x
}

pub open spec fn elsewhere(path: Seq<char>) -> spec_fn(Seq<char>) -> bool {
    |s: Seq<char>| !same_path(s, path)
}

impl BookView {
    /// Attaching to `path` starts, unless it has started before.
    pub open spec fn begun(self, path: Seq<char>) -> BookView {
        if has_path(self.seen, path) {
            self
        } else {
            BookView { seen: self.seen.push(path), ..self }
        }
    }

    /// `path` may be tried again.
    pub open spec fn forgotten(self, path: Seq<char>) -> BookView {
        BookView { seen: self.seen.filter(elsewhere(path)), ..self }
    }

    /// The connection to `id` at `path` is gone.
    pub open spec fn retired(self, id: Seq<char>, path: Seq<char>) -> BookView {
        BookView { attached: self.attached.filter(other_than(id)), ..self.forgotten(path) }
    }
}

fn holds(list: &Vec<String>, x: &str) -> (r: bool)
    ensures
        r == texts(list@).contains(x@),
{
    let mut i: usize = 0;
    while i < list.len()
        invariant
            i <= list.len(),
            forall|j: int| 0 <= j < i ==> texts(list@)[j] != x@,
        decreases list.len() - i,
    {
        if same(list[i].as_str(), x) {
            assert(texts(list@)[i as int] == x@);
            return true;
        }
        i = i + 1;
    }
    false
}

fn drop_all(list: &mut Vec<String>, x: &str)
    ensures
        texts(final(list)@) == texts(old(list)@).filter(other_than(x@)),
{
    let ghost all = texts(list@);
    let ghost p = other_than(x@);
    let n: usize = list.len();
    let mut seen: usize = 0;
    let mut at: usize = 0;
    proof {
        reveal(Seq::filter);
        assert(texts(list@) =~= all.take(0).filter(p) + all.skip(0));
    }
    while seen < n
        invariant
            at <= seen <= n == all.len(),
            p == other_than(x@),
            at == all.take(seen as int).filter(p).len(),
            texts(list@) == all.take(seen as int).filter(p) + all.skip(seen as int),
        decreases n - seen,
    {
        let ghost kept = all.take(seen as int).filter(p);
        let ghost cur = texts(list@);
        proof {
            reveal(Seq::filter);
            assert(all.take(seen + 1).drop_last() =~= all.take(seen as int));
            assert(all.take(seen + 1).last() == all[seen as int]);
            assert(cur[at as int] == all[seen as int]);
            assert(cur.len() == list@.len());
            assert(cur[at as int] == list@[at as int]@);
        }
        if same(list[at].as_str(), x) {
            let _dropped = list.remove(at);
            assert(texts(list@) =~= cur.remove(at as int));
            assert(texts(list@) =~= kept + all.skip(seen + 1));
        } else {
            at = at + 1;
            assert(kept.push(all[seen as int]) + all.skip(seen + 1) =~= kept + all.skip(
                seen as int,
            ));
        }
        seen = seen + 1;
    }
    assert(all.take(n as int) =~= all);
    assert(texts(list@) =~= all.filter(p));
}

fn drop_path(list: &mut Vec<String>, x: &str)
    ensures
        texts(final(list)@) == texts(old(list)@).filter(elsewhere(x@)),
{
    let ghost all = texts(list@);
    let ghost p = elsewhere(x@);
    let n: usize = list.len();
    let mut seen: usize = 0;
    let mut at: usize = 0;
    proof {
        reveal(Seq::filter);
        assert(texts(list@) =~= all.take(0).filter(p) + all.skip(0));
    }
    while seen < n
        invariant
            at <= seen <= n == all.len(),
            p == elsewhere(x@),
            at == all.take(seen as int).filter(p).len(),
            texts(list@) == all.take(seen as int).filter(p) + all.skip(seen as int),
        decreases n - seen,
    {
        let ghost kept = all.take(seen as int).filter(p);
        let ghost cur = texts(list@);
        proof {
            reveal(Seq::filter);
            assert(all.take(seen + 1).drop_last() =~= all.take(seen as int));
            assert(all.take(seen + 1).last() == all[seen as int]);
            assert(cur[at as int] == all[seen as int]);
            assert(cur.len() == list@.len());
            assert(cur[at as int] == list@[at as int]@);
        }
        if is_same_path(list[at].as_str(), x) {
            let _dropped = list.remove(at);
            assert(texts(list@) =~= cur.remove(at as int));
            assert(texts(list@) =~= kept + all.skip(seen + 1));
        } else {
            at = at + 1;
            assert(kept.push(all[seen as int]) + all.skip(seen + 1) =~= kept + all.skip(
                seen as int,
            ));
        }
        seen = seen + 1;
    }
    assert(all.take(n as int) =~= all);
    assert(texts(list@) =~= all.filter(p));
}

impl SocketBook {
    pub fn new() -> (r: Self)
        ensures
            r@.seen == Seq::<Seq<char>>::empty(),
            r@.attached == Seq::<Seq<char>>::empty(),
    {
        let r = SocketBook { seen: Vec::new(), attached: Vec::new() };
        assert(texts(r.seen@) =~= Seq::empty());
        r
    }

    /// Starts attaching to `path`; nothing is to be done for a socket that has
    /// been seen, since file events come in bursts.
    pub fn attach(&mut self, path: &str) -> (r: Option<AttachStep>)
        ensures
            final(self)@ == old(self)@.begun(path@),
            match r {
                Some(step) => !has_path(old(self)@.seen, path@) && step is Connect,
                None => has_path(old(self)@.seen, path@),
            },
    {
        if holds_path(&self.seen, path) {
            return None;
        }
        let ghost before = texts(self.seen@);
        self.seen.push(path.to_owned());
        assert(texts(self.seen@) =~= before.push(path@));
        Some(AttachStep::Connect)
    }

    /// The next step of attaching to `path`, by what came of the last one. The
    /// first message must introduce the daemon; anything else gives the socket
    /// up, so that a later file event tries it again.
    pub fn attach_one(&mut self, path: &str, event: &AttachEvent) -> (r: AttachStep)
        ensures
            match *event {
                AttachEvent::Connected => final(self)@ == old(self)@ && (r matches
                    AttachStep::Subscribe(m) && m matches ClientMessage::Subscribe { services }
                    && services@.len() == 0),
                AttachEvent::Sent => final(self)@ == old(self)@ && r is AwaitReply,
                AttachEvent::Reply(m) => match m@ {
                    MessageView::Subscribed { instance, .. } => final(self)@ == (BookView {
                        attached: old(self)@.attached.push(instance.id),
                        ..old(self)@
                    }) && (r matches AttachStep::Serve(id) && id@ == instance.id),
                    _ => final(self)@ == old(self)@.forgotten(path@) && r is GiveUp,
                },
                AttachEvent::Failed => final(self)@ == old(self)@.forgotten(path@) && r is GiveUp,
            },
    {
        match event {
            AttachEvent::Connected => AttachStep::Subscribe(
                ClientMessage::Subscribe { services: Vec::new() },
            ),
            AttachEvent::Sent => AttachStep::AwaitReply,
            AttachEvent::Reply(ServerMessage::Subscribed { instance, .. }) => {
                let ghost before = texts(self.attached@);
                self.attached.push(instance.id.clone());
                assert(texts(self.attached@) =~= before.push(instance.id@));
                AttachStep::Serve(instance.id.clone())
            },
            _ => {
                drop_path(&mut self.seen, path);
                AttachStep::GiveUp
            },
        }
    }

    /// The connection to `id` at `path` closed: drop it, so that a later file
    /// event can attach again if the daemon comes back.
    pub fn retire(&mut self, id: &str, path: &str)
        ensures
            final(self)@ == old(self)@.retired(id@, path@),
    {
        drop_all(&mut self.attached, id);
        drop_path(&mut self.seen, path);
    }

    /// Whether a command can be sent to the daemon `id`.
    pub fn is_attached(&self, id: &str) -> (r: bool)
        ensures
            r == self@.attached.contains(id@),
    {
        holds(&self.attached, id)
    }
}

/// Law: a socket is attached to at most once at a time, and again after its
/// connection is gone or attaching to it failed.
pub proof fn a_socket_is_attached_once(book: BookView, id: Seq<char>, path: Seq<char>)
    ensures
        has_path(book.begun(path).seen, path),
        book.begun(path).begun(path) == book.begun(path),
        !has_path(book.forgotten(path).seen, path),
        !has_path(book.retired(id, path).seen, path),
        !book.retired(id, path).attached.contains(id),
{
    if !has_path(book.seen, path) {
        assert(same_path(book.begun(path).seen.last(), path));
    }
    let seen = book.forgotten(path).seen;
    if has_path(seen, path) {
        let i = choose|i: int| 0 <= i < seen.len() && same_path(#[trigger] seen[i], path);
        book.seen.lemma_filter_pred(elsewhere(path), i);
    }
    let attached = book.retired(id, path).attached;
    if attached.contains(id) {
        let i = choose|i: int| 0 <= i < attached.len() && attached[i] == id;
        book.attached.lemma_filter_pred(other_than(id), i);
    }
}

/// Law: a file is a socket exactly when its name ends in `.sock` with something
/// before it; a scan keeps every socket, in its place, and nothing else.
pub proof fn sockets_end_in_sock(stem: Seq<char>, names: Seq<Seq<char>>, name: Seq<char>)
    requires
        stem.len() > 0,
    ensures
        socket_name()(stem + ".sock"@),
        names.push(name).filter(socket_name()) == if has_extension(name, "sock"@) {
            names.filter(socket_name()).push(name)
        } else {
            names.filter(socket_name())
        },
{
    reveal_strlit(".sock");
    reveal_strlit("sock");
    assert(stem + ".sock"@ =~= stem + seq!['.'] + "sock"@);
    extensions_follow_the_last_point(stem, "sock"@);
    reveal(Seq::filter);
    assert(names.push(name).drop_last() =~= names);
}

/// Law: what is attached to and forgotten is the socket that is named, by whatever
/// path, and no other: every other one that was seen stays seen, in its place.
pub proof fn other_sockets_stay(book: BookView, path: Seq<char>, id: Seq<char>, i: int)
    requires
        0 <= i < book.seen.len(),
        !same_path(book.seen[i], path),
    ensures
        book.forgotten(path).seen.contains(book.seen[i]),
        book.begun(path).seen.contains(book.seen[i]),
        book.retired(id, path).seen.contains(book.seen[i]),
        book.forgotten(path).attached == book.attached,
        book.begun(path).attached == book.attached,
        forall|j: int|
            0 <= j < book.attached.len() && book.attached[j] != id ==> book.retired(
                id,
                path,
            ).attached.contains(#[trigger] book.attached[j]),
{
    book.seen.lemma_filter_contains(elsewhere(path), i);
    assert(book.begun(path).seen[i] == book.seen[i]);
    assert forall|j: int| 0 <= j < book.attached.len() && book.attached[j] != id implies book.retired(
        id,
        path,
    ).attached.contains(#[trigger] book.attached[j]) by {
        book.attached.lemma_filter_contains(other_than(id), j);
    }
}

} // verus!
