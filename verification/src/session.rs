//! Per-request tunnel sessions and the active-session table. A session
//! carries the bytes the relay has delivered for one `request_id`, in
//! arrival order, until the local writer drains them; the table holds at
//! most one session per id. These two structures carry the tunnel's
//! ordering, uniqueness and end-of-stream guarantees.

use vstd::prelude::*;

use crate::frame::TunnelFrame;

verus! {

/// One tunnel session: the FIFO of byte chunks the relay has sent for
/// this `request_id` and the local writer has not yet consumed, together
/// with the (ghost) record of the chunks already consumed.
pub struct Session {
    request_id: String,
    pending: Vec<Vec<u8>>,
    written: Ghost<Seq<Seq<u8>>>,
}

impl Session {
    /// The session's request id.
    pub closed spec fn id(self) -> Seq<char> {
        self.request_id@
    }

    /// The chunks already handed to the local writer, in order.
    pub closed spec fn written_chunks(self) -> Seq<Seq<u8>> {
        self.written@
    }

    /// The chunks still queued, in order.
    pub closed spec fn pending_chunks(self) -> Seq<Seq<u8>> {
        self.pending@.map(|i: int, v: Vec<u8>| v@)
    }

    /// Every chunk the relay has delivered for this session, in arrival
    /// order: what was written, then what is still queued.
    pub open spec fn history(self) -> Seq<Seq<u8>> {
        self.written_chunks() + self.pending_chunks()
    }

    /// The bytes handed to the local socket so far.
    pub open spec fn delivered_bytes(self) -> Seq<u8> {
        self.written_chunks().flatten()
    }

    /// The bytes still queued.
    pub open spec fn pending_bytes(self) -> Seq<u8> {
        self.pending_chunks().flatten()
    }

    /// The bytes the relay has delivered, in arrival order.
    pub open spec fn inbound_bytes(self) -> Seq<u8> {
        self.history().flatten()
    }

    /// A fresh session with nothing delivered yet.
    pub fn new(request_id: String) -> (r: Session)
        ensures
            r.id() == request_id@,
            r.history() == Seq::<Seq<u8>>::empty(),
            r.written_chunks() == Seq::<Seq<u8>>::empty(),
            r.pending_chunks() == Seq::<Seq<u8>>::empty(),
    {
        let r = Session { request_id, pending: Vec::new(), written: Ghost(Seq::empty()) };
        proof {
            assert(r.pending_chunks() =~= Seq::<Seq<u8>>::empty());
            assert(r.history() =~= Seq::<Seq<u8>>::empty());
        }
        r
    }

    /// Queue one inbound chunk at the tail.
    pub fn enqueue(&mut self, chunk: Vec<u8>)
        ensures
            final(self).id() == old(self).id(),
            final(self).written_chunks() == old(self).written_chunks(),
            final(self).pending_chunks() == old(self).pending_chunks().push(chunk@),
            final(self).history() == old(self).history().push(chunk@),
    {
        let ghost old_pending = self.pending_chunks();
        self.pending.push(chunk);
        proof {
            assert(self.pending_chunks() =~= old_pending.push(chunk@));
            assert(self.history() =~= old(self).history().push(chunk@));
        }
    }

    /// Hand the next queued chunk to the local writer: the chunks leave
    /// in exactly the order they arrived.
    pub fn pop_chunk(&mut self) -> (r: Option<Vec<u8>>)
        ensures
            final(self).id() == old(self).id(),
            final(self).history() == old(self).history(),
            old(self).pending_chunks().len() == 0 ==> r is None && *final(self) == *old(self),
            old(self).pending_chunks().len() > 0 ==> (r matches Some(c) && {
                &&& c@ == old(self).history()[old(self).written_chunks().len() as int]
                &&& final(self).written_chunks() == old(self).written_chunks().push(c@)
                &&& final(self).pending_chunks() == old(self).pending_chunks().drop_first()
            }),
    {
        if self.pending.len() == 0 {
            proof {
                assert(self.pending_chunks().len() == 0);
            }
            return None;
        }
        let chunk = self.pending.remove(0);
        proof {
            self.written@ = self.written@.push(chunk@);
        }
        proof {
            assert(self.pending_chunks() =~= old(self).pending_chunks().drop_first());
            assert(old(self).history()[old(self).written_chunks().len() as int] == chunk@);
            assert(self.history() =~= old(self).history());
        }
        Some(chunk)
    }
}

/// Ordered delivery per session: the bytes handed to the local socket,
/// followed by the bytes still queued, are exactly the concatenation of
/// the chunks the relay delivered, in arrival order. Once the queue is
/// drained, the socket has received precisely the inbound byte stream.
pub proof fn lemma_ordered_delivery(s: Session)
    ensures
        s.delivered_bytes() + s.pending_bytes() == s.inbound_bytes(),
        s.pending_chunks().len() == 0 ==> s.delivered_bytes() == s.inbound_bytes(),
{
    vstd::seq_lib::lemma_flatten_concat(s.written_chunks(), s.pending_chunks());
    if s.pending_chunks().len() == 0 {
        assert(s.pending_chunks() =~= Seq::<Seq<u8>>::empty());
        assert(s.pending_bytes() =~= Seq::<u8>::empty());
        assert(s.history() =~= s.written_chunks());
    }
}

/// What the inbound demultiplexer did with one frame.
pub enum DemuxAction {
    /// A non-EOF frame without a request id: dropped, the stream kept.
    Dropped,
    /// An EOF from the relay: the session entry is gone.
    Closed,
    /// First frame of a new request id: a session was created and any
    /// data queued; the caller must open the local connection.
    Opened,
    /// A frame for a live session: its data was queued.
    Delivered,
}

/// The active-session table of one tunnel: at most one session per
/// request id, mutated only by the inbound demultiplexer.
pub struct SessionTable {
    sessions: Vec<Session>,
}

impl SessionTable {
    /// The sessions, in creation order.
    pub closed spec fn spec_sessions(self) -> Seq<Session> {
        self.sessions@
    }

    /// Session uniqueness: no two sessions share a request id.
    pub open spec fn wf(self) -> bool {
        forall|i: int, j: int|
            0 <= i < j < self.spec_sessions().len() ==> self.spec_sessions()[i].id()
                != self.spec_sessions()[j].id()
    }

    /// Whether some session has this request id.
    pub open spec fn contains_id(self, id: Seq<char>) -> bool {
        exists|i: int| 0 <= i < self.spec_sessions().len() && self.spec_sessions()[i].id() == id
    }

    /// The session holding this request id.
    pub open spec fn session_for(self, id: Seq<char>) -> Session
        recommends
            self.contains_id(id),
    {
        self.spec_sessions()[choose|i: int|
            0 <= i < self.spec_sessions().len() && self.spec_sessions()[i].id() == id]
    }

    /// An empty table.
    pub fn new() -> (r: SessionTable)
        ensures
            r.wf(),
            r.spec_sessions().len() == 0,
            forall|id: Seq<char>| !r.contains_id(id),
    {
        SessionTable { sessions: Vec::new() }
    }

    /// The number of live sessions.
    pub fn len(&self) -> (r: usize)
        ensures
            r == self.spec_sessions().len(),
    {
        self.sessions.len()
    }

    /// The position of the session with this id, if any.
    fn find(&self, request_id: &str) -> (r: Option<usize>)
        ensures
            r matches Some(i) ==> i < self.spec_sessions().len()
                && self.spec_sessions()[i as int].id() == request_id@,
            r is None ==> !self.contains_id(request_id@),
    {
        let n = self.sessions.len();
        for i in 0..n
            invariant
                n == self.spec_sessions().len(),
                forall|j: int| 0 <= j < i ==> self.spec_sessions()[j].id() != request_id@,
        {
            if crate::text::str_eq(self.sessions[i].request_id.as_str(), request_id) {
                return Some(i);
            }
        }
        None
    }

    /// Whether a session with this id is live.
    pub fn contains(&self, request_id: &str) -> (r: bool)
        ensures
            r <==> self.contains_id(request_id@),
    {
        self.find(request_id).is_some()
    }

    /// Apply one inbound frame from the relay, as the demultiplexer does:
    /// an EOF removes the session synchronously; a non-EOF frame without a
    /// request id is dropped; a frame for an unknown id opens a session
    /// and queues its data; a frame for a live id queues its data. The
    /// table stays well formed, and every other session is untouched.
    pub fn apply_frame(&mut self, frame: &TunnelFrame) -> (r: DemuxAction)
        requires
            old(self).wf(),
        ensures
            final(self).wf(),
            frame.is_eof ==> r is Closed && !final(self).contains_id(frame.request_id@),
            !frame.is_eof && frame.request_id@.len() == 0 ==> r is Dropped && *final(self)
                == *old(self),
            !frame.is_eof && frame.request_id@.len() > 0 && !old(self).contains_id(
                frame.request_id@,
            ) ==> r is Opened && final(self).contains_id(frame.request_id@) && {
                let s = final(self).session_for(frame.request_id@);
                &&& s.history() == seq![frame.data@]
                &&& s.written_chunks() == Seq::<Seq<u8>>::empty()
            },
            !frame.is_eof && frame.request_id@.len() > 0 && old(self).contains_id(
                frame.request_id@,
            ) ==> r is Delivered && final(self).contains_id(frame.request_id@) && {
                let s = final(self).session_for(frame.request_id@);
                let t = old(self).session_for(frame.request_id@);
                &&& s.history() == t.history().push(frame.data@)
                &&& s.written_chunks() == t.written_chunks()
            },
            forall|id: Seq<char>|
                id != frame.request_id@ ==> (final(self).contains_id(id) <==> old(
                    self,
                ).contains_id(id)),
            forall|id: Seq<char>|
                id != frame.request_id@ && old(self).contains_id(id) ==> final(self).session_for(
                    id,
                ) == old(self).session_for(id),
    {
        if frame.is_eof {
            self.remove(frame.request_id.as_str());
            return DemuxAction::Closed;
        }
        if frame.request_id.as_str().unicode_len() == 0 {
            return DemuxAction::Dropped;
        }
        let ghost rid = frame.request_id@;
        match self.find(frame.request_id.as_str()) {
            Some(i) => {
                let ghost old_sessions = self.spec_sessions();
                let session = &mut self.sessions[i];
                session.enqueue(frame.data.clone());
                proof {
                    assert(forall|k: int|
                        0 <= k < old_sessions.len() && k != i
                            ==> #[trigger] self.spec_sessions()[k] == old_sessions[k]);
                    assert(self.spec_sessions()[i as int].id() == rid);
                    lemma_unique_find(old_sessions, i as int, rid);
                    lemma_update_site(*old(self), *self, rid, i as int);
                    lemma_unique_find(self.spec_sessions(), i as int, rid);
                }
                DemuxAction::Delivered
            },
            None => {
                let mut session = Session::new(frame.request_id.clone());
                session.enqueue(frame.data.clone());
                let ghost new_session = session;
                let ghost old_sessions = self.spec_sessions();
                let ghost n = old_sessions.len() as int;
                self.sessions.push(session);
                proof {
                    assert(forall|k: int|
                        0 <= k < n ==> #[trigger] self.spec_sessions()[k] == old_sessions[k]);
                    assert(self.spec_sessions()[n].id() == rid);
                    assert(forall|k: int| 0 <= k < n ==> old_sessions[k].id() != rid);
                    lemma_push_site(*old(self), *self, rid);
                    lemma_unique_find(self.spec_sessions(), n, rid);
                    assert(self.session_for(rid).history() =~= seq![frame.data@]);
                }
                DemuxAction::Opened
            },
        }
    }

    /// Hand the next queued chunk for this session to the local writer;
    /// nothing comes out of a closed or unknown session.
    pub fn pop_chunk(&mut self, request_id: &str) -> (r: Option<Vec<u8>>)
        requires
            old(self).wf(),
        ensures
            final(self).wf(),
            !old(self).contains_id(request_id@) ==> r is None && *final(self) == *old(self),
            old(self).contains_id(request_id@) ==> {
                let t = old(self).session_for(request_id@);
                let s = final(self).session_for(request_id@);
                &&& final(self).contains_id(request_id@)
                &&& s.history() == t.history()
                &&& (t.pending_chunks().len() == 0 ==> r is None && s == t)
                &&& (t.pending_chunks().len() > 0 ==> (r matches Some(c) && {
                    &&& c@ == t.history()[t.written_chunks().len() as int]
                    &&& s.written_chunks() == t.written_chunks().push(c@)
                    &&& s.pending_chunks() == t.pending_chunks().drop_first()
                }))
            },
            forall|id: Seq<char>|
                id != request_id@ ==> (final(self).contains_id(id) <==> old(self).contains_id(id)),
            forall|id: Seq<char>|
                id != request_id@ && old(self).contains_id(id) ==> final(self).session_for(id)
                    == old(self).session_for(id),
    {
        let ghost rid = request_id@;
        match self.find(request_id) {
            Some(i) => {
                let ghost old_sessions = self.spec_sessions();
                let session = &mut self.sessions[i];
                let r = session.pop_chunk();
                proof {
                    assert(forall|k: int|
                        0 <= k < old_sessions.len() && k != i
                            ==> #[trigger] self.spec_sessions()[k] == old_sessions[k]);
                    assert(self.spec_sessions()[i as int].id() == rid);
                    lemma_unique_find(old_sessions, i as int, rid);
                    lemma_update_site(*old(self), *self, rid, i as int);
                    lemma_unique_find(self.spec_sessions(), i as int, rid);
                }
                r
            },
            None => None,
        }
    }

    /// Remove one session, as on local EOF, a local write error, or a
    /// failed local connect; the rest of the table is untouched.
    pub fn remove(&mut self, request_id: &str)
        requires
            old(self).wf(),
        ensures
            final(self).wf(),
            final(self).spec_sessions().len() <= old(self).spec_sessions().len(),
            !final(self).contains_id(request_id@),
            forall|id: Seq<char>|
                id != request_id@ ==> (final(self).contains_id(id) <==> old(self).contains_id(id)),
            forall|id: Seq<char>|
                id != request_id@ && old(self).contains_id(id) ==> final(self).session_for(id)
                    == old(self).session_for(id),
    {
        let ghost rid = request_id@;
        match self.find(request_id) {
            Some(i) => {
                let ghost old_sessions = self.spec_sessions();
                self.sessions.remove(i);
                proof {
                    assert(forall|k: int|
                        0 <= k < i ==> #[trigger] self.spec_sessions()[k] == old_sessions[k]);
                    assert(forall|k: int|
                        i <= k < self.spec_sessions().len()
                            ==> #[trigger] self.spec_sessions()[k] == old_sessions[k + 1]);
                    assert forall|p: int, q: int|
                        0 <= p < q < self.spec_sessions().len() implies self.spec_sessions()[p].id()
                        != self.spec_sessions()[q].id() by {
                        let p0: int = if p < i {
                            p
                        } else {
                            p + 1
                        };
                        let q0: int = if q < i {
                            q
                        } else {
                            q + 1
                        };
                        assert(old_sessions[p0].id() != old_sessions[q0].id());
                    }
                    lemma_unique_find(old_sessions, i as int, rid);
                    assert forall|id: Seq<char>| #[trigger]
                        self.contains_id(id) implies id == rid || old(self).contains_id(id) by {
                        let m = choose|m: int|
                            0 <= m < self.spec_sessions().len() && self.spec_sessions()[m].id()
                                == id;
                        let m0: int = if m < i {
                            m
                        } else {
                            m + 1
                        };
                        assert(old_sessions[m0].id() == id);
                    }
                    assert(!self.contains_id(rid));
                    assert forall|id: Seq<char>|
                        id != rid && old(self).contains_id(id) implies self.contains_id(id)
                        && self.session_for(id) == old(self).session_for(id) by {
                        let k = choose|k: int|
                            0 <= k < old_sessions.len() && old_sessions[k].id() == id;
                        lemma_unique_find(old_sessions, k, id);
                        let k1: int = if k < i {
                            k
                        } else {
                            k - 1
                        };
                        assert(self.spec_sessions()[k1] == old_sessions[k]);
                        lemma_unique_find(self.spec_sessions(), k1, id);
                    }
                }
            },
            None => (),
        }
    }

    /// Tear the whole table down, as when the tunnel stream ends: no
    /// session outlives its tunnel.
    pub fn teardown(&mut self)
        ensures
            final(self).wf(),
            final(self).spec_sessions().len() == 0,
            forall|id: Seq<char>| !final(self).contains_id(id),
    {
        self.sessions.clear();
    }
}

/// In a table without duplicate ids, the position holding an id is the
/// only one, and it is the one `session_for`'s choice denotes.
proof fn lemma_unique_find(sessions: Seq<Session>, i: int, id: Seq<char>)
    requires
        forall|p: int, q: int|
            0 <= p < q < sessions.len() ==> sessions[p].id() != sessions[q].id(),
        0 <= i < sessions.len(),
        sessions[i].id() == id,
    ensures
        forall|j: int| 0 <= j < sessions.len() && sessions[j].id() == id ==> j == i,
        (choose|j: int| 0 <= j < sessions.len() && sessions[j].id() == id) == i,
{
    assert forall|j: int| 0 <= j < sessions.len() && sessions[j].id() == id implies j == i by {
        if j < i {
            assert(sessions[j].id() != sessions[i].id());
        } else if j > i {
            assert(sessions[i].id() != sessions[j].id());
        }
    }
}

/// Replacing the session at one position by another with the same id
/// keeps the table well formed and every other session unchanged.
proof fn lemma_update_site(a: SessionTable, b: SessionTable, rid: Seq<char>, i: int)
    requires
        a.wf(),
        a.spec_sessions().len() == b.spec_sessions().len(),
        0 <= i < a.spec_sessions().len(),
        a.spec_sessions()[i].id() == rid,
        b.spec_sessions()[i].id() == rid,
        forall|k: int|
            0 <= k < a.spec_sessions().len() && k != i ==> #[trigger] b.spec_sessions()[k]
                == a.spec_sessions()[k],
    ensures
        b.wf(),
        forall|id: Seq<char>| id != rid ==> (b.contains_id(id) <==> a.contains_id(id)),
        forall|id: Seq<char>|
            id != rid && a.contains_id(id) ==> b.session_for(id) == a.session_for(id),
{
    assert forall|p: int, q: int|
        0 <= p < q < b.spec_sessions().len() implies b.spec_sessions()[p].id()
        != b.spec_sessions()[q].id() by {
        assert(b.spec_sessions()[p].id() == a.spec_sessions()[p].id());
        assert(b.spec_sessions()[q].id() == a.spec_sessions()[q].id());
    }
    assert forall|id: Seq<char>| id != rid implies (b.contains_id(id) <==> a.contains_id(id)) by {
        if a.contains_id(id) {
            let k = choose|k: int|
                0 <= k < a.spec_sessions().len() && a.spec_sessions()[k].id() == id;
            assert(k != i);
            assert(b.spec_sessions()[k].id() == id);
        }
        if b.contains_id(id) {
            let m = choose|m: int|
                0 <= m < b.spec_sessions().len() && b.spec_sessions()[m].id() == id;
            assert(m != i);
            assert(a.spec_sessions()[m].id() == id);
        }
    }
    assert forall|id: Seq<char>|
        id != rid && a.contains_id(id) implies b.session_for(id) == a.session_for(id) by {
        let k = choose|k: int|
            0 <= k < a.spec_sessions().len() && a.spec_sessions()[k].id() == id;
        assert(k != i);
        lemma_unique_find(a.spec_sessions(), k, id);
        assert(b.spec_sessions()[k] == a.spec_sessions()[k]);
        lemma_unique_find(b.spec_sessions(), k, id);
    }
}

/// Appending a session under a fresh id keeps the table well formed and
/// every existing session unchanged.
proof fn lemma_push_site(a: SessionTable, b: SessionTable, rid: Seq<char>)
    requires
        a.wf(),
        b.spec_sessions().len() == a.spec_sessions().len() + 1,
        b.spec_sessions()[a.spec_sessions().len() as int].id() == rid,
        !a.contains_id(rid),
        forall|k: int|
            0 <= k < a.spec_sessions().len() ==> #[trigger] b.spec_sessions()[k]
                == a.spec_sessions()[k],
    ensures
        b.wf(),
        forall|id: Seq<char>| id != rid ==> (b.contains_id(id) <==> a.contains_id(id)),
        forall|id: Seq<char>|
            id != rid && a.contains_id(id) ==> b.session_for(id) == a.session_for(id),
{
    let n = a.spec_sessions().len() as int;
    assert forall|p: int, q: int|
        0 <= p < q < b.spec_sessions().len() implies b.spec_sessions()[p].id()
        != b.spec_sessions()[q].id() by {
        if q < n {
            assert(b.spec_sessions()[p].id() == a.spec_sessions()[p].id());
            assert(b.spec_sessions()[q].id() == a.spec_sessions()[q].id());
        } else {
            assert(b.spec_sessions()[p] == a.spec_sessions()[p]);
            assert(a.spec_sessions()[p].id() != rid);
        }
    }
    assert forall|id: Seq<char>| id != rid implies (b.contains_id(id) <==> a.contains_id(id)) by {
        if a.contains_id(id) {
            let k = choose|k: int|
                0 <= k < a.spec_sessions().len() && a.spec_sessions()[k].id() == id;
            assert(b.spec_sessions()[k].id() == id);
        }
        if b.contains_id(id) {
            let m = choose|m: int|
                0 <= m < b.spec_sessions().len() && b.spec_sessions()[m].id() == id;
            assert(m != n);
            assert(a.spec_sessions()[m].id() == id);
        }
    }
    assert forall|id: Seq<char>|
        id != rid && a.contains_id(id) implies b.session_for(id) == a.session_for(id) by {
        let k = choose|k: int|
            0 <= k < a.spec_sessions().len() && a.spec_sessions()[k].id() == id;
        lemma_unique_find(a.spec_sessions(), k, id);
        assert(b.spec_sessions()[k] == a.spec_sessions()[k]);
        lemma_unique_find(b.spec_sessions(), k, id);
    }
}

/// Session uniqueness: a well-formed table never holds two sessions for
/// the same request id.
pub proof fn lemma_session_uniqueness(t: SessionTable, i: int, j: int)
    requires
        t.wf(),
        0 <= i < t.spec_sessions().len(),
        0 <= j < t.spec_sessions().len(),
        i != j,
    ensures
        t.spec_sessions()[i].id() != t.spec_sessions()[j].id(),
{
}

} // verus!
