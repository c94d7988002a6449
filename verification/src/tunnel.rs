//! The tunnel lifecycle: one controller per agent that walks the
//! dial / authenticate / stream loop forever, owns the active-session
//! table, and decides every reconnection wait. The I/O itself — dialing,
//! the RPC stream, local sockets — happens outside; the controller is fed
//! events and answers with the next action, so that no session ever
//! outlives its tunnel.

use vstd::prelude::*;

use crate::frame::TunnelFrame;
use crate::session::{DemuxAction, SessionTable};

verus! {

/// Seconds to wait before redialing after a failure or a closed stream.
pub const DIAL_RETRY_SECS: u64 = 5;

/// Seconds to wait after the relay rejects authentication; rejection is
/// never fatal, so that rotating secrets can recover.
pub const AUTH_RETRY_SECS: u64 = 10;

/// Where the tunnel stands.
#[derive(Clone, Copy, PartialEq, Eq, Structural, Debug)]
pub enum TunnelPhase {
    /// No transport; the loop dials from here.
    Disconnected,
    /// Transport up; authentication is in flight.
    Connected,
    /// Authenticated; the init frame and the stream open are in flight.
    Authorized,
    /// The bidirectional stream is live and frames flow.
    Streaming,
}

/// What the outside world reports to the controller.
#[derive(Clone, Copy, PartialEq, Eq, Structural, Debug)]
pub enum TunnelEvent {
    /// The transport to the relay came up.
    DialOk,
    /// The dial failed.
    DialFailed,
    /// The relay accepted the authentication request.
    AuthAccepted,
    /// The relay answered the authentication request with failure.
    AuthRejected,
    /// The init frame could not be queued.
    InitSendFailed,
    /// The bidirectional stream is open.
    StreamOpened,
    /// Opening the bidirectional stream failed.
    StreamFailed,
    /// The stream ended or errored.
    StreamEnded,
}

/// What the loop must do next.
pub enum TunnelAction {
    /// Send the authentication request over the new transport.
    SendAuth,
    /// Start the stats stream, send the one init frame, open the tunnel
    /// stream.
    OpenStream,
    /// Enter the framing loop.
    RunStreaming,
    /// Tear down — the stats task is cancelled, every session is gone —
    /// and redial after this many seconds.
    Retry { wait_secs: u64 },
}

/// Whether an event advances the lifecycle from a phase; every other
/// combination tears the attempt down.
pub open spec fn spec_advances(phase: TunnelPhase, ev: TunnelEvent) -> bool {
    ||| (phase is Disconnected && ev is DialOk)
    ||| (phase is Connected && ev is AuthAccepted)
    ||| (phase is Authorized && ev is StreamOpened)
}

/// The wait before redialing after a torn-down attempt.
pub open spec fn spec_retry_wait(phase: TunnelPhase, ev: TunnelEvent) -> u64 {
    if phase is Connected && ev is AuthRejected {
        AUTH_RETRY_SECS
    } else {
        DIAL_RETRY_SECS
    }
}

/// The tunnel controller: the current phase and the sessions of the
/// current attempt.
pub struct TunnelController {
    phase: TunnelPhase,
    table: SessionTable,
}

impl TunnelController {
    /// The current phase.
    pub closed spec fn phase(self) -> TunnelPhase {
        self.phase
    }

    /// The current session table.
    pub closed spec fn table(self) -> SessionTable {
        self.table
    }

    /// The controller invariant: the table has no duplicate ids, and
    /// sessions exist only while the stream is live.
    pub open spec fn wf(self) -> bool {
        &&& self.table().wf()
        &&& !(self.phase() is Streaming) ==> self.table().spec_sessions().len() == 0
    }

    /// A fresh controller: disconnected, no sessions.
    pub fn new() -> (r: TunnelController)
        ensures
            r.wf(),
            r.phase() is Disconnected,
            r.table().spec_sessions().len() == 0,
    {
        TunnelController { phase: TunnelPhase::Disconnected, table: SessionTable::new() }
    }

    /// Step the lifecycle on one event. The three advancing transitions
    /// are dial-up, authentication accepted, and stream opened; every
    /// other event tears the attempt down: the session table is emptied —
    /// no session outlives its tunnel — and the loop waits before
    /// redialing, ten seconds after a rejected authentication, five
    /// otherwise.
    pub fn on_event(&mut self, ev: TunnelEvent) -> (a: TunnelAction)
        requires
            old(self).wf(),
        ensures
            final(self).wf(),
            spec_advances(old(self).phase(), ev) ==> {
                &&& final(self).table() == old(self).table()
                &&& (old(self).phase() is Disconnected ==> final(self).phase() is Connected
                    && a is SendAuth)
                &&& (old(self).phase() is Connected ==> final(self).phase() is Authorized
                    && a is OpenStream)
                &&& (old(self).phase() is Authorized ==> final(self).phase() is Streaming
                    && a is RunStreaming)
            },
            !spec_advances(old(self).phase(), ev) ==> {
                &&& final(self).phase() is Disconnected
                &&& final(self).table().spec_sessions().len() == 0
                &&& (forall|id: Seq<char>| !final(self).table().contains_id(id))
                &&& (a matches TunnelAction::Retry { wait_secs } && wait_secs
                    == spec_retry_wait(old(self).phase(), ev))
            },
    {
        match (self.phase, ev) {
            (TunnelPhase::Disconnected, TunnelEvent::DialOk) => {
                self.phase = TunnelPhase::Connected;
                TunnelAction::SendAuth
            },
            (TunnelPhase::Connected, TunnelEvent::AuthAccepted) => {
                self.phase = TunnelPhase::Authorized;
                TunnelAction::OpenStream
            },
            (TunnelPhase::Authorized, TunnelEvent::StreamOpened) => {
                self.phase = TunnelPhase::Streaming;
                TunnelAction::RunStreaming
            },
            (TunnelPhase::Connected, TunnelEvent::AuthRejected) => {
                self.phase = TunnelPhase::Disconnected;
                self.table.teardown();
                TunnelAction::Retry { wait_secs: AUTH_RETRY_SECS }
            },
            (_, _) => {
                self.phase = TunnelPhase::Disconnected;
                self.table.teardown();
                TunnelAction::Retry { wait_secs: DIAL_RETRY_SECS }
            },
        }
    }

    /// Route one inbound frame while streaming; the demultiplexer's
    /// behaviour and the table's guarantees are those of `apply_frame`.
    pub fn on_frame(&mut self, frame: &TunnelFrame) -> (r: DemuxAction)
        requires
            old(self).wf(),
            old(self).phase() is Streaming,
        ensures
            final(self).wf(),
            final(self).phase() == old(self).phase(),
            frame.is_eof ==> r is Closed && !final(self).table().contains_id(frame.request_id@),
            !frame.is_eof && frame.request_id@.len() == 0 ==> r is Dropped && final(self).table()
                == old(self).table(),
            !frame.is_eof && frame.request_id@.len() > 0 && !old(self).table().contains_id(
                frame.request_id@,
            ) ==> r is Opened && final(self).table().contains_id(frame.request_id@)
                && final(self).table().session_for(frame.request_id@).history() == seq![
                frame.data@,
            ],
            !frame.is_eof && frame.request_id@.len() > 0 && old(self).table().contains_id(
                frame.request_id@,
            ) ==> r is Delivered && final(self).table().session_for(frame.request_id@).history()
                == old(self).table().session_for(frame.request_id@).history().push(frame.data@),
            forall|id: Seq<char>|
                id != frame.request_id@ ==> (final(self).table().contains_id(id) <==> old(
                    self,
                ).table().contains_id(id)),
    {
        self.table.apply_frame(frame)
    }

    /// Hand the next queued chunk for a session to its local writer.
    pub fn pop_chunk(&mut self, request_id: &str) -> (r: Option<Vec<u8>>)
        requires
            old(self).wf(),
        ensures
            final(self).wf(),
            final(self).phase() == old(self).phase(),
            !old(self).table().contains_id(request_id@) ==> r is None,
            old(self).table().contains_id(request_id@) ==> {
                let t = old(self).table().session_for(request_id@);
                &&& (t.pending_chunks().len() == 0 ==> r is None)
                &&& (t.pending_chunks().len() > 0 ==> (r matches Some(c) && c@ == t.history()[
                t.written_chunks().len() as int]))
            },
    {
        self.table.pop_chunk(request_id)
    }

    /// Drop one session, as on a failed local connect, local EOF, or a
    /// local write error; the tunnel itself stays up.
    pub fn drop_session(&mut self, request_id: &str)
        requires
            old(self).wf(),
        ensures
            final(self).wf(),
            final(self).phase() == old(self).phase(),
            !final(self).table().contains_id(request_id@),
            forall|id: Seq<char>|
                id != request_id@ ==> (final(self).table().contains_id(id) <==> old(
                    self,
                ).table().contains_id(id)),
    {
        self.table.remove(request_id)
    }

    /// Whether a session is live.
    pub fn has_session(&self, request_id: &str) -> (r: bool)
        ensures
            r <==> self.table().contains_id(request_id@),
    {
        self.table.contains(request_id)
    }

    /// The number of live sessions.
    pub fn session_count(&self) -> (r: usize)
        ensures
            r == self.table().spec_sessions().len(),
    {
        self.table.len()
    }
}

} // verus!
