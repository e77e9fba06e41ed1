//! The life of one transport session: open, asked to disconnect, waiting
//! for the message pump to end, closed.
//!
//! The embedding owns the byte stream and the task that pumps messages. The
//! session record here says what may be done with them, and turns what the
//! embedding saw of the teardown into its result.

use vstd::prelude::*;
use crate::capability::Capability;
use crate::error::{BlockTalkError, ConnectionFault, RpcFailure};

verus! {

/// The phases of a session, in the only order in which they follow each
/// other.
#[derive(Clone, Copy, Debug, PartialEq, Eq, Structural)]
pub enum SessionPhase {
    /// Requests may be sent. The disconnect token has not been taken.
    Open,
    /// The disconnect token was taken; its outcome is awaited.
    Disconnecting,
    /// The RPC layer has closed the connection; the pump's end is awaited.
    Draining,
    /// The pump has ended, or the disconnect failed. Nothing may be sent.
    Closed,
}

/// The one-shot token that asks the RPC layer to close the connection
/// cleanly. It cannot be copied, and a session hands it out once.
#[derive(Debug, PartialEq, Eq)]
pub struct Disconnector {
    pub session: u64,
}

/// How the message pump ended.
#[derive(Clone, Debug, PartialEq, Eq)]
pub enum PumpExit {
    /// The pump returned without an error.
    Completed,
    /// The pump returned the error that the RPC layer ran into.
    Protocol(RpcFailure),
    /// The pump's task panicked; the text describes the panic.
    Panicked(String),
    /// The pump's task was cancelled.
    Cancelled,
}

/// What the embedding saw of a teardown.
#[derive(Debug, PartialEq, Eq)]
pub enum ShutdownEvent {
    /// The disconnect that `token` asked for has ended with `outcome`.
    Disconnected { token: Disconnector, outcome: Result<(), RpcFailure> },
    /// The message pump has ended.
    PumpExited(PumpExit),
}

/// What a teardown needs next.
#[derive(Debug, PartialEq, Eq)]
pub enum ShutdownStep {
    /// Wait for the message pump to end and report how it did.
    AwaitPump,
    /// The teardown is over, with this result.
    Finished(Result<(), BlockTalkError>),
}

/// The record of one transport session.
#[derive(Debug)]
pub struct TransportSession {
    id: u64,
    phase: SessionPhase,
}

/// A transport session as contracts see it.
pub struct SessionView {
    pub id: u64,
    pub phase: SessionPhase,
}

impl PumpExit {
    /// The result of a teardown whose pump ended this way: every failure of
    /// the pump is a `ConnectionError`.
    pub open spec fn result(self) -> Result<(), BlockTalkError> {
        match self {
            PumpExit::Completed => Ok(()),
            PumpExit::Protocol(failure) => Err(failure.teardown_error()),
            PumpExit::Panicked(text) => Err(
                BlockTalkError::ConnectionError(ConnectionFault::PumpPanicked(text)),
            ),
            PumpExit::Cancelled => Err(
                BlockTalkError::ConnectionError(ConnectionFault::PumpCancelled),
            ),
        }
    }

    pub fn into_result(self) -> (result: Result<(), BlockTalkError>)
        ensures
            result == self.result(),
        no_unwind
    {
        match self {
            PumpExit::Completed => Ok(()),
            PumpExit::Protocol(failure) => Err(failure.into_teardown_error()),
            PumpExit::Panicked(text) => Err(
                BlockTalkError::ConnectionError(ConnectionFault::PumpPanicked(text)),
            ),
            PumpExit::Cancelled => Err(
                BlockTalkError::ConnectionError(ConnectionFault::PumpCancelled),
            ),
        }
    }
}

impl SessionView {
    /// Whether the pump task of the session is still running. There is one
    /// per session, from the opening until the session is closed.
    pub open spec fn pump_running(self) -> bool {
        self.phase != SessionPhase::Closed
    }

    /// Whether the disconnect token can still be taken.
    pub open spec fn holds_disconnector(self) -> bool {
        self.phase == SessionPhase::Open
    }

    /// The session after the disconnect token was asked for, and the token
    /// if the session still had it.
    pub open spec fn take_disconnector(self) -> (SessionView, Option<Disconnector>) {
        if self.phase == SessionPhase::Open {
            (
                SessionView { id: self.id, phase: SessionPhase::Disconnecting },
                Some(Disconnector { session: self.id }),
            )
        } else {
            (self, None)
        }
    }

    /// The session after `event`, and what the teardown needs next.
    ///
    /// The outcome of the disconnect counts only while the session waits for
    /// it, and only with this session's token: a clean outcome leads on to
    /// the pump, a failure closes the session with that failure. The end of
    /// the pump closes a session in whatever phase it is, with the pump's
    /// result. Any other event leaves the session as it is and is answered
    /// with a `ConnectionError`.
    pub open spec fn shutdown(self, event: ShutdownEvent) -> (SessionView, ShutdownStep) {
        match event {
            ShutdownEvent::Disconnected { token, outcome } => {
                if token.session != self.id {
                    (
                        self,
                        ShutdownStep::Finished(
                            Err(BlockTalkError::ConnectionError(ConnectionFault::ForeignSession)),
                        ),
                    )
                } else if self.phase != SessionPhase::Disconnecting {
                    (
                        self,
                        ShutdownStep::Finished(
                            Err(BlockTalkError::ConnectionError(ConnectionFault::Unexpected)),
                        ),
                    )
                } else {
                    match outcome {
                        Ok(_) => (
                            SessionView { id: self.id, phase: SessionPhase::Draining },
                            ShutdownStep::AwaitPump,
                        ),
                        Err(failure) => (
                            SessionView { id: self.id, phase: SessionPhase::Closed },
                            ShutdownStep::Finished(Err(failure.teardown_error())),
                        ),
                    }
                }
            },
            ShutdownEvent::PumpExited(exit) => {
                if self.phase == SessionPhase::Closed {
                    (
                        self,
                        ShutdownStep::Finished(
                            Err(BlockTalkError::ConnectionError(ConnectionFault::Closed)),
                        ),
                    )
                } else {
                    (
                        SessionView { id: self.id, phase: SessionPhase::Closed },
                        ShutdownStep::Finished(exit.result()),
                    )
                }
            },
        }
    }

    /// The session after the events of `events`, one by one.
    pub open spec fn after_events(self, events: Seq<ShutdownEvent>) -> SessionView
        decreases events.len(),
    {
        if events.len() == 0 {
            self
        } else {
            self.shutdown(events[0]).0.after_events(events.drop_first())
        }
    }
}

impl SessionPhase {
    /// The place of the phase in the order of a session's life.
    pub open spec fn rank(self) -> nat {
        match self {
            SessionPhase::Open => 0,
            SessionPhase::Disconnecting => 1,
            SessionPhase::Draining => 2,
            SessionPhase::Closed => 3,
        }
    }
}

impl View for TransportSession {
    type V = SessionView;

    closed spec fn view(&self) -> SessionView {
        SessionView { id: self.id, phase: self.phase }
    }
}

impl TransportSession {
    /// Makes the record of the session `id` from what the embedding got
    /// when it opened the byte stream and brought up the RPC layer over it:
    /// the token under which it keeps the node's root interface, or the
    /// reason why the stream could not be opened.
    ///
    /// With a root interface the session is open and is returned with the
    /// root capability; without one the result is a `TransportError` with
    /// the reason.
    pub fn open(id: u64, opened: Result<u64, String>) -> (result: Result<
        (TransportSession, Capability),
        BlockTalkError,
    >)
        ensures
            match opened {
                Ok(token) => result matches Ok((session, root)) && session@ == (SessionView {
                    id,
                    phase: SessionPhase::Open,
                }) && root == (Capability { session: id, token }),
                Err(reason) => result == Err::<(TransportSession, Capability), BlockTalkError>(
                    BlockTalkError::TransportError(reason),
                ),
            },
    {
        match opened {
            Ok(token) => Ok(
                (
                    TransportSession { id, phase: SessionPhase::Open },
                    Capability { session: id, token },
                ),
            ),
            Err(reason) => Err(BlockTalkError::TransportError(reason)),
        }
    }

    pub fn id(&self) -> (id: u64)
        ensures
            id == self@.id,
    {
        self.id
    }

    pub fn phase(&self) -> (phase: SessionPhase)
        ensures
            phase == self@.phase,
    {
        self.phase
    }

    /// Whether requests may be sent over the session.
    pub fn is_open(&self) -> (open: bool)
        ensures
            open == (self@.phase == SessionPhase::Open),
    {
        match self.phase {
            SessionPhase::Open => true,
            _ => false,
        }
    }

    /// Hands out the disconnect token. Only an open session has it, and
    /// handing it out makes the session `Disconnecting`, so a second call
    /// gets `None`.
    pub fn disconnector(&mut self) -> (token: Option<Disconnector>)
        ensures
            (final(self)@, token) == old(self)@.take_disconnector(),
            token is Some <==> old(self)@.holds_disconnector(),
            !final(self)@.holds_disconnector(),
        no_unwind
    {
        match self.phase {
            SessionPhase::Open => {
                self.phase = SessionPhase::Disconnecting;
                Some(Disconnector { session: self.id })
            },
            _ => None,
        }
    }

    /// Takes what the embedding saw of the teardown and says what comes
    /// next: wait for the pump, or the teardown's result.
    pub fn shutdown(&mut self, event: ShutdownEvent) -> (step: ShutdownStep)
        ensures
            (final(self)@, step) == old(self)@.shutdown(event),
        no_unwind
    {
        match event {
            ShutdownEvent::Disconnected { token, outcome } => {
                if token.session != self.id {
                    ShutdownStep::Finished(
                        Err(BlockTalkError::ConnectionError(ConnectionFault::ForeignSession)),
                    )
                } else {
                    match self.phase {
                        SessionPhase::Disconnecting => match outcome {
                            Ok(_) => {
                                self.phase = SessionPhase::Draining;
                                ShutdownStep::AwaitPump
                            },
                            Err(failure) => {
                                self.phase = SessionPhase::Closed;
                                ShutdownStep::Finished(Err(failure.into_teardown_error()))
                            },
                        },
                        _ => ShutdownStep::Finished(
                            Err(BlockTalkError::ConnectionError(ConnectionFault::Unexpected)),
                        ),
                    }
                }
            },
            ShutdownEvent::PumpExited(exit) => {
                match self.phase {
                    SessionPhase::Closed => ShutdownStep::Finished(
                        Err(BlockTalkError::ConnectionError(ConnectionFault::Closed)),
                    ),
                    _ => {
                        self.phase = SessionPhase::Closed;
                        ShutdownStep::Finished(exit.into_result())
                    },
                }
            },
        }
    }
}

proof fn lemma_phases_only_advance(session: SessionView, events: Seq<ShutdownEvent>)
    ensures
        session.after_events(events).id == session.id,
        session.after_events(events).phase.rank() >= session.phase.rank(),
    decreases events.len(),
{
    if events.len() > 0 {
        lemma_phases_only_advance(session.shutdown(events[0]).0, events.drop_first());
    }
}

/// A session never goes back: no event takes it to an earlier phase. So the
/// disconnect token, which only an open session holds, is handed out at
/// most once, and a closed session stays closed.
pub proof fn law_phases_only_advance(session: SessionView, events: Seq<ShutdownEvent>)
    ensures
        session.after_events(events).id == session.id,
        session.after_events(events).phase.rank() >= session.phase.rank(),
        session.take_disconnector().0.after_events(events).take_disconnector().1 is None,
        !session.holds_disconnector() ==> !session.after_events(events).holds_disconnector(),
        !session.pump_running() ==> !session.after_events(events).pump_running(),
        session.phase == SessionPhase::Closed ==> session.after_events(events) == session,
{
    lemma_phases_only_advance(session, events);
    lemma_phases_only_advance(session.take_disconnector().0, events);
}

/// A clean teardown: the token's disconnect succeeds and the pump ends
/// without an error. The result is `Ok`, and the session is closed.
pub proof fn law_clean_teardown(session: SessionView)
    requires
        session.phase == SessionPhase::Open,
    ensures
        ({
            let (asked, token) = session.take_disconnector();
            let (drained, first) = asked.shutdown(
                ShutdownEvent::Disconnected { token: token->0, outcome: Ok(()) },
            );
            let (closed, last) = drained.shutdown(ShutdownEvent::PumpExited(PumpExit::Completed));
            &&& token is Some
            &&& first == ShutdownStep::AwaitPump
            &&& last == ShutdownStep::Finished(Ok(()))
            &&& closed.phase == SessionPhase::Closed
            &&& !closed.pump_running()
        }),
{
}

} // verus!
