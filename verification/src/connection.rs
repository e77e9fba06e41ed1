//! The connection that facades share: one transport session, the
//! capability set of its handshake, and the count of those who hold a stake
//! in it.
//!
//! Whoever gives up the last stake tears the transport down. Giving up any
//! other stake changes nothing but the count: the teardown is left to the
//! last holder.

use vstd::prelude::*;
use crate::bootstrap::{
    all_granted, law_all_or_nothing, law_failed_step_ends_handshake, Bootstrap,
};
use crate::capability::{Call, Capability, CapabilitySet, Reply};
use crate::error::{BlockTalkError, ConnectionFault};
use crate::session::{
    Disconnector, SessionPhase, SessionView, ShutdownEvent, ShutdownStep, TransportSession,
};

verus! {

/// What giving up a stake led to.
#[derive(Debug, PartialEq, Eq)]
pub enum Disconnect {
    /// The stake is given up and there is nothing to do: others still hold
    /// the connection, or its transport is closing or closed already.
    Released,
    /// It was the last stake of an open connection. The holder now tears
    /// the transport down: waits for the token's disconnect, then for the
    /// pump, and reports both to `shutdown`.
    TearDown(Disconnector),
    /// There was no stake to give up.
    Refused(BlockTalkError),
}

/// A connection to the node, shared by the facades that hold a stake in it.
#[derive(Debug)]
pub struct Connection {
    session: TransportSession,
    capabilities: CapabilitySet,
    stakes: u64,
}

/// A connection as contracts see it.
pub struct ConnectionView {
    pub session: SessionView,
    pub capabilities: CapabilitySet,
    pub stakes: nat,
}

impl ConnectionView {
    /// What holds of every connection: its capabilities are those of its
    /// own session, and a connection without a stake is not open.
    pub open spec fn wf(self) -> bool {
        &&& self.capabilities.belongs_to(self.session.id)
        &&& self.stakes <= u64::MAX
        &&& self.stakes == 0 ==> self.session.phase != SessionPhase::Open
    }

    /// The result of joining a session and its handshake into a connection.
    ///
    /// The error of a failed handshake is passed on as it is. Otherwise the
    /// handshake has to be finished, the session open, and the capabilities
    /// those of that session; the connection then starts with one stake.
    pub open spec fn connect(session: SessionView, handshake: Bootstrap) -> Result<
        ConnectionView,
        BlockTalkError,
    > {
        match handshake {
            Bootstrap::Failed(error) => Err(error),
            Bootstrap::Ready(capabilities) => if session.phase != SessionPhase::Open {
                Err(BlockTalkError::ConnectionError(ConnectionFault::Closed))
            } else if !capabilities.belongs_to(session.id) {
                Err(BlockTalkError::ConnectionError(ConnectionFault::ForeignSession))
            } else {
                Ok(ConnectionView { session, capabilities, stakes: 1 })
            },
            _ => Err(BlockTalkError::ConnectionError(ConnectionFault::Unexpected)),
        }
    }

    /// The connection after one more stake was asked for, and whether it
    /// was given.
    pub open spec fn share(self) -> (ConnectionView, Result<(), BlockTalkError>) {
        if self.stakes == 0 {
            (self, Err(BlockTalkError::ConnectionError(ConnectionFault::Closed)))
        } else {
            (ConnectionView { stakes: self.stakes + 1, ..self }, Ok(()))
        }
    }

    /// The connection after one stake was given up, and what that led to.
    pub open spec fn disconnect(self) -> (ConnectionView, Disconnect) {
        if self.stakes == 0 {
            (self, Disconnect::Refused(BlockTalkError::ConnectionError(ConnectionFault::Closed)))
        } else if self.stakes > 1 {
            (ConnectionView { stakes: (self.stakes - 1) as nat, ..self }, Disconnect::Released)
        } else {
            let (session, token) = self.session.take_disconnector();
            (
                ConnectionView { session, stakes: 0, ..self },
                match token {
                    Some(token) => Disconnect::TearDown(token),
                    None => Disconnect::Released,
                },
            )
        }
    }

    /// The connection after `event` of its teardown, and what the teardown
    /// needs next.
    pub open spec fn shutdown(self, event: ShutdownEvent) -> (ConnectionView, ShutdownStep) {
        (
            ConnectionView { session: self.session.shutdown(event).0, ..self },
            self.session.shutdown(event).1,
        )
    }

    /// What a facade gets when it wants to send a request to `target` under
    /// the execution thread `context`.
    ///
    /// Nothing is sent over a session that is not open. Over an open one the
    /// request has to go to a capability of this session and run under this
    /// session's execution thread.
    pub open spec fn call(self, target: Capability, context: Capability) -> Result<
        Call,
        BlockTalkError,
    > {
        if self.session.phase != SessionPhase::Open {
            Err(BlockTalkError::ConnectionError(ConnectionFault::Closed))
        } else if target.session != self.session.id || context != self.capabilities.thread {
            Err(BlockTalkError::ConnectionError(ConnectionFault::ForeignSession))
        } else {
            Ok(Call { target, context })
        }
    }

    /// The connection after `count` stakes were given up one after the
    /// other.
    pub open spec fn after_disconnects(self, count: nat) -> ConnectionView
        decreases count,
    {
        if count == 0 {
            self
        } else {
            self.disconnect().0.after_disconnects((count - 1) as nat)
        }
    }

    /// What giving up `count` stakes one after the other led to, in that
    /// order.
    pub open spec fn disconnects(self, count: nat) -> Seq<Disconnect>
        decreases count,
    {
        if count == 0 {
            Seq::empty()
        } else {
            seq![self.disconnect().1] + self.disconnect().0.disconnects((count - 1) as nat)
        }
    }

    /// The connection after the events of `events` of its teardown.
    pub open spec fn after_events(self, events: Seq<ShutdownEvent>) -> ConnectionView {
        ConnectionView { session: self.session.after_events(events), ..self }
    }
}

impl View for Connection {
    type V = ConnectionView;

    closed spec fn view(&self) -> ConnectionView {
        ConnectionView {
            session: self.session@,
            capabilities: self.capabilities,
            stakes: self.stakes as nat,
        }
    }
}

impl Connection {
    #[verifier::type_invariant]
    spec fn sound(self) -> bool {
        self@.wf()
    }

    /// Joins an opened session and its handshake into a connection with one
    /// stake, which belongs to the caller.
    ///
    /// A handshake that failed gives its own error, unchanged, and the
    /// session is dropped with it: nothing that the attempt was granted is
    /// handed out. A handshake that is not finished, a session that is not
    /// open and capabilities of another session give a `ConnectionError`.
    pub fn connect(session: TransportSession, handshake: Bootstrap) -> (result: Result<
        Connection,
        BlockTalkError,
    >)
        ensures
            match ConnectionView::connect(session@, handshake) {
                Ok(view) => result matches Ok(connection) && connection@ == view && view.wf(),
                Err(error) => result matches Err(found) && found == error,
            },
    {
        match handshake {
            Bootstrap::Failed(error) => Err(error),
            Bootstrap::Ready(capabilities) => {
                if !session.is_open() {
                    Err(BlockTalkError::ConnectionError(ConnectionFault::Closed))
                } else if !capabilities.is_of_session(session.id()) {
                    Err(BlockTalkError::ConnectionError(ConnectionFault::ForeignSession))
                } else {
                    Ok(Connection { session, capabilities, stakes: 1 })
                }
            },
            _ => Err(BlockTalkError::ConnectionError(ConnectionFault::Unexpected)),
        }
    }

    /// The chain capability.
    pub fn chain_client(&self) -> (chain: &Capability)
        ensures
            *chain == self@.capabilities.chain,
            chain.session == self@.session.id,
    {
        proof {
            use_type_invariant(self);
        }
        &self.capabilities.chain
    }

    /// The block template capability.
    pub fn block_template_client(&self) -> (template: Capability)
        ensures
            template == self@.capabilities.block_template,
            template.session == self@.session.id,
    {
        proof {
            use_type_invariant(self);
        }
        self.capabilities.block_template
    }

    /// The execution thread under which every scoped call of the session
    /// runs.
    pub fn thread(&self) -> (thread: &Capability)
        ensures
            *thread == self@.capabilities.thread,
            thread.session == self@.session.id,
    {
        proof {
            use_type_invariant(self);
        }
        &self.capabilities.thread
    }

    /// The whole capability set.
    pub fn capabilities(&self) -> (set: CapabilitySet)
        ensures
            set == self@.capabilities,
            set.belongs_to(self@.session.id),
    {
        proof {
            use_type_invariant(self);
        }
        self.capabilities
    }

    /// The session that the connection runs over.
    pub fn session_id(&self) -> (id: u64)
        ensures
            id == self@.session.id,
            self@.wf(),
    {
        proof {
            use_type_invariant(self);
        }
        self.session.id()
    }

    /// The phase of the transport.
    pub fn phase(&self) -> (phase: SessionPhase)
        ensures
            phase == self@.session.phase,
    {
        self.session.phase()
    }

    /// How many stakes are held.
    pub fn stakes(&self) -> (stakes: u64)
        ensures
            stakes == self@.stakes,
            stakes == 0 ==> self@.session.phase != SessionPhase::Open,
    {
        proof {
            use_type_invariant(self);
        }
        self.stakes
    }

    /// Takes one more stake in the connection, for a facade that will give
    /// it up with `disconnect`. A connection without a stake is torn down
    /// and gives none. The count of stakes has to fit its integer.
    pub fn share(&mut self) -> (result: Result<(), BlockTalkError>)
        requires
            old(self)@.stakes < u64::MAX,
        ensures
            (final(self)@, result) == old(self)@.share(),
            final(self)@.wf(),
    {
        proof {
            use_type_invariant(&*self);
        }
        if self.stakes == 0 {
            Err(BlockTalkError::ConnectionError(ConnectionFault::Closed))
        } else {
            self.stakes = self.stakes + 1;
            Ok(())
        }
    }

    /// Gives up one stake. The last stake of an open connection takes the
    /// disconnect token with it: the caller then tears the transport down.
    /// Any other stake is just counted off, and the transport is not
    /// touched.
    pub fn disconnect(&mut self) -> (outcome: Disconnect)
        ensures
            (final(self)@, outcome) == old(self)@.disconnect(),
            final(self)@.wf(),
    {
        proof {
            use_type_invariant(&*self);
        }
        if self.stakes == 0 {
            Disconnect::Refused(BlockTalkError::ConnectionError(ConnectionFault::Closed))
        } else if self.stakes > 1 {
            self.stakes = self.stakes - 1;
            Disconnect::Released
        } else {
            let token = self.session.disconnector();
            self.stakes = 0;
            match token {
                Some(token) => Disconnect::TearDown(token),
                None => Disconnect::Released,
            }
        }
    }

    /// Takes what the embedding saw of the teardown and says what comes
    /// next: wait for the pump, or the teardown's result.
    pub fn shutdown(&mut self, event: ShutdownEvent) -> (step: ShutdownStep)
        ensures
            (final(self)@, step) == old(self)@.shutdown(event),
            final(self)@.wf(),
    {
        proof {
            use_type_invariant(&*self);
        }
        self.session.shutdown(event)
    }

    /// Clears a request for sending: to `target`, under the execution
    /// thread `context`. Fails at once, without sending, when the session
    /// is not open, and when the request would mix in another session.
    pub fn call(&self, target: Capability, context: Capability) -> (result: Result<
        Call,
        BlockTalkError,
    >)
        ensures
            result == self@.call(target, context),
    {
        if !self.session.is_open() {
            Err(BlockTalkError::ConnectionError(ConnectionFault::Closed))
        } else if target.session != self.session.id() || context.session
            != self.capabilities.thread.session || context.token
            != self.capabilities.thread.token {
            Err(BlockTalkError::ConnectionError(ConnectionFault::ForeignSession))
        } else {
            Ok(Call { target, context })
        }
    }
}

proof fn lemma_closing_refuses(connection: ConnectionView, count: nat, at: int)
    requires
        connection.wf(),
        connection.stakes == 0,
        0 <= at < count,
    ensures
        connection.disconnects(count)[at] == Disconnect::Refused(
            BlockTalkError::ConnectionError(ConnectionFault::Closed),
        ),
        connection.after_disconnects(count) == connection,
    decreases count,
{
    lemma_disconnects_len(connection, (count - 1) as nat);
    if at > 0 {
        lemma_closing_refuses(connection, (count - 1) as nat, at - 1);
        assert(connection.disconnects(count)[at] == connection.disconnects((count - 1) as nat)[at
            - 1]);
    } else if count > 1 {
        lemma_closing_refuses(connection, (count - 1) as nat, 0);
    }
}

proof fn lemma_disconnects(connection: ConnectionView, count: nat, at: int)
    requires
        connection.wf(),
        connection.session.phase == SessionPhase::Open,
        0 <= at < count,
    ensures
        connection.disconnects(count).len() == count,
        at < connection.stakes - 1 ==> connection.disconnects(count)[at] == Disconnect::Released,
        at == connection.stakes - 1 ==> connection.disconnects(count)[at] == Disconnect::TearDown(
            Disconnector { session: connection.session.id },
        ),
        at > connection.stakes - 1 ==> connection.disconnects(count)[at] == Disconnect::Refused(
            BlockTalkError::ConnectionError(ConnectionFault::Closed),
        ),
    decreases count,
{
    lemma_disconnects_len(connection, count);
    let next = connection.disconnect().0;
    lemma_disconnects_len(next, (count - 1) as nat);
    if at > 0 {
        assert(connection.disconnects(count)[at] == next.disconnects((count - 1) as nat)[at - 1]);
        if connection.stakes > 1 {
            lemma_disconnects(next, (count - 1) as nat, at - 1);
        } else {
            lemma_closing_refuses(next, (count - 1) as nat, at - 1);
        }
    }
}

proof fn lemma_disconnects_len(connection: ConnectionView, count: nat)
    ensures
        connection.disconnects(count).len() == count,
    decreases count,
{
    if count > 0 {
        lemma_disconnects_len(connection.disconnect().0, (count - 1) as nat);
    }
}

proof fn lemma_open_while_held(connection: ConnectionView, count: nat)
    requires
        connection.wf(),
        connection.session.phase == SessionPhase::Open,
    ensures
        connection.after_disconnects(count).wf(),
        connection.after_disconnects(count).capabilities == connection.capabilities,
        connection.after_disconnects(count).session.id == connection.session.id,
        count < connection.stakes ==> connection.after_disconnects(count).session.phase
            == SessionPhase::Open && connection.after_disconnects(count).stakes
            == connection.stakes - count,
        count >= connection.stakes ==> connection.after_disconnects(count).session.phase
            == SessionPhase::Disconnecting && connection.after_disconnects(count).stakes == 0,
    decreases count,
{
    if count > 0 {
        let next = connection.disconnect().0;
        if connection.stakes > 1 {
            lemma_open_while_held(next, (count - 1) as nat);
        } else {
            if count > 1 {
                lemma_closing_refuses(next, (count - 1) as nat, 0);
            }
        }
    }
}

/// Of the holders of an open connection, the one who gives up the last
/// stake tears the transport down, and nobody else does: when stakes are
/// given up one after the other, the answer is `TearDown` exactly at the
/// call that gives up the last one. Every call before it is answered with
/// `Released` and leaves the session open; every call after it is refused.
/// The stakes are only counted, so it does not matter which holder calls
/// when.
pub proof fn law_last_stake_tears_down(connection: ConnectionView, calls: nat)
    requires
        connection.wf(),
        connection.session.phase == SessionPhase::Open,
    ensures
        connection.disconnects(calls).len() == calls,
        forall|i: int|
            0 <= i < calls ==> ((#[trigger] connection.disconnects(calls)[i]) is TearDown <==> i
                == connection.stakes - 1),
        forall|i: int|
            0 <= i < calls && i < connection.stakes - 1 ==> (
            #[trigger] connection.disconnects(calls)[i]) == Disconnect::Released,
        forall|i: int|
            0 <= i < calls && i >= connection.stakes ==> (
            #[trigger] connection.disconnects(calls)[i]) is Refused,
        calls < connection.stakes ==> connection.after_disconnects(calls).session.phase
            == SessionPhase::Open,
        calls >= connection.stakes ==> connection.after_disconnects(calls).session.phase
            == SessionPhase::Disconnecting,
{
    lemma_disconnects_len(connection, calls);
    lemma_open_while_held(connection, calls);
    assert forall|i: int| 0 <= i < calls implies ((#[trigger] connection.disconnects(calls)[i])
        is TearDown <==> i == connection.stakes - 1) && (i < connection.stakes - 1
        ==> connection.disconnects(calls)[i] == Disconnect::Released) && (i >= connection.stakes
        ==> connection.disconnects(calls)[i] is Refused) by {
        lemma_disconnects(connection, calls, i);
    }
}

/// A handshake in which a step failed makes no connection: joined with
/// whatever session, it gives the error of that step, and so nothing that
/// the attempt was granted is ever handed out.
pub proof fn law_failed_handshake_connects_nothing(
    session: SessionView,
    root: Capability,
    replies: Seq<Reply>,
    step: int,
)
    requires
        0 <= step < replies.len(),
        step < 5,
        all_granted(replies, step),
        replies[step] is Failed,
    ensures
        ConnectionView::connect(session, Bootstrap::initial(root).after_all(replies)) == Err::<
            ConnectionView,
            BlockTalkError,
        >(replies[step]->Failed_0.request_error()),
{
    law_failed_step_ends_handshake(root, replies, step);
}

/// A handshake whose five requests were all granted, joined with the open
/// session of its root, makes a connection with one stake.
pub proof fn law_granted_handshake_connects(
    session: SessionView,
    root: Capability,
    replies: Seq<Reply>,
)
    requires
        session.phase == SessionPhase::Open,
        root.session == session.id,
        replies.len() >= 5,
        all_granted(replies, 5),
    ensures
        ConnectionView::connect(session, Bootstrap::initial(root).after_all(replies)) == Ok::<
            ConnectionView,
            BlockTalkError,
        >(
            ConnectionView {
                session,
                capabilities: Bootstrap::granted_set(root, replies),
                stakes: 1,
            },
        ),
        ConnectionView::connect(session, Bootstrap::initial(root).after_all(replies))->Ok_0.wf(),
{
    law_all_or_nothing(root, replies);
}

/// Once the teardown of a connection has begun, no request is cleared for
/// sending any more: every attempt fails at once with a `ConnectionError`,
/// whatever the teardown's events were and whether it has ended or not.
pub proof fn law_no_call_after_teardown(
    connection: ConnectionView,
    events: Seq<ShutdownEvent>,
    target: Capability,
    context: Capability,
)
    requires
        connection.session.phase != SessionPhase::Open,
    ensures
        connection.after_events(events).call(target, context) == Err::<Call, BlockTalkError>(
            BlockTalkError::ConnectionError(ConnectionFault::Closed),
        ),
{
    crate::session::law_phases_only_advance(connection.session, events);
}

/// A request of an open connection is cleared exactly when it goes to a
/// capability of the connection's session and runs under the connection's
/// own execution thread, and it is sent as it was asked for.
pub proof fn law_calls_share_the_thread(
    connection: ConnectionView,
    target: Capability,
    context: Capability,
)
    requires
        connection.wf(),
    ensures
        connection.call(target, context) matches Ok(call) ==> call.context
            == connection.capabilities.thread && call.target == target && call.context.session
            == call.target.session,
        connection.call(target, context) is Ok <==> connection.session.phase == SessionPhase::Open
            && target.session == connection.session.id && context
            == connection.capabilities.thread,
{
}

} // verus!
