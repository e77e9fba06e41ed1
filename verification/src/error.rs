//! The error taxonomy of a session and the rule that sorts a failed request
//! into it.

use vstd::prelude::*;

verus! {

/// How the RPC layer classed a failure. The first four are the classes that a
/// peer can report for a call; `Other` stands for every failure that the RPC
/// layer found on its own side, such as a reply that it could not decode.
#[derive(Clone, Copy, Debug, PartialEq, Eq, Structural)]
pub enum FailureKind {
    Failed,
    Overloaded,
    Disconnected,
    Unimplemented,
    Other,
}

/// A failure as the RPC layer reports it: its class and its text.
#[derive(Clone, Debug, PartialEq, Eq)]
pub struct RpcFailure {
    pub kind: FailureKind,
    pub detail: String,
}

/// What went wrong with the connection itself.
#[derive(Clone, Debug, PartialEq, Eq)]
pub enum ConnectionFault {
    /// The RPC layer reported the failure.
    Rpc(RpcFailure),
    /// The message pump panicked; the text is the panic's description.
    PumpPanicked(String),
    /// The message pump was cancelled before it finished.
    PumpCancelled,
    /// The session is torn down, or being torn down: found locally, nothing was sent.
    Closed,
    /// A capability or token of another session was presented.
    ForeignSession,
    /// Something arrived that the current state does not wait for.
    Unexpected,
    /// An inbound call could not be decoded into a notification.
    Malformed,
}

/// The three kinds of failure that every fallible operation of a session
/// distinguishes.
#[derive(Clone, Debug, PartialEq, Eq)]
pub enum BlockTalkError {
    /// The byte stream to the node could not be opened.
    TransportError(String),
    /// The connection failed, was closed, or was used after teardown.
    ConnectionError(ConnectionFault),
    /// The node rejected or failed a request; the text is the node's message.
    NodeError(String),
}

impl FailureKind {
    /// Whether a failure of this class is the node's answer to the request,
    /// as opposed to a failure of the connection that carried it.
    pub open spec fn node_reported(self) -> bool {
        self == FailureKind::Failed || self == FailureKind::Overloaded || self
            == FailureKind::Unimplemented
    }

    pub fn is_node_reported(&self) -> (reported: bool)
        ensures
            reported == self.node_reported(),
    {
        match self {
            FailureKind::Failed | FailureKind::Overloaded | FailureKind::Unimplemented => true,
            FailureKind::Disconnected | FailureKind::Other => false,
        }
    }
}

impl RpcFailure {
    /// The error that a request ends with when the RPC layer reports this
    /// failure for it.
    pub open spec fn request_error(self) -> BlockTalkError {
        if self.kind.node_reported() {
            BlockTalkError::NodeError(self.detail)
        } else {
            BlockTalkError::ConnectionError(ConnectionFault::Rpc(self))
        }
    }

    /// Sorts the failure of a request: a failure that the node reported
    /// becomes a `NodeError` with the node's text, every other one a
    /// `ConnectionError` that keeps the whole report.
    pub fn into_request_error(self) -> (error: BlockTalkError)
        ensures
            error == self.request_error(),
    {
        if self.kind.is_node_reported() {
            BlockTalkError::NodeError(self.detail)
        } else {
            BlockTalkError::ConnectionError(ConnectionFault::Rpc(self))
        }
    }

    /// The error that a teardown ends with when the RPC layer reports this
    /// failure for it: always a `ConnectionError`.
    pub open spec fn teardown_error(self) -> BlockTalkError {
        BlockTalkError::ConnectionError(ConnectionFault::Rpc(self))
    }

    pub fn into_teardown_error(self) -> (error: BlockTalkError)
        ensures
            error == self.teardown_error(),
        no_unwind
    {
        BlockTalkError::ConnectionError(ConnectionFault::Rpc(self))
    }
}

impl BlockTalkError {
    /// Whether a caller may see the failure go away on a new connection.
    pub open spec fn transient(self) -> bool {
        !(self is NodeError)
    }

    /// Tells the failures of the transport and of the connection, which a
    /// new attempt may not meet again, from a rejection by the node, which
    /// is final.
    pub fn is_transient(&self) -> (transient: bool)
        ensures
            transient == self.transient(),
    {
        match self {
            BlockTalkError::NodeError(_) => false,
            _ => true,
        }
    }
}

} // verus!
