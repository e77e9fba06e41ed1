//! A sans-I/O core for talking to a blockchain node over a capability-based
//! IPC connection.
//!
//! The crate holds the decisions of a client session and leaves the byte
//! stream, the RPC runtime and the task scheduling to the embedding program:
//! the embedding performs what the state machines here ask for and reports back
//! what happened.

pub mod bootstrap;
pub mod capability;
pub mod connection;
pub mod error;
pub mod facade;
pub mod notification;
pub mod session;
pub mod wire;

pub use bootstrap::Bootstrap;
pub use capability::{Call, Capability, CapabilitySet, Reply, Request};
pub use connection::{Connection, ConnectionView, Disconnect};
pub use error::{BlockTalkError, ConnectionFault, FailureKind, RpcFailure};
pub use facade::{BlockTalk, BlockTalkView, ChainInterface, MempoolInterface};
pub use notification::{
    CallReply, ChainNotification, EventKind, InboundEvent, NotificationHandler,
    NotificationRegistration, Subscribe, Unsubscribe,
};
pub use session::{
    Disconnector, PumpExit, SessionPhase, SessionView, ShutdownEvent, ShutdownStep, TransportSession,
};
