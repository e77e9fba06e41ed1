//! Remote capabilities as the session sees them, and the requests of the
//! handshake.

use vstd::prelude::*;
use crate::error::RpcFailure;

verus! {

/// The budget that every block template is asked to reserve for what is not
/// a transaction.
pub const BLOCK_RESERVED_WEIGHT: u64 = 4000;

/// A handle to a remote object. The embedding keeps the live reference and
/// names it by `token`; `session` says which session the reference belongs
/// to, so that a handle of one session is never taken for one of another.
#[derive(Clone, Copy, Debug, PartialEq, Eq, Hash, Structural)]
pub struct Capability {
    pub session: u64,
    pub token: u64,
}

/// The capabilities that a finished handshake yields.
#[derive(Clone, Copy, Debug, PartialEq, Eq, Structural)]
pub struct CapabilitySet {
    /// Chain queries and notifications.
    pub chain: Capability,
    /// Only used to obtain `block_template`.
    pub mining: Capability,
    /// Block construction.
    pub block_template: Capability,
    /// The node's execution thread under which every scoped call runs.
    pub thread: Capability,
}

/// A request of the handshake, for the embedding to put on the wire.
#[derive(Clone, Copy, Debug, PartialEq, Eq, Structural)]
pub enum Request {
    /// Ask the root interface for the thread map.
    Construct { root: Capability },
    /// Ask the thread map for a new execution thread.
    MakeThread { thread_map: Capability },
    /// Ask the root interface for the chain capability.
    MakeChain { root: Capability, context: Capability },
    /// Ask the root interface for the mining capability.
    MakeMining { root: Capability, context: Capability },
    /// Ask the mining capability for a new block template.
    CreateNewBlock {
        mining: Capability,
        context: Capability,
        use_mempool: bool,
        block_reserved_weight: u64,
    },
}

/// What came back for a request: the token under which the embedding keeps
/// the capability that the node granted, or the failure.
#[derive(Clone, Debug, PartialEq, Eq)]
pub enum Reply {
    Granted(u64),
    Failed(RpcFailure),
}

/// A request that a facade may put on the wire: the capability it goes to
/// and the execution thread it runs under.
#[derive(Clone, Copy, Debug, PartialEq, Eq, Structural)]
pub struct Call {
    pub target: Capability,
    pub context: Capability,
}

impl CapabilitySet {
    /// Whether every capability of the set is one of the session `session`.
    pub open spec fn belongs_to(self, session: u64) -> bool {
        &&& self.chain.session == session
        &&& self.mining.session == session
        &&& self.block_template.session == session
        &&& self.thread.session == session
    }

    pub fn is_of_session(&self, session: u64) -> (belongs: bool)
        ensures
            belongs == self.belongs_to(session),
    {
        self.chain.session == session && self.mining.session == session
            && self.block_template.session == session && self.thread.session == session
    }
}

impl Request {
    /// The execution thread that the request carries, if it carries one.
    pub open spec fn context(self) -> Option<Capability> {
        match self {
            Request::Construct { .. } => None,
            Request::MakeThread { .. } => None,
            Request::MakeChain { context, .. } => Some(context),
            Request::MakeMining { context, .. } => Some(context),
            Request::CreateNewBlock { context, .. } => Some(context),
        }
    }

    pub fn thread_context(&self) -> (context: Option<Capability>)
        ensures
            context == self.context(),
    {
        match self {
            Request::Construct { .. } => None,
            Request::MakeThread { .. } => None,
            Request::MakeChain { context, .. } => Some(*context),
            Request::MakeMining { context, .. } => Some(*context),
            Request::CreateNewBlock { context, .. } => Some(*context),
        }
    }

    /// The capability that the request is sent to.
    pub open spec fn target(self) -> Capability {
        match self {
            Request::Construct { root } => root,
            Request::MakeThread { thread_map } => thread_map,
            Request::MakeChain { root, .. } => root,
            Request::MakeMining { root, .. } => root,
            Request::CreateNewBlock { mining, .. } => mining,
        }
    }

    pub fn receiver(&self) -> (target: Capability)
        ensures
            target == self.target(),
    {
        match self {
            Request::Construct { root } => *root,
            Request::MakeThread { thread_map } => *thread_map,
            Request::MakeChain { root, .. } => *root,
            Request::MakeMining { root, .. } => *root,
            Request::CreateNewBlock { mining, .. } => *mining,
        }
    }
}

} // verus!
