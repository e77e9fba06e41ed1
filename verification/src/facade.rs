//! The entry point for a program that talks to a node: the facades for
//! chain and pool queries, bundled with a stake in the connection that they
//! run over.

use vstd::prelude::*;
use crate::bootstrap::Bootstrap;
use crate::capability::{Call, Capability};
use crate::connection::{Connection, ConnectionView, Disconnect};
use crate::error::{BlockTalkError, ConnectionFault};
use crate::session::TransportSession;

verus! {

/// The facade for chain queries: the chain capability and the execution
/// thread under which its requests run.
#[derive(Clone, Copy, Debug, PartialEq, Eq, Structural)]
pub struct ChainInterface {
    pub chain: Capability,
    pub thread: Capability,
}

/// The facade for pool queries. The node answers them through the chain
/// capability.
#[derive(Clone, Copy, Debug, PartialEq, Eq, Structural)]
pub struct MempoolInterface {
    pub chain: Capability,
    pub thread: Capability,
}

/// A holder of one stake in a connection, with the facades to use it.
#[derive(Debug)]
pub struct BlockTalk {
    session: u64,
    chain: ChainInterface,
    mempool: MempoolInterface,
}

/// A `BlockTalk` as contracts see it.
pub struct BlockTalkView {
    pub session: u64,
    pub chain: ChainInterface,
    pub mempool: MempoolInterface,
}

impl ChainInterface {
    /// The chain facade of `connection`.
    pub open spec fn of(connection: ConnectionView) -> ChainInterface {
        ChainInterface {
            chain: connection.capabilities.chain,
            thread: connection.capabilities.thread,
        }
    }

    /// Makes the chain facade of `connection`.
    pub fn new(connection: &Connection) -> (facade: ChainInterface)
        ensures
            facade == ChainInterface::of(connection@),
    {
        ChainInterface { chain: *connection.chain_client(), thread: *connection.thread() }
    }

    /// Clears a request of this facade for sending over `connection`.
    pub fn request(&self, connection: &Connection) -> (result: Result<Call, BlockTalkError>)
        ensures
            result == connection@.call(self.chain, self.thread),
    {
        connection.call(self.chain, self.thread)
    }
}

impl MempoolInterface {
    /// The pool facade of `connection`.
    pub open spec fn of(connection: ConnectionView) -> MempoolInterface {
        MempoolInterface {
            chain: connection.capabilities.chain,
            thread: connection.capabilities.thread,
        }
    }

    /// Makes the pool facade of `connection`.
    pub fn new(connection: &Connection) -> (facade: MempoolInterface)
        ensures
            facade == MempoolInterface::of(connection@),
    {
        MempoolInterface { chain: *connection.chain_client(), thread: *connection.thread() }
    }

    /// Clears a request of this facade for sending over `connection`.
    pub fn request(&self, connection: &Connection) -> (result: Result<Call, BlockTalkError>)
        ensures
            result == connection@.call(self.chain, self.thread),
    {
        connection.call(self.chain, self.thread)
    }
}

impl BlockTalkView {
    /// The connection after this holder asked for one more stake, and
    /// whether it was given.
    pub open spec fn share(self, connection: ConnectionView) -> (
        ConnectionView,
        Result<(), BlockTalkError>,
    ) {
        if self.session != connection.session.id {
            (connection, Err(BlockTalkError::ConnectionError(ConnectionFault::ForeignSession)))
        } else {
            connection.share()
        }
    }

    /// The connection after this holder gave up its stake, and what that
    /// led to. A connection of another session is left alone.
    pub open spec fn disconnect(self, connection: ConnectionView) -> (ConnectionView, Disconnect) {
        if self.session != connection.session.id {
            (
                connection,
                Disconnect::Refused(
                    BlockTalkError::ConnectionError(ConnectionFault::ForeignSession),
                ),
            )
        } else {
            connection.disconnect()
        }
    }
}

impl View for BlockTalk {
    type V = BlockTalkView;

    closed spec fn view(&self) -> BlockTalkView {
        BlockTalkView { session: self.session, chain: self.chain, mempool: self.mempool }
    }
}

impl BlockTalk {
    /// Joins an opened session and its handshake into a connection, and
    /// returns the connection with the holder of its first stake, whose
    /// facades use the connection's capabilities.
    ///
    /// Fails exactly when the connection cannot be made, with the same
    /// error.
    pub fn init(session: TransportSession, handshake: Bootstrap) -> (result: Result<
        (BlockTalk, Connection),
        BlockTalkError,
    >)
        ensures
            match ConnectionView::connect(session@, handshake) {
                Ok(view) => result matches Ok((holder, connection)) && connection@ == view
                    && view.wf() && holder@ == (BlockTalkView {
                    session: view.session.id,
                    chain: ChainInterface::of(view),
                    mempool: MempoolInterface::of(view),
                }),
                Err(error) => result matches Err(found) && found == error,
            },
    {
        match Connection::connect(session, handshake) {
            Ok(connection) => {
                let chain = ChainInterface::new(&connection);
                let mempool = MempoolInterface::new(&connection);
                let holder = BlockTalk { session: connection.session_id(), chain, mempool };
                Ok((holder, connection))
            },
            Err(error) => Err(error),
        }
    }

    /// As `init`, with facades that the caller supplies in place of those
    /// of the connection.
    pub fn init_with(
        session: TransportSession,
        handshake: Bootstrap,
        chain_interface: ChainInterface,
        mempool_interface: MempoolInterface,
    ) -> (result: Result<(BlockTalk, Connection), BlockTalkError>)
        ensures
            match ConnectionView::connect(session@, handshake) {
                Ok(view) => result matches Ok((holder, connection)) && connection@ == view
                    && view.wf() && holder@ == (BlockTalkView {
                    session: view.session.id,
                    chain: chain_interface,
                    mempool: mempool_interface,
                }),
                Err(error) => result matches Err(found) && found == error,
            },
    {
        match Connection::connect(session, handshake) {
            Ok(connection) => {
                let holder = BlockTalk {
                    session: connection.session_id(),
                    chain: chain_interface,
                    mempool: mempool_interface,
                };
                Ok((holder, connection))
            },
            Err(error) => Err(error),
        }
    }

    /// The facade for chain queries.
    pub fn chain(&self) -> (chain: &ChainInterface)
        ensures
            *chain == self@.chain,
    {
        &self.chain
    }

    /// The facade for pool queries.
    pub fn mempool(&self) -> (mempool: &MempoolInterface)
        ensures
            *mempool == self@.mempool,
    {
        &self.mempool
    }

    /// The session whose connection this holder has a stake in.
    pub fn session_id(&self) -> (id: u64)
        ensures
            id == self@.session,
    {
        self.session
    }

    /// Makes one more holder with the same facades, and takes a stake in
    /// `connection` for it. Without the stake there is no new holder. The
    /// count of stakes has to fit its integer.
    pub fn share(&self, connection: &mut Connection) -> (result: Result<BlockTalk, BlockTalkError>)
        requires
            old(connection)@.stakes < u64::MAX,
        ensures
            final(connection)@ == self@.share(old(connection)@).0,
            final(connection)@.wf(),
            match self@.share(old(connection)@).1 {
                Ok(_) => result matches Ok(holder) && holder@ == self@,
                Err(error) => result matches Err(found) && found == error,
            },
    {
        if self.session != connection.session_id() {
            Err(BlockTalkError::ConnectionError(ConnectionFault::ForeignSession))
        } else {
            match connection.share() {
                Ok(_) => Ok(
                    BlockTalk { session: self.session, chain: self.chain, mempool: self.mempool },
                ),
                Err(error) => Err(error),
            }
        }
    }

    /// Gives up this holder's stake. If it was the last one of an open
    /// connection, the answer holds the disconnect token and the caller
    /// tears the transport down; if others remain, the answer is `Released`
    /// and the transport is not touched.
    pub fn disconnect(self, connection: &mut Connection) -> (outcome: Disconnect)
        ensures
            (final(connection)@, outcome) == self@.disconnect(old(connection)@),
            final(connection)@.wf(),
    {
        if self.session != connection.session_id() {
            Disconnect::Refused(BlockTalkError::ConnectionError(ConnectionFault::ForeignSession))
        } else {
            connection.disconnect()
        }
    }
}

} // verus!
