//! Chain events that the node pushes to the client.
//!
//! The client registers a callback capability with the node; the node then
//! calls it once for each event. Each such call is decoded and handed to the
//! handler of the registration, and the handler's answer is the answer to
//! that call. Nothing is kept from one call to the next.

use vstd::prelude::*;
use crate::capability::{Call, Capability};
use crate::connection::Connection;
use crate::error::{BlockTalkError, ConnectionFault, RpcFailure};
use crate::session::SessionPhase;

verus! {

/// The length of a block hash and of a transaction id, in bytes.
pub const ID_LENGTH: usize = 32;

/// An event of the chain, as the handler gets it.
#[derive(Clone, Copy, Debug, PartialEq, Eq)]
pub enum ChainNotification {
    /// A block was connected to the active chain.
    BlockConnected { hash: [u8; 32], height: i32 },
    /// A block was disconnected from the active chain.
    BlockDisconnected { hash: [u8; 32], height: i32 },
    /// A transaction entered the pool.
    TransactionAddedToPool { txid: [u8; 32] },
    /// The tip of the active chain changed.
    ChainTipUpdated { hash: [u8; 32], height: i32 },
}

/// A chain event as contracts see it.
pub enum NotificationView {
    BlockConnected { hash: Seq<u8>, height: int },
    BlockDisconnected { hash: Seq<u8>, height: int },
    TransactionAddedToPool { txid: Seq<u8> },
    ChainTipUpdated { hash: Seq<u8>, height: int },
}

impl View for ChainNotification {
    type V = NotificationView;

    open spec fn view(&self) -> NotificationView {
        match *self {
            ChainNotification::BlockConnected { hash, height } => NotificationView::BlockConnected {
                hash: hash@,
                height: height as int,
            },
            ChainNotification::BlockDisconnected {
                hash,
                height,
            } => NotificationView::BlockDisconnected { hash: hash@, height: height as int },
            ChainNotification::TransactionAddedToPool {
                txid,
            } => NotificationView::TransactionAddedToPool { txid: txid@ },
            ChainNotification::ChainTipUpdated {
                hash,
                height,
            } => NotificationView::ChainTipUpdated { hash: hash@, height: height as int },
        }
    }
}

/// Which event an inbound call reports.
#[derive(Clone, Copy, Debug, PartialEq, Eq, Structural)]
pub enum EventKind {
    BlockConnected,
    BlockDisconnected,
    TransactionAddedToPool,
    ChainTipUpdated,
}

/// A call of the node on the callback capability, as it came off the wire:
/// the event it reports, the bytes of the block hash or transaction id, and
/// the height, which a transaction event leaves unused.
#[derive(Clone, Debug, PartialEq, Eq)]
pub struct InboundEvent {
    pub kind: EventKind,
    pub id: Vec<u8>,
    pub height: i32,
}

/// The answer to one call of the node.
#[derive(Clone, Debug, PartialEq, Eq)]
pub enum CallReply {
    /// The handler took the event.
    Acknowledged,
    /// The call failed; the node gets the error for this call.
    Failed(BlockTalkError),
}

/// What a caller supplies to receive chain events: it accepts one event and
/// answers with an acknowledgment or an error.
pub trait NotificationHandler {
    fn handle_notification(&mut self, notification: ChainNotification) -> Result<
        (),
        BlockTalkError,
    >;
}

/// The request that registers a callback capability with the node.
#[derive(Clone, Copy, Debug, PartialEq, Eq, Structural)]
pub struct Subscribe {
    /// Where the request goes and under which execution thread.
    pub call: Call,
    /// The capability that the node is to call.
    pub callback: Capability,
}

/// The request that asks the node to stop calling a callback capability.
#[derive(Clone, Copy, Debug, PartialEq, Eq)]
pub struct Unsubscribe {
    pub call: Call,
    pub callback: Capability,
    /// The token that the node gave for the subscription, if it gave one.
    pub subscription: Option<u64>,
}

/// A handler that is registered with the node: the handler, the callback
/// capability that stands for it, and the node's token for the subscription.
#[derive(Debug)]
pub struct NotificationRegistration<H> {
    handler: H,
    callback: Capability,
    subscription: Option<u64>,
}

/// A registration as contracts see it.
pub struct RegistrationView<H> {
    pub handler: H,
    pub callback: Capability,
    pub subscription: Option<u64>,
}

/// The notification that an inbound call decodes to. The id has to be of
/// the length of a hash; every such call decodes, to the event that it
/// reports.
pub open spec fn decoded(event: InboundEvent) -> Result<NotificationView, BlockTalkError> {
    if event.id@.len() != ID_LENGTH {
        Err(BlockTalkError::ConnectionError(ConnectionFault::Malformed))
    } else {
        Ok(
            match event.kind {
                EventKind::BlockConnected => NotificationView::BlockConnected {
                    hash: event.id@,
                    height: event.height as int,
                },
                EventKind::BlockDisconnected => NotificationView::BlockDisconnected {
                    hash: event.id@,
                    height: event.height as int,
                },
                EventKind::TransactionAddedToPool => NotificationView::TransactionAddedToPool {
                    txid: event.id@,
                },
                EventKind::ChainTipUpdated => NotificationView::ChainTipUpdated {
                    hash: event.id@,
                    height: event.height as int,
                },
            },
        )
    }
}

/// The answer to a call whose handler returned `outcome`.
pub open spec fn acknowledged(outcome: Result<(), BlockTalkError>) -> CallReply {
    match outcome {
        Ok(_) => CallReply::Acknowledged,
        Err(error) => CallReply::Failed(error),
    }
}

/// The notifications that the handler gets when the calls of `events` come
/// in one after the other: those that decode, in the order of the calls.
pub open spec fn delivered(events: Seq<InboundEvent>) -> Seq<NotificationView>
    decreases events.len(),
{
    if events.len() == 0 {
        Seq::empty()
    } else {
        match decoded(events.last()) {
            Ok(notification) => delivered(events.drop_last()).push(notification),
            Err(_) => delivered(events.drop_last()),
        }
    }
}

/// The answers that the node gets when the calls of `events` come in one
/// after the other and the handler returns `outcomes[i]` for the call `i`.
pub open spec fn answered(
    events: Seq<InboundEvent>,
    outcomes: Seq<Result<(), BlockTalkError>>,
) -> Seq<CallReply> {
    Seq::new(
        events.len(),
        |i: int|
            match decoded(events[i]) {
                Ok(_) => acknowledged(outcomes[i]),
                Err(error) => CallReply::Failed(error),
            },
    )
}

fn copy_id(bytes: &Vec<u8>) -> (id: Option<[u8; 32]>)
    ensures
        bytes@.len() == ID_LENGTH ==> (id matches Some(copy) && copy@ == bytes@),
        bytes@.len() != ID_LENGTH ==> id is None,
{
    if bytes.len() != ID_LENGTH {
        return None;
    }
    let mut id = [0u8;32];
    let mut at: usize = 0;
    while at < ID_LENGTH
        invariant
            at <= ID_LENGTH,
            bytes@.len() == ID_LENGTH,
            forall|i: int| 0 <= i < at ==> id@[i] == bytes@[i],
        decreases ID_LENGTH - at,
    {
        id[at] = bytes[at];
        at = at + 1;
    }
    assert(id@ =~= bytes@);
    Some(id)
}

/// Decodes a call of the node into the notification that it reports, or
/// says that it is malformed.
pub fn decode(event: &InboundEvent) -> (result: Result<ChainNotification, BlockTalkError>)
    ensures
        match decoded(*event) {
            Ok(view) => result matches Ok(notification) && notification@ == view,
            Err(error) => result matches Err(found) && found == error,
        },
{
    match copy_id(&event.id) {
        None => Err(BlockTalkError::ConnectionError(ConnectionFault::Malformed)),
        Some(id) => Ok(
            match event.kind {
                EventKind::BlockConnected => ChainNotification::BlockConnected {
                    hash: id,
                    height: event.height,
                },
                EventKind::BlockDisconnected => ChainNotification::BlockDisconnected {
                    hash: id,
                    height: event.height,
                },
                EventKind::TransactionAddedToPool => ChainNotification::TransactionAddedToPool {
                    txid: id,
                },
                EventKind::ChainTipUpdated => ChainNotification::ChainTipUpdated {
                    hash: id,
                    height: event.height,
                },
            },
        ),
    }
}

/// Turns what the handler returned into the answer to the call: an error of
/// the handler fails that call, and nothing else.
pub fn acknowledge(outcome: Result<(), BlockTalkError>) -> (reply: CallReply)
    ensures
        reply == acknowledged(outcome),
{
    match outcome {
        Ok(_) => CallReply::Acknowledged,
        Err(error) => CallReply::Failed(error),
    }
}

impl<H> View for NotificationRegistration<H> {
    type V = RegistrationView<H>;

    closed spec fn view(&self) -> RegistrationView<H> {
        RegistrationView {
            handler: self.handler,
            callback: self.callback,
            subscription: self.subscription,
        }
    }
}

impl<H: NotificationHandler> NotificationRegistration<H> {
    /// Registers `handler`: wraps it in the callback capability that the
    /// embedding keeps under `callback`, and makes the request that hands
    /// this capability to the node. The request goes to the chain
    /// capability, under the connection's execution thread.
    ///
    /// A connection that is not open registers nothing; the handler comes
    /// back with the error.
    pub fn register(connection: &Connection, handler: H, callback: u64) -> (result: Result<
        (NotificationRegistration<H>, Subscribe),
        (BlockTalkError, H),
    >)
        ensures
            connection@.session.phase == SessionPhase::Open ==> (result matches Ok(
                (registration, request),
            ) && registration@ == (RegistrationView {
                handler,
                callback: Capability { session: connection@.session.id, token: callback },
                subscription: None,
            }) && request == (Subscribe {
                call: Call {
                    target: connection@.capabilities.chain,
                    context: connection@.capabilities.thread,
                },
                callback: Capability { session: connection@.session.id, token: callback },
            })),
            connection@.session.phase != SessionPhase::Open ==> result == Err::<
                (NotificationRegistration<H>, Subscribe),
                (BlockTalkError, H),
            >((BlockTalkError::ConnectionError(ConnectionFault::Closed), handler)),
    {
        let chain = *connection.chain_client();
        let thread = *connection.thread();
        match connection.call(chain, thread) {
            Ok(call) => {
                let callback = Capability { session: connection.session_id(), token: callback };
                Ok(
                    (
                        NotificationRegistration { handler, callback, subscription: None },
                        Subscribe { call, callback },
                    ),
                )
            },
            Err(error) => Err((error, handler)),
        }
    }

    /// Takes the node's reply to the registration request. A granted
    /// registration keeps the token that came with it, if one did. A
    /// refused one is over: the handler comes back with the sorted error.
    pub fn confirm(self, reply: Result<Option<u64>, RpcFailure>) -> (result: Result<
        NotificationRegistration<H>,
        (BlockTalkError, H),
    >)
        ensures
            match reply {
                Ok(token) => result matches Ok(registration) && registration@ == (RegistrationView {
                    subscription: token,
                    ..self@
                }),
                Err(failure) => result == Err::<NotificationRegistration<H>, (BlockTalkError, H)>(
                    (failure.request_error(), self@.handler),
                ),
            },
    {
        match reply {
            Ok(token) => Ok(
                NotificationRegistration {
                    handler: self.handler,
                    callback: self.callback,
                    subscription: token,
                },
            ),
            Err(failure) => Err((failure.into_request_error(), self.handler)),
        }
    }

    /// The callback capability of the registration.
    pub fn callback(&self) -> (callback: Capability)
        ensures
            callback == self@.callback,
    {
        self.callback
    }

    /// The node's token for the subscription, if it gave one.
    pub fn subscription(&self) -> (subscription: Option<u64>)
        ensures
            subscription == self@.subscription,
    {
        self.subscription
    }

    /// The handler of the registration.
    pub fn handler(&self) -> (handler: &H)
        ensures
            *handler == self@.handler,
    {
        &self.handler
    }

    /// Answers one call of the node. A call that decodes is handed to the
    /// handler, and what the handler returns is the answer; a call that does
    /// not decode fails without reaching the handler.
    ///
    /// Whatever the handler returns, the registration stands as it was: an
    /// error of the handler fails this call and no other.
    pub fn dispatch(&mut self, event: InboundEvent) -> (reply: CallReply)
        ensures
            final(self)@.callback == old(self)@.callback,
            final(self)@.subscription == old(self)@.subscription,
            match decoded(event) {
                Ok(_) => exists|outcome: Result<(), BlockTalkError>|
                    reply == acknowledged(outcome),
                Err(error) => reply == CallReply::Failed(error) && final(self)@.handler == old(
                    self,
                )@.handler,
            },
    {
        match decode(&event) {
            Ok(notification) => {
                let outcome = self.handler.handle_notification(notification);
                acknowledge(outcome)
            },
            Err(error) => CallReply::Failed(error),
        }
    }

    /// Ends the registration and gives the handler back. Over an open
    /// session of the registration's own connection there is a request for
    /// the node to stop calling; otherwise there is nothing to send, and
    /// that is no error.
    pub fn unregister(self, connection: &Connection) -> (result: (Option<Unsubscribe>, H))
        ensures
            result.1 == self@.handler,
            result.0 == if connection@.session.phase == SessionPhase::Open
                && self@.callback.session == connection@.session.id {
                Some(
                    Unsubscribe {
                        call: Call {
                            target: connection@.capabilities.chain,
                            context: connection@.capabilities.thread,
                        },
                        callback: self@.callback,
                        subscription: self@.subscription,
                    },
                )
            } else {
                None
            },
    {
        let chain = *connection.chain_client();
        let thread = *connection.thread();
        let request = if self.callback.session == connection.session_id() {
            match connection.call(chain, thread) {
                Ok(call) => Some(
                    Unsubscribe { call, callback: self.callback, subscription: self.subscription },
                ),
                Err(_) => None,
            }
        } else {
            None
        };
        (request, self.handler)
    }
}

/// The number of calls among the first `upto` of `events` that decode.
pub open spec fn rank(events: Seq<InboundEvent>, upto: int) -> nat {
    delivered(events.take(upto)).len()
}

proof fn lemma_delivered_prefix(events: Seq<InboundEvent>, upto: int)
    requires
        0 <= upto <= events.len(),
    ensures
        delivered(events.take(upto)).len() <= delivered(events).len(),
        forall|p: int|
            0 <= p < delivered(events.take(upto)).len() ==> (#[trigger] delivered(events)[p])
                == delivered(events.take(upto))[p],
    decreases events.len() - upto,
{
    if upto < events.len() {
        lemma_delivered_prefix(events, upto + 1);
        let longer = events.take(upto + 1);
        assert(longer.drop_last() =~= events.take(upto));
        assert(longer.last() == events[upto]);
    } else {
        assert(events.take(upto) =~= events);
    }
}

proof fn lemma_delivered_at(events: Seq<InboundEvent>, at: int)
    requires
        0 <= at < events.len(),
        decoded(events[at]) is Ok,
    ensures
        rank(events, at) < delivered(events).len(),
        rank(events, at + 1) == rank(events, at) + 1,
        delivered(events)[rank(events, at) as int] == decoded(events[at])->Ok_0,
{
    let longer = events.take(at + 1);
    assert(longer.drop_last() =~= events.take(at));
    assert(longer.last() == events[at]);
    lemma_delivered_prefix(events, at + 1);
    assert(delivered(longer)[rank(events, at) as int] == decoded(events[at])->Ok_0);
}

proof fn lemma_rank_grows(events: Seq<InboundEvent>, from: int, to: int)
    requires
        0 <= from <= to <= events.len(),
    ensures
        rank(events, from) <= rank(events, to),
{
    let shorter = events.take(to);
    lemma_delivered_prefix(shorter, from);
    assert(shorter.take(from) =~= events.take(from));
}

/// The handler gets the events in the order in which the node issued them:
/// of two calls that decode, the earlier one's notification stands before
/// the later one's among what is delivered, each at the place that the
/// number of decoding calls before it gives.
pub proof fn law_delivery_keeps_order(events: Seq<InboundEvent>, earlier: int, later: int)
    requires
        0 <= earlier < later < events.len(),
        decoded(events[earlier]) is Ok,
        decoded(events[later]) is Ok,
    ensures
        rank(events, earlier) < rank(events, later) < delivered(events).len(),
        delivered(events)[rank(events, earlier) as int] == decoded(events[earlier])->Ok_0,
        delivered(events)[rank(events, later) as int] == decoded(events[later])->Ok_0,
{
    lemma_delivered_at(events, earlier);
    lemma_delivered_at(events, later);
    lemma_rank_grows(events, earlier + 1, later);
}

/// When every call decodes, the handler gets exactly one notification for
/// each call, the `i`-th for the `i`-th call.
pub proof fn law_every_event_is_delivered(events: Seq<InboundEvent>)
    requires
        forall|i: int| 0 <= i < events.len() ==> decoded(#[trigger] events[i]) is Ok,
    ensures
        delivered(events).len() == events.len(),
        forall|i: int|
            0 <= i < events.len() ==> (#[trigger] delivered(events)[i]) == decoded(
                events[i],
            )->Ok_0,
    decreases events.len(),
{
    if events.len() > 0 {
        let shorter = events.drop_last();
        assert forall|i: int| 0 <= i < shorter.len() implies decoded(#[trigger] shorter[i])
            is Ok by {
            assert(shorter[i] == events[i]);
        }
        law_every_event_is_delivered(shorter);
        assert forall|i: int| 0 <= i < events.len() implies (#[trigger] delivered(events)[i])
            == decoded(events[i])->Ok_0 by {
            if i < shorter.len() {
                assert(shorter[i] == events[i]);
                assert(delivered(events)[i] == delivered(shorter)[i]);
            }
        }
    }
}

/// An error of the handler stays with the call that it was returned for.
/// Whatever the handler returns for the calls of a run, the handler gets
/// the same notifications; and the answer to a call is made of what the
/// handler returned for that very call, so a later call is delivered and
/// acknowledged though an earlier one failed.
pub proof fn law_handler_error_is_contained(
    events: Seq<InboundEvent>,
    outcomes: Seq<Result<(), BlockTalkError>>,
    failed: int,
    later: int,
)
    requires
        outcomes.len() == events.len(),
        0 <= failed < later < events.len(),
        decoded(events[failed]) is Ok,
        decoded(events[later]) is Ok,
        outcomes[failed] is Err,
    ensures
        answered(events, outcomes)[failed] == CallReply::Failed(outcomes[failed]->Err_0),
        answered(events, outcomes)[later] == acknowledged(outcomes[later]),
        outcomes[later] is Ok ==> answered(events, outcomes)[later] == CallReply::Acknowledged,
        rank(events, later) < delivered(events).len(),
        delivered(events)[rank(events, later) as int] == decoded(events[later])->Ok_0,
{
    lemma_delivered_at(events, later);
}

} // verus!
