use blocktalk::notification::{acknowledge, decode};
use blocktalk::{
    BlockTalkError, Bootstrap, Call, CallReply, Capability, ChainNotification, Connection,
    ConnectionFault, Disconnect, EventKind, FailureKind, InboundEvent, NotificationHandler,
    NotificationRegistration, Reply, RpcFailure, Subscribe, TransportSession, Unsubscribe,
};

const SESSION: u64 = 4;

fn cap(token: u64) -> Capability {
    Capability { session: SESSION, token }
}

fn connected(session: u64) -> Connection {
    let (session, root) = TransportSession::open(session, Ok(1)).expect("the stream was opened");
    let mut handshake = Bootstrap::start(root);
    for token in [20, 21, 22, 23, 24] {
        handshake = handshake.advance(Reply::Granted(token));
    }
    Connection::connect(session, handshake).expect("the handshake was granted")
}

fn id(seed: u8) -> [u8; 32] {
    let mut bytes = [0u8; 32];
    for (at, byte) in bytes.iter_mut().enumerate() {
        *byte = seed.wrapping_add(at as u8);
    }
    bytes
}

fn event(kind: EventKind, seed: u8, height: i32) -> InboundEvent {
    InboundEvent { kind, id: id(seed).to_vec(), height }
}

/// A handler that keeps what it gets and fails where it is told to.
#[derive(Debug, Default)]
struct Recorder {
    seen: Vec<ChainNotification>,
    fail_at: Vec<usize>,
}

impl NotificationHandler for Recorder {
    fn handle_notification(
        &mut self,
        notification: ChainNotification,
    ) -> Result<(), BlockTalkError> {
        let at = self.seen.len();
        self.seen.push(notification);
        if self.fail_at.contains(&at) {
            Err(BlockTalkError::NodeError(format!("handler failed at {}", at)))
        } else {
            Ok(())
        }
    }
}

fn registered(fail_at: Vec<usize>) -> NotificationRegistration<Recorder> {
    let connection = connected(SESSION);
    let handler = Recorder { seen: Vec::new(), fail_at };
    NotificationRegistration::register(&connection, handler, 90).expect("the session is open").0
}

#[test]
fn each_event_decodes_to_its_notification() {
    assert_eq!(
        decode(&event(EventKind::BlockConnected, 1, 800_000)),
        Ok(ChainNotification::BlockConnected { hash: id(1), height: 800_000 })
    );
    assert_eq!(
        decode(&event(EventKind::BlockDisconnected, 2, 799_999)),
        Ok(ChainNotification::BlockDisconnected { hash: id(2), height: 799_999 })
    );
    assert_eq!(
        decode(&event(EventKind::TransactionAddedToPool, 3, 0)),
        Ok(ChainNotification::TransactionAddedToPool { txid: id(3) })
    );
    assert_eq!(
        decode(&event(EventKind::ChainTipUpdated, 4, -1)),
        Ok(ChainNotification::ChainTipUpdated { hash: id(4), height: -1 })
    );
}

#[test]
fn an_id_of_the_wrong_length_is_malformed() {
    let malformed = Err(BlockTalkError::ConnectionError(ConnectionFault::Malformed));
    for length in [0usize, 1, 31, 33, 64] {
        let event = InboundEvent { kind: EventKind::BlockConnected, id: vec![7; length], height: 1 };
        assert_eq!(decode(&event), malformed);
    }
    let event = InboundEvent { kind: EventKind::BlockConnected, id: vec![7; 32], height: 1 };
    assert_eq!(decode(&event), Ok(ChainNotification::BlockConnected { hash: [7; 32], height: 1 }));
}

#[test]
fn the_answer_is_what_the_handler_returned() {
    assert_eq!(acknowledge(Ok(())), CallReply::Acknowledged);
    assert_eq!(
        acknowledge(Err(BlockTalkError::NodeError("no".to_string()))),
        CallReply::Failed(BlockTalkError::NodeError("no".to_string()))
    );
}

#[test]
fn the_handler_gets_the_events_in_the_order_of_the_calls() {
    let mut registration = registered(Vec::new());
    let replies: Vec<CallReply> = vec![
        registration.dispatch(event(EventKind::BlockConnected, 1, 100)),
        registration.dispatch(event(EventKind::TransactionAddedToPool, 2, 0)),
        registration.dispatch(event(EventKind::ChainTipUpdated, 3, 100)),
    ];
    assert_eq!(
        replies,
        vec![CallReply::Acknowledged, CallReply::Acknowledged, CallReply::Acknowledged]
    );
    assert_eq!(
        registration.handler().seen,
        vec![
            ChainNotification::BlockConnected { hash: id(1), height: 100 },
            ChainNotification::TransactionAddedToPool { txid: id(2) },
            ChainNotification::ChainTipUpdated { hash: id(3), height: 100 },
        ]
    );
}

#[test]
fn an_error_of_the_handler_fails_that_call_only() {
    let mut registration = registered(vec![1]);
    let first = registration.dispatch(event(EventKind::BlockConnected, 1, 100));
    let second = registration.dispatch(event(EventKind::BlockConnected, 2, 101));
    let third = registration.dispatch(event(EventKind::BlockConnected, 3, 102));
    assert_eq!(first, CallReply::Acknowledged);
    assert_eq!(
        second,
        CallReply::Failed(BlockTalkError::NodeError("handler failed at 1".to_string()))
    );
    assert_eq!(third, CallReply::Acknowledged);
    assert_eq!(
        registration.handler().seen,
        vec![
            ChainNotification::BlockConnected { hash: id(1), height: 100 },
            ChainNotification::BlockConnected { hash: id(2), height: 101 },
            ChainNotification::BlockConnected { hash: id(3), height: 102 },
        ]
    );
    assert_eq!(registration.callback(), cap(90));
    assert_eq!(registration.subscription(), None);
}

#[test]
fn a_malformed_call_does_not_reach_the_handler() {
    let mut registration = registered(Vec::new());
    let reply = registration.dispatch(InboundEvent {
        kind: EventKind::ChainTipUpdated,
        id: vec![1, 2, 3],
        height: 5,
    });
    assert_eq!(reply, CallReply::Failed(BlockTalkError::ConnectionError(ConnectionFault::Malformed)));
    assert!(registration.handler().seen.is_empty());
    let reply = registration.dispatch(event(EventKind::ChainTipUpdated, 9, 5));
    assert_eq!(reply, CallReply::Acknowledged);
    assert_eq!(
        registration.handler().seen,
        vec![ChainNotification::ChainTipUpdated { hash: id(9), height: 5 }]
    );
}

#[test]
fn registering_makes_the_request_that_hands_over_the_callback() {
    let connection = connected(SESSION);
    let (registration, request) =
        NotificationRegistration::register(&connection, Recorder::default(), 90)
            .expect("the session is open");
    assert_eq!(
        request,
        Subscribe { call: Call { target: cap(22), context: cap(21) }, callback: cap(90) }
    );
    assert_eq!(registration.callback(), cap(90));
    assert_eq!(registration.subscription(), None);
    assert!(registration.handler().seen.is_empty());
}

#[test]
fn nothing_is_registered_over_a_closing_session() {
    let mut connection = connected(SESSION);
    assert!(matches!(connection.disconnect(), Disconnect::TearDown(_)));
    let handler = Recorder { seen: Vec::new(), fail_at: vec![3] };
    match NotificationRegistration::register(&connection, handler, 90) {
        Err((error, handler)) => {
            assert_eq!(error, BlockTalkError::ConnectionError(ConnectionFault::Closed));
            assert_eq!(handler.fail_at, vec![3]);
        },
        Ok(_) => panic!("a closing session registers nothing"),
    }
}

#[test]
fn the_reply_of_the_node_completes_the_registration() {
    let with_token = registered(Vec::new()).confirm(Ok(Some(555))).expect("granted");
    assert_eq!(with_token.subscription(), Some(555));
    assert_eq!(with_token.callback(), cap(90));

    let without_token = registered(Vec::new()).confirm(Ok(None)).expect("granted");
    assert_eq!(without_token.subscription(), None);

    let refused = registered(vec![8]).confirm(Err(RpcFailure {
        kind: FailureKind::Unimplemented,
        detail: "remote exception: no notifications".to_string(),
    }));
    match refused {
        Err((error, handler)) => {
            assert_eq!(
                error,
                BlockTalkError::NodeError("remote exception: no notifications".to_string())
            );
            assert_eq!(handler.fail_at, vec![8]);
        },
        Ok(_) => panic!("a refused registration is over"),
    }

    let lost = RpcFailure { kind: FailureKind::Disconnected, detail: "gone".to_string() };
    match registered(Vec::new()).confirm(Err(lost.clone())) {
        Err((error, _)) => {
            assert_eq!(error, BlockTalkError::ConnectionError(ConnectionFault::Rpc(lost)))
        },
        Ok(_) => panic!("a refused registration is over"),
    }
}

#[test]
fn unregistering_asks_the_node_to_stop() {
    let connection = connected(SESSION);
    let registration = NotificationRegistration::register(&connection, Recorder::default(), 90)
        .expect("the session is open")
        .0
        .confirm(Ok(Some(555)))
        .expect("granted");
    let (request, handler) = registration.unregister(&connection);
    assert_eq!(
        request,
        Some(Unsubscribe {
            call: Call { target: cap(22), context: cap(21) },
            callback: cap(90),
            subscription: Some(555),
        })
    );
    assert!(handler.seen.is_empty());
}

#[test]
fn unregistering_after_the_session_is_gone_sends_nothing() {
    let mut connection = connected(SESSION);
    let mut registration =
        NotificationRegistration::register(&connection, Recorder::default(), 90)
            .expect("the session is open")
            .0;
    assert_eq!(registration.dispatch(event(EventKind::BlockConnected, 1, 1)), CallReply::Acknowledged);
    assert!(matches!(connection.disconnect(), Disconnect::TearDown(_)));
    let (request, handler) = registration.unregister(&connection);
    assert_eq!(request, None);
    assert_eq!(handler.seen, vec![ChainNotification::BlockConnected { hash: id(1), height: 1 }]);
}

#[test]
fn unregistering_with_another_connection_sends_nothing() {
    let own = connected(SESSION);
    let other = connected(SESSION + 1);
    let registration = NotificationRegistration::register(&own, Recorder::default(), 90)
        .expect("the session is open")
        .0;
    let (request, _) = registration.unregister(&other);
    assert_eq!(request, None);
}
