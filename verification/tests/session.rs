use blocktalk::{
    BlockTalkError, Capability, ConnectionFault, Disconnector, FailureKind, PumpExit, RpcFailure,
    SessionPhase, ShutdownEvent, ShutdownStep, TransportSession,
};

fn open_session(id: u64) -> TransportSession {
    let (session, _) = TransportSession::open(id, Ok(1)).expect("the stream was opened");
    session
}

fn failure(kind: FailureKind, detail: &str) -> RpcFailure {
    RpcFailure { kind, detail: detail.to_string() }
}

fn finished(error: ConnectionFault) -> ShutdownStep {
    ShutdownStep::Finished(Err(BlockTalkError::ConnectionError(error)))
}

#[test]
fn an_opened_stream_gives_an_open_session_and_the_root() {
    let (session, root) = TransportSession::open(3, Ok(40)).expect("the stream was opened");
    assert_eq!(session.id(), 3);
    assert_eq!(session.phase(), SessionPhase::Open);
    assert!(session.is_open());
    assert_eq!(root, Capability { session: 3, token: 40 });
}

#[test]
fn a_stream_that_cannot_be_opened_is_a_transport_error() {
    let result = TransportSession::open(3, Err("No such file or directory".to_string()));
    match result {
        Err(error) => assert_eq!(
            error,
            BlockTalkError::TransportError("No such file or directory".to_string())
        ),
        Ok(_) => panic!("no session without a stream"),
    }
}

#[test]
fn the_disconnect_token_is_handed_out_once() {
    let mut session = open_session(5);
    assert_eq!(session.disconnector(), Some(Disconnector { session: 5 }));
    assert_eq!(session.phase(), SessionPhase::Disconnecting);
    assert!(!session.is_open());
    assert_eq!(session.disconnector(), None);
    assert_eq!(session.phase(), SessionPhase::Disconnecting);
}

#[test]
fn a_clean_teardown_ends_with_ok() {
    let mut session = open_session(5);
    let token = session.disconnector().expect("an open session has its token");
    let step = session.shutdown(ShutdownEvent::Disconnected { token, outcome: Ok(()) });
    assert_eq!(step, ShutdownStep::AwaitPump);
    assert_eq!(session.phase(), SessionPhase::Draining);
    let step = session.shutdown(ShutdownEvent::PumpExited(PumpExit::Completed));
    assert_eq!(step, ShutdownStep::Finished(Ok(())));
    assert_eq!(session.phase(), SessionPhase::Closed);
}

#[test]
fn a_failed_disconnect_closes_the_session_with_its_error() {
    let mut session = open_session(5);
    let token = session.disconnector().expect("an open session has its token");
    let step = session.shutdown(ShutdownEvent::Disconnected {
        token,
        outcome: Err(failure(FailureKind::Failed, "flush failed")),
    });
    assert_eq!(step, finished(ConnectionFault::Rpc(failure(FailureKind::Failed, "flush failed"))));
    assert_eq!(session.phase(), SessionPhase::Closed);
}

#[test]
fn every_failure_of_the_pump_is_a_connection_error() {
    assert_eq!(PumpExit::Completed.into_result(), Ok(()));
    assert_eq!(
        PumpExit::Protocol(failure(FailureKind::Failed, "bad message")).into_result(),
        Err(BlockTalkError::ConnectionError(ConnectionFault::Rpc(failure(
            FailureKind::Failed,
            "bad message"
        ))))
    );
    assert_eq!(
        PumpExit::Panicked("task 4 panicked".to_string()).into_result(),
        Err(BlockTalkError::ConnectionError(ConnectionFault::PumpPanicked(
            "task 4 panicked".to_string()
        )))
    );
    assert_eq!(
        PumpExit::Cancelled.into_result(),
        Err(BlockTalkError::ConnectionError(ConnectionFault::PumpCancelled))
    );
}

#[test]
fn the_pump_result_ends_the_teardown() {
    for (exit, fault) in [
        (
            PumpExit::Protocol(failure(FailureKind::Disconnected, "eof")),
            ConnectionFault::Rpc(failure(FailureKind::Disconnected, "eof")),
        ),
        (PumpExit::Panicked("boom".to_string()), ConnectionFault::PumpPanicked("boom".to_string())),
        (PumpExit::Cancelled, ConnectionFault::PumpCancelled),
    ] {
        let mut session = open_session(9);
        let token = session.disconnector().expect("an open session has its token");
        assert_eq!(
            session.shutdown(ShutdownEvent::Disconnected { token, outcome: Ok(()) }),
            ShutdownStep::AwaitPump
        );
        assert_eq!(session.shutdown(ShutdownEvent::PumpExited(exit)), finished(fault));
        assert_eq!(session.phase(), SessionPhase::Closed);
    }
}

#[test]
fn a_token_of_another_session_changes_nothing() {
    let mut session = open_session(5);
    let _own = session.disconnector().expect("an open session has its token");
    let step = session.shutdown(ShutdownEvent::Disconnected {
        token: Disconnector { session: 6 },
        outcome: Ok(()),
    });
    assert_eq!(step, finished(ConnectionFault::ForeignSession));
    assert_eq!(session.phase(), SessionPhase::Disconnecting);
}

#[test]
fn a_disconnect_outcome_that_nobody_waits_for_changes_nothing() {
    let mut session = open_session(5);
    let step = session.shutdown(ShutdownEvent::Disconnected {
        token: Disconnector { session: 5 },
        outcome: Ok(()),
    });
    assert_eq!(step, finished(ConnectionFault::Unexpected));
    assert_eq!(session.phase(), SessionPhase::Open);

    let token = session.disconnector().expect("an open session has its token");
    assert_eq!(
        session.shutdown(ShutdownEvent::Disconnected { token, outcome: Ok(()) }),
        ShutdownStep::AwaitPump
    );
    let step = session.shutdown(ShutdownEvent::Disconnected {
        token: Disconnector { session: 5 },
        outcome: Ok(()),
    });
    assert_eq!(step, finished(ConnectionFault::Unexpected));
    assert_eq!(session.phase(), SessionPhase::Draining);
}

#[test]
fn the_end_of_the_pump_closes_an_open_session() {
    let mut session = open_session(5);
    let step = session.shutdown(ShutdownEvent::PumpExited(PumpExit::Completed));
    assert_eq!(step, ShutdownStep::Finished(Ok(())));
    assert_eq!(session.phase(), SessionPhase::Closed);
    assert_eq!(session.disconnector(), None);
}

#[test]
fn a_closed_session_stays_closed() {
    let mut session = open_session(5);
    assert_eq!(
        session.shutdown(ShutdownEvent::PumpExited(PumpExit::Cancelled)),
        finished(ConnectionFault::PumpCancelled)
    );
    assert_eq!(
        session.shutdown(ShutdownEvent::PumpExited(PumpExit::Completed)),
        finished(ConnectionFault::Closed)
    );
    assert_eq!(
        session.shutdown(ShutdownEvent::Disconnected {
            token: Disconnector { session: 5 },
            outcome: Ok(()),
        }),
        finished(ConnectionFault::Unexpected)
    );
    assert_eq!(session.phase(), SessionPhase::Closed);
    assert_eq!(session.disconnector(), None);
}
