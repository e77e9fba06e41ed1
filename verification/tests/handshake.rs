use blocktalk::{
    BlockTalkError, Bootstrap, Capability, CapabilitySet, ConnectionFault, FailureKind, Reply,
    Request, RpcFailure,
};

const SESSION: u64 = 7;

fn cap(token: u64) -> Capability {
    Capability { session: SESSION, token }
}

fn failure(kind: FailureKind, detail: &str) -> RpcFailure {
    RpcFailure { kind, detail: detail.to_string() }
}

/// A stand-in for the node: answers the requests of a handshake from a
/// script and keeps what it was asked.
struct ScriptedNode {
    replies: Vec<Reply>,
    seen: Vec<Request>,
}

impl ScriptedNode {
    fn new(replies: Vec<Reply>) -> Self {
        ScriptedNode { replies, seen: Vec::new() }
    }

    fn run(&mut self, root: Capability) -> Bootstrap {
        let mut handshake = Bootstrap::start(root);
        let mut next = 0;
        while let Some(request) = handshake.request() {
            self.seen.push(request);
            if next == self.replies.len() {
                break;
            }
            handshake = handshake.advance(self.replies[next].clone());
            next += 1;
        }
        handshake
    }
}

fn granted(tokens: &[u64]) -> Vec<Reply> {
    tokens.iter().map(|token| Reply::Granted(*token)).collect()
}

#[test]
fn handshake_sends_its_five_requests_in_order() {
    let mut node = ScriptedNode::new(granted(&[10, 11, 12, 13, 14]));
    let end = node.run(cap(1));
    assert_eq!(
        node.seen,
        vec![
            Request::Construct { root: cap(1) },
            Request::MakeThread { thread_map: cap(10) },
            Request::MakeChain { root: cap(1), context: cap(11) },
            Request::MakeMining { root: cap(1), context: cap(11) },
            Request::CreateNewBlock {
                mining: cap(13),
                context: cap(11),
                use_mempool: true,
                block_reserved_weight: 4000,
            },
        ]
    );
    assert_eq!(
        end,
        Bootstrap::Ready(CapabilitySet {
            chain: cap(12),
            mining: cap(13),
            block_template: cap(14),
            thread: cap(11),
        })
    );
}

#[test]
fn handshake_starts_by_asking_the_root_for_the_thread_map() {
    let handshake = Bootstrap::start(cap(1));
    assert_eq!(handshake, Bootstrap::AwaitingThreadMap { root: cap(1) });
    assert_eq!(handshake.request(), Some(Request::Construct { root: cap(1) }));
    assert_eq!(handshake.capabilities(), None);
}

#[test]
fn chain_mining_and_template_requests_carry_the_same_thread() {
    let mut node = ScriptedNode::new(granted(&[21, 22, 23, 24, 25]));
    let end = node.run(cap(1));
    let set = end.capabilities().expect("every step was granted");
    let contexts: Vec<Capability> =
        node.seen.iter().filter_map(|request| request.thread_context()).collect();
    assert_eq!(contexts, vec![cap(22), cap(22), cap(22)]);
    assert_eq!(set.thread, cap(22));
    assert_eq!(node.seen[0].thread_context(), None);
    assert_eq!(node.seen[1].thread_context(), None);
}

#[test]
fn block_template_is_asked_once_with_the_fixed_policy() {
    let mut node = ScriptedNode::new(granted(&[2, 3, 4, 5, 6]));
    let end = node.run(cap(1));
    let mining_requests =
        node.seen.iter().filter(|request| matches!(request, Request::MakeMining { .. })).count();
    assert_eq!(mining_requests, 1);
    let template_requests: Vec<&Request> = node
        .seen
        .iter()
        .filter(|request| matches!(request, Request::CreateNewBlock { .. }))
        .collect();
    assert_eq!(
        template_requests,
        vec![&Request::CreateNewBlock {
            mining: cap(5),
            context: cap(3),
            use_mempool: true,
            block_reserved_weight: 4000,
        }]
    );
    assert_eq!(end.capabilities().map(|set| set.block_template), Some(cap(6)));
    assert_eq!(end.request(), None);
}

#[test]
fn granted_capabilities_belong_to_the_session_of_the_root() {
    let root = Capability { session: 99, token: 0 };
    let mut node = ScriptedNode::new(granted(&[1, 2, 3, 4, 5]));
    let set = node.run(root).capabilities().expect("every step was granted");
    assert_eq!(set.chain, Capability { session: 99, token: 3 });
    assert_eq!(set.mining, Capability { session: 99, token: 4 });
    assert_eq!(set.block_template, Capability { session: 99, token: 5 });
    assert_eq!(set.thread, Capability { session: 99, token: 2 });
    assert!(set.is_of_session(99));
    assert!(!set.is_of_session(98));
}

#[test]
fn a_rejection_at_any_step_ends_the_handshake_with_a_node_error() {
    for step in 0..5usize {
        let mut replies = granted(&[10, 11, 12, 13, 14][..step]);
        replies.push(Reply::Failed(failure(FailureKind::Failed, "remote exception: no")));
        replies.push(Reply::Granted(77));
        let mut node = ScriptedNode::new(replies);
        let end = node.run(cap(1));
        assert_eq!(
            end,
            Bootstrap::Failed(BlockTalkError::NodeError("remote exception: no".to_string()))
        );
        assert_eq!(end.capabilities(), None);
        assert_eq!(end.request(), None);
        assert_eq!(node.seen.len(), step + 1);
    }
}

#[test]
fn a_lost_connection_ends_the_handshake_with_a_connection_error() {
    let lost = failure(FailureKind::Disconnected, "Peer disconnected.");
    let mut node =
        ScriptedNode::new(vec![Reply::Granted(10), Reply::Granted(11), Reply::Failed(lost.clone())]);
    let end = node.run(cap(1));
    assert_eq!(
        end,
        Bootstrap::Failed(BlockTalkError::ConnectionError(ConnectionFault::Rpc(lost)))
    );
    assert_eq!(end.capabilities(), None);
    assert_eq!(node.seen.len(), 3);
}

#[test]
fn a_failed_handshake_ignores_what_comes_later() {
    let failed = Bootstrap::start(cap(1))
        .advance(Reply::Failed(failure(FailureKind::Overloaded, "busy")));
    assert_eq!(failed, Bootstrap::Failed(BlockTalkError::NodeError("busy".to_string())));
    let later = failed.clone().advance(Reply::Granted(5));
    assert_eq!(later, failed);
    let again = later.advance(Reply::Failed(failure(FailureKind::Failed, "other")));
    assert_eq!(again, failed);
    assert_eq!(again.outcome(), Some(Err(BlockTalkError::NodeError("busy".to_string()))));
}

#[test]
fn a_finished_handshake_ignores_what_comes_later() {
    let mut node = ScriptedNode::new(granted(&[10, 11, 12, 13, 14]));
    let ready = node.run(cap(1));
    let set = ready.capabilities().expect("every step was granted");
    assert_eq!(ready.clone().advance(Reply::Granted(50)), ready);
    assert_eq!(
        ready.clone().advance(Reply::Failed(failure(FailureKind::Failed, "late"))),
        ready
    );
    assert_eq!(ready.outcome(), Some(Ok(set)));
}

#[test]
fn an_unfinished_handshake_has_no_outcome_and_no_capabilities() {
    let mut node = ScriptedNode::new(granted(&[10, 11, 12, 13]));
    let waiting = node.run(cap(1));
    assert_eq!(
        waiting,
        Bootstrap::AwaitingTemplate { thread: cap(11), chain: cap(12), mining: cap(13) }
    );
    assert_eq!(waiting.capabilities(), None);
    assert_eq!(waiting.outcome(), None);
}

#[test]
fn requests_name_the_capability_they_go_to() {
    assert_eq!(Request::Construct { root: cap(1) }.receiver(), cap(1));
    assert_eq!(Request::MakeThread { thread_map: cap(2) }.receiver(), cap(2));
    assert_eq!(Request::MakeChain { root: cap(1), context: cap(3) }.receiver(), cap(1));
    assert_eq!(Request::MakeMining { root: cap(1), context: cap(3) }.receiver(), cap(1));
    assert_eq!(
        Request::CreateNewBlock {
            mining: cap(4),
            context: cap(3),
            use_mempool: true,
            block_reserved_weight: 4000,
        }
        .receiver(),
        cap(4)
    );
}

#[test]
fn failures_are_sorted_by_who_reported_them() {
    for kind in [FailureKind::Failed, FailureKind::Overloaded, FailureKind::Unimplemented] {
        assert!(kind.is_node_reported());
        assert_eq!(
            failure(kind, "said the node").into_request_error(),
            BlockTalkError::NodeError("said the node".to_string())
        );
    }
    for kind in [FailureKind::Disconnected, FailureKind::Other] {
        assert!(!kind.is_node_reported());
        assert_eq!(
            failure(kind, "broken").into_request_error(),
            BlockTalkError::ConnectionError(ConnectionFault::Rpc(failure(kind, "broken")))
        );
    }
}

#[test]
fn a_teardown_failure_is_always_a_connection_error() {
    for kind in [
        FailureKind::Failed,
        FailureKind::Overloaded,
        FailureKind::Disconnected,
        FailureKind::Unimplemented,
        FailureKind::Other,
    ] {
        assert_eq!(
            failure(kind, "x").into_teardown_error(),
            BlockTalkError::ConnectionError(ConnectionFault::Rpc(failure(kind, "x")))
        );
    }
}

#[test]
fn only_a_rejection_by_the_node_is_final() {
    assert!(BlockTalkError::TransportError("no such file".to_string()).is_transient());
    assert!(BlockTalkError::ConnectionError(ConnectionFault::Closed).is_transient());
    assert!(!BlockTalkError::NodeError("no".to_string()).is_transient());
}
