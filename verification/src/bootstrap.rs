//! The handshake that turns the root capability of a fresh session into the
//! capability set: five requests in a fixed order, each sent only when the
//! one before it was granted.
//!
//! The handshake is a value. The embedding sends the request that the value
//! waits for, hands the reply to [`Bootstrap::advance`], and goes on with the
//! value that comes back until it waits for nothing more.

use vstd::prelude::*;
use crate::capability::{Capability, CapabilitySet, Reply, Request, BLOCK_RESERVED_WEIGHT};
use crate::error::BlockTalkError;

verus! {

/// Where a handshake stands. Each variant holds what has been granted so
/// far, so a capability set exists only once all of it was granted.
#[derive(Clone, Debug, PartialEq, Eq)]
pub enum Bootstrap {
    /// The thread map was asked of the root interface.
    AwaitingThreadMap { root: Capability },
    /// A new execution thread was asked of the thread map.
    AwaitingThread { root: Capability, thread_map: Capability },
    /// The chain capability was asked of the root interface.
    AwaitingChain { root: Capability, thread: Capability },
    /// The mining capability was asked of the root interface.
    AwaitingMining { root: Capability, thread: Capability, chain: Capability },
    /// A block template was asked of the mining capability.
    AwaitingTemplate { thread: Capability, chain: Capability, mining: Capability },
    /// Every step was granted.
    Ready(CapabilitySet),
    /// A step failed; the handshake is over and yields nothing.
    Failed(BlockTalkError),
}

impl Bootstrap {
    /// The handshake of a fresh session whose root interface is `root`.
    pub open spec fn initial(root: Capability) -> Bootstrap {
        Bootstrap::AwaitingThreadMap { root }
    }

    /// The request whose reply the handshake waits for; `None` once it is
    /// over.
    pub open spec fn awaits(self) -> Option<Request> {
        match self {
            Bootstrap::AwaitingThreadMap { root } => Some(Request::Construct { root }),
            Bootstrap::AwaitingThread { thread_map, .. } => Some(
                Request::MakeThread { thread_map },
            ),
            Bootstrap::AwaitingChain { root, thread } => Some(
                Request::MakeChain { root, context: thread },
            ),
            Bootstrap::AwaitingMining { root, thread, .. } => Some(
                Request::MakeMining { root, context: thread },
            ),
            Bootstrap::AwaitingTemplate { thread, mining, .. } => Some(
                Request::CreateNewBlock {
                    mining,
                    context: thread,
                    use_mempool: true,
                    block_reserved_weight: BLOCK_RESERVED_WEIGHT,
                },
            ),
            Bootstrap::Ready(_) => None,
            Bootstrap::Failed(_) => None,
        }
    }

    /// The handshake after the token `token` was granted for the awaited
    /// request. The new capability belongs to the session of the capability
    /// that granted it.
    pub open spec fn granted(self, token: u64) -> Bootstrap {
        match self {
            Bootstrap::AwaitingThreadMap { root } => Bootstrap::AwaitingThread {
                root,
                thread_map: Capability { session: root.session, token },
            },
            Bootstrap::AwaitingThread { root, thread_map } => Bootstrap::AwaitingChain {
                root,
                thread: Capability { session: thread_map.session, token },
            },
            Bootstrap::AwaitingChain { root, thread } => Bootstrap::AwaitingMining {
                root,
                thread,
                chain: Capability { session: root.session, token },
            },
            Bootstrap::AwaitingMining { root, thread, chain } => Bootstrap::AwaitingTemplate {
                thread,
                chain,
                mining: Capability { session: root.session, token },
            },
            Bootstrap::AwaitingTemplate { thread, chain, mining } => Bootstrap::Ready(
                CapabilitySet {
                    chain,
                    mining,
                    block_template: Capability { session: mining.session, token },
                    thread,
                },
            ),
            Bootstrap::Ready(_) => self,
            Bootstrap::Failed(_) => self,
        }
    }

    /// The handshake after `reply` came back for the awaited request. A
    /// failure ends it, whichever step it was; a handshake that is over
    /// stays as it is.
    pub open spec fn after(self, reply: Reply) -> Bootstrap {
        if self.awaits() is None {
            self
        } else {
            match reply {
                Reply::Granted(token) => self.granted(token),
                Reply::Failed(failure) => Bootstrap::Failed(failure.request_error()),
            }
        }
    }

    /// The capability set that the handshake yields: none before every step
    /// was granted, and none after a failure.
    pub open spec fn yields(self) -> Option<CapabilitySet> {
        match self {
            Bootstrap::Ready(set) => Some(set),
            _ => None,
        }
    }

    /// The handshake after the replies of `replies` came back one by one.
    pub open spec fn after_all(self, replies: Seq<Reply>) -> Bootstrap
        decreases replies.len(),
    {
        if replies.len() == 0 {
            self
        } else {
            self.after(replies[0]).after_all(replies.drop_first())
        }
    }

    /// Every request that goes on the wire while the replies of `replies`
    /// come back one by one, in the order of sending, the awaited one first.
    pub open spec fn issued(self, replies: Seq<Reply>) -> Seq<Request>
        decreases replies.len(),
    {
        match self.awaits() {
            None => Seq::empty(),
            Some(request) => if replies.len() == 0 {
                seq![request]
            } else {
                seq![request] + self.after(replies[0]).issued(replies.drop_first())
            },
        }
    }

    /// The capability set of a handshake from `root` whose first five
    /// replies all granted a capability: the thread of the second reply,
    /// the chain capability of the third, the mining capability of the
    /// fourth and the block template of the fifth.
    pub open spec fn granted_set(root: Capability, replies: Seq<Reply>) -> CapabilitySet {
        CapabilitySet {
            chain: Capability { session: root.session, token: replies[2]->Granted_0 },
            mining: Capability { session: root.session, token: replies[3]->Granted_0 },
            block_template: Capability { session: root.session, token: replies[4]->Granted_0 },
            thread: Capability { session: root.session, token: replies[1]->Granted_0 },
        }
    }

    /// How many steps were granted so far; 5 once the handshake is over.
    pub open spec fn stage(self) -> nat {
        match self {
            Bootstrap::AwaitingThreadMap { .. } => 0,
            Bootstrap::AwaitingThread { .. } => 1,
            Bootstrap::AwaitingChain { .. } => 2,
            Bootstrap::AwaitingMining { .. } => 3,
            Bootstrap::AwaitingTemplate { .. } => 4,
            Bootstrap::Ready(_) => 5,
            Bootstrap::Failed(_) => 5,
        }
    }

    /// The execution thread that the handshake has obtained, if it has.
    pub open spec fn thread(self) -> Option<Capability> {
        match self {
            Bootstrap::AwaitingThreadMap { .. } => None,
            Bootstrap::AwaitingThread { .. } => None,
            Bootstrap::AwaitingChain { thread, .. } => Some(thread),
            Bootstrap::AwaitingMining { thread, .. } => Some(thread),
            Bootstrap::AwaitingTemplate { thread, .. } => Some(thread),
            Bootstrap::Ready(set) => Some(set.thread),
            Bootstrap::Failed(_) => None,
        }
    }

    /// Starts the handshake of a fresh session whose root interface is
    /// `root`.
    pub fn start(root: Capability) -> (handshake: Bootstrap)
        ensures
            handshake == Bootstrap::initial(root),
    {
        Bootstrap::AwaitingThreadMap { root }
    }

    /// The request to send now, or `None` if the handshake is over.
    pub fn request(&self) -> (request: Option<Request>)
        ensures
            request == self.awaits(),
    {
        match self {
            Bootstrap::AwaitingThreadMap { root } => Some(Request::Construct { root: *root }),
            Bootstrap::AwaitingThread { thread_map, .. } => Some(
                Request::MakeThread { thread_map: *thread_map },
            ),
            Bootstrap::AwaitingChain { root, thread } => Some(
                Request::MakeChain { root: *root, context: *thread },
            ),
            Bootstrap::AwaitingMining { root, thread, .. } => Some(
                Request::MakeMining { root: *root, context: *thread },
            ),
            Bootstrap::AwaitingTemplate { thread, mining, .. } => Some(
                Request::CreateNewBlock {
                    mining: *mining,
                    context: *thread,
                    use_mempool: true,
                    block_reserved_weight: BLOCK_RESERVED_WEIGHT,
                },
            ),
            Bootstrap::Ready(_) => None,
            Bootstrap::Failed(_) => None,
        }
    }

    /// Takes the reply to the awaited request and moves on: to the next
    /// step if the capability was granted, to `Failed` with the sorted error
    /// if it was not. Nothing is sent again, and a handshake that is over
    /// ignores the reply.
    pub fn advance(self, reply: Reply) -> (next: Bootstrap)
        ensures
            next == self.after(reply),
    {
        match reply {
            Reply::Granted(token) => match self {
                Bootstrap::AwaitingThreadMap { root } => Bootstrap::AwaitingThread {
                    root,
                    thread_map: Capability { session: root.session, token },
                },
                Bootstrap::AwaitingThread { root, thread_map } => Bootstrap::AwaitingChain {
                    root,
                    thread: Capability { session: thread_map.session, token },
                },
                Bootstrap::AwaitingChain { root, thread } => Bootstrap::AwaitingMining {
                    root,
                    thread,
                    chain: Capability { session: root.session, token },
                },
                Bootstrap::AwaitingMining { root, thread, chain } => Bootstrap::AwaitingTemplate {
                    thread,
                    chain,
                    mining: Capability { session: root.session, token },
                },
                Bootstrap::AwaitingTemplate { thread, chain, mining } => Bootstrap::Ready(
                    CapabilitySet {
                        chain,
                        mining,
                        block_template: Capability { session: mining.session, token },
                        thread,
                    },
                ),
                Bootstrap::Ready(set) => Bootstrap::Ready(set),
                Bootstrap::Failed(error) => Bootstrap::Failed(error),
            },
            Reply::Failed(failure) => match self {
                Bootstrap::Ready(set) => Bootstrap::Ready(set),
                Bootstrap::Failed(error) => Bootstrap::Failed(error),
                _ => Bootstrap::Failed(failure.into_request_error()),
            },
        }
    }

    /// The capability set, once every step was granted. A handshake that
    /// failed or is still under way yields none: no part of a set is ever
    /// handed out.
    pub fn capabilities(&self) -> (set: Option<CapabilitySet>)
        ensures
            set == self.yields(),
    {
        match self {
            Bootstrap::Ready(set) => Some(*set),
            _ => None,
        }
    }

    /// Ends the handshake: the capability set if every step was granted,
    /// the error of the step that failed, or `None` if a reply is still
    /// awaited.
    pub fn outcome(self) -> (outcome: Option<Result<CapabilitySet, BlockTalkError>>)
        ensures
            outcome == match self {
                Bootstrap::Ready(set) => Some(Ok::<CapabilitySet, BlockTalkError>(set)),
                Bootstrap::Failed(error) => Some(Err::<CapabilitySet, BlockTalkError>(error)),
                _ => None,
            },
    {
        match self {
            Bootstrap::Ready(set) => Some(Ok(set)),
            Bootstrap::Failed(error) => Some(Err(error)),
            _ => None,
        }
    }
}

/// Whether the first `count` replies of `replies` all grant a capability.
pub open spec fn all_granted(replies: Seq<Reply>, count: int) -> bool {
    forall|i: int| 0 <= i < count && i < replies.len() ==> (#[trigger] replies[i]) is Granted
}

proof fn lemma_over_is_final(over: Bootstrap, replies: Seq<Reply>)
    requires
        over.awaits() is None,
    ensures
        over.after_all(replies) == over,
        over.issued(replies).len() == 0,
    decreases replies.len(),
{
    if replies.len() > 0 {
        lemma_over_is_final(over, replies.drop_first());
    }
}

proof fn lemma_issued_in_order(from: Bootstrap, replies: Seq<Reply>)
    ensures
        from.issued(replies).len() + from.stage() <= 5,
        forall|i: int|
            0 <= i < from.issued(replies).len() ==> (#[trigger] from.issued(replies)[i]).stage()
                == from.stage() + i,
    decreases replies.len(),
{
    if from.awaits() is Some && replies.len() > 0 {
        let next = from.after(replies[0]);
        let rest = replies.drop_first();
        lemma_issued_in_order(next, rest);
        assert forall|i: int| 0 <= i < from.issued(replies).len() implies (
        #[trigger] from.issued(replies)[i]).stage() == from.stage() + i by {
            if i > 0 {
                assert(from.issued(replies)[i] == next.issued(rest)[i - 1]);
            }
        }
    }
}

proof fn lemma_issued_context(from: Bootstrap, replies: Seq<Reply>)
    ensures
        forall|i: int|
            0 <= i < from.issued(replies).len() && (#[trigger] from.issued(replies)[i]).context()
                is Some ==> {
                &&& from.thread() is Some ==> from.issued(replies)[i].context() == from.thread()
                &&& from.after_all(replies).yields() matches Some(set)
                    ==> from.issued(replies)[i].context() == Some(set.thread)
            },
        from.thread() is Some && from.after_all(replies).yields() is Some ==> from.thread()
            == Some(from.after_all(replies).yields()->0.thread),
    decreases replies.len(),
{
    if from.awaits() is None {
        lemma_over_is_final(from, replies);
    } else if replies.len() > 0 {
        let next = from.after(replies[0]);
        let rest = replies.drop_first();
        lemma_issued_context(next, rest);
        if next is Failed {
            lemma_over_is_final(next, rest);
        }
        assert forall|i: int|
            0 <= i < from.issued(replies).len() && (#[trigger] from.issued(replies)[i]).context()
                is Some implies {
            &&& from.thread() is Some ==> from.issued(replies)[i].context() == from.thread()
            &&& from.after_all(replies).yields() matches Some(set)
                ==> from.issued(replies)[i].context() == Some(set.thread)
        } by {
            if i > 0 {
                assert(from.issued(replies)[i] == next.issued(rest)[i - 1]);
            }
        }
    }
}

proof fn lemma_granted_run(from: Bootstrap, replies: Seq<Reply>)
    requires
        from.awaits() is Some,
    ensures
        from.after_all(replies).yields() is Some <==> replies.len() >= 5 - from.stage()
            && all_granted(replies, 5 - from.stage()),
        from.after_all(replies).yields() is Some ==> from.issued(replies).len() == 5
            - from.stage(),
    decreases replies.len(),
{
    if replies.len() > 0 {
        let next = from.after(replies[0]);
        let rest = replies.drop_first();
        if next.awaits() is None {
            lemma_over_is_final(next, rest);
            if replies[0] is Granted {
                assert(all_granted(replies, 5 - from.stage()));
            } else {
                assert(!all_granted(replies, 5 - from.stage()));
            }
        } else {
            lemma_granted_run(next, rest);
            assert(replies[0] is Granted);
            if all_granted(replies, 5 - from.stage()) {
                assert forall|i: int| 0 <= i < 5 - next.stage() && i < rest.len() implies (
                #[trigger] rest[i]) is Granted by {
                    assert(rest[i] == replies[i + 1]);
                }
            }
            if rest.len() >= 5 - next.stage() && all_granted(rest, 5 - next.stage()) {
                assert forall|i: int| 0 <= i < 5 - from.stage() && i < replies.len() implies (
                #[trigger] replies[i]) is Granted by {
                    if i > 0 {
                        assert(replies[i] == rest[i - 1]);
                    }
                }
            }
        }
    }
}

proof fn lemma_failed_step(from: Bootstrap, replies: Seq<Reply>, step: int)
    requires
        from.awaits() is Some,
        0 <= step < replies.len(),
        from.stage() + step < 5,
        all_granted(replies, step),
        replies[step] is Failed,
    ensures
        from.after_all(replies) == Bootstrap::Failed(replies[step]->Failed_0.request_error()),
        from.issued(replies).len() == step + 1,
    decreases step,
{
    let next = from.after(replies[0]);
    let rest = replies.drop_first();
    if step == 0 {
        lemma_over_is_final(next, rest);
    } else {
        assert(replies[0] is Granted);
        assert forall|i: int| 0 <= i < step - 1 && i < rest.len() implies (#[trigger] rest[i])
            is Granted by {
            assert(rest[i] == replies[i + 1]);
        }
        assert(rest[step - 1] == replies[step]);
        lemma_failed_step(next, rest, step - 1);
    }
}

/// The requests of a handshake go out in its fixed order, each at most once:
/// the request at place `i` is the one of stage `i`, and there are never
/// more than five. So no capability, the mining capability among them, is
/// asked for twice, whatever the node replies.
pub proof fn law_each_step_requested_once(root: Capability, replies: Seq<Reply>)
    ensures
        Bootstrap::initial(root).issued(replies).len() <= 5,
        forall|i: int|
            0 <= i < Bootstrap::initial(root).issued(replies).len() ==> (
            #[trigger] Bootstrap::initial(root).issued(replies)[i]).stage() == i,
        forall|i: int, j: int|
            0 <= i < Bootstrap::initial(root).issued(replies).len() && 0 <= j
                < Bootstrap::initial(root).issued(replies).len() && (
            #[trigger] Bootstrap::initial(root).issued(replies)[i]) is MakeMining && (
            #[trigger] Bootstrap::initial(root).issued(replies)[j]) is MakeMining ==> i == j,
{
    lemma_issued_in_order(Bootstrap::initial(root), replies);
}

/// Every request of a handshake that carries an execution thread carries the
/// same one, and a handshake that ends with a capability set has sent that
/// set's thread with the request for the chain capability, with the one for
/// the mining capability and with the one for the block template.
pub proof fn law_one_thread_context(root: Capability, replies: Seq<Reply>)
    ensures
        forall|i: int, j: int|
            0 <= i < Bootstrap::initial(root).issued(replies).len() && 0 <= j
                < Bootstrap::initial(root).issued(replies).len() && (
            #[trigger] Bootstrap::initial(root).issued(replies)[i]).context() is Some && (
            #[trigger] Bootstrap::initial(root).issued(replies)[j]).context() is Some
                ==> Bootstrap::initial(root).issued(replies)[i].context() == Bootstrap::initial(
                root,
            ).issued(replies)[j].context(),
        Bootstrap::initial(root).after_all(replies).yields() matches Some(set) ==> {
            let sent = Bootstrap::initial(root).issued(replies);
            &&& sent.len() == 5
            &&& sent[2] == Request::MakeChain { root, context: set.thread }
            &&& sent[3] == Request::MakeMining { root, context: set.thread }
            &&& sent[4] == Request::CreateNewBlock {
                mining: set.mining,
                context: set.thread,
                use_mempool: true,
                block_reserved_weight: BLOCK_RESERVED_WEIGHT,
            }
        },
{
    let start = Bootstrap::initial(root);
    let sent = start.issued(replies);
    lemma_issued_in_order(start, replies);
    assert forall|i: int, j: int|
        0 <= i < sent.len() && 0 <= j < sent.len() && (#[trigger] sent[i]).context() is Some && (
        #[trigger] sent[j]).context() is Some implies sent[i].context() == sent[j].context() by {
        lemma_thread_fixed_from_chain(start, replies, i);
        lemma_thread_fixed_from_chain(start, replies, j);
    }
    if start.after_all(replies).yields() is Some {
        lemma_granted_run(start, replies);
        lemma_ready_requests(root, replies);
    }
}

/// The thread that the request at place `at` carries, if it carries one, is
/// the one that the reply to the second request granted.
proof fn lemma_thread_fixed_from_chain(start: Bootstrap, replies: Seq<Reply>, at: int)
    requires
        start is AwaitingThreadMap,
        0 <= at < start.issued(replies).len(),
        start.issued(replies)[at].context() is Some,
    ensures
        replies.len() >= 2,
        replies[0] is Granted,
        replies[1] is Granted,
        start.issued(replies)[at].context() == start.after(replies[0]).after(replies[1]).thread(),
{
    lemma_issued_in_order(start, replies);
    assert(start.issued(replies)[at].stage() == at);
    assert(at >= 2);
    let second = start.after(replies[0]);
    let rest = replies.drop_first();
    assert(start.issued(replies)[at] == second.issued(rest)[at - 1]);
    if second.awaits() is None {
        lemma_over_is_final(second, rest);
    }
    lemma_issued_in_order(second, rest);
    let third = second.after(rest[0]);
    let tail = rest.drop_first();
    assert(rest[0] == replies[1]);
    assert(second.issued(rest)[at - 1] == third.issued(tail)[at - 2]);
    if third.awaits() is None {
        lemma_over_is_final(third, tail);
    }
    lemma_issued_context(third, tail);
}

proof fn lemma_ready_requests(root: Capability, replies: Seq<Reply>)
    requires
        Bootstrap::initial(root).after_all(replies).yields() is Some,
        replies.len() >= 5,
        all_granted(replies, 5),
    ensures
        ({
            let sent = Bootstrap::initial(root).issued(replies);
            let set = Bootstrap::initial(root).after_all(replies).yields()->0;
            &&& set == Bootstrap::granted_set(root, replies)
            &&& sent.len() == 5
            &&& sent[2] == Request::MakeChain { root, context: set.thread }
            &&& sent[3] == Request::MakeMining { root, context: set.thread }
            &&& sent[4] == Request::CreateNewBlock {
                mining: set.mining,
                context: set.thread,
                use_mempool: true,
                block_reserved_weight: BLOCK_RESERVED_WEIGHT,
            }
        }),
{
    let s0 = Bootstrap::initial(root);
    let r0 = replies;
    let s1 = s0.after(r0[0]);
    let r1 = r0.drop_first();
    let s2 = s1.after(r1[0]);
    let r2 = r1.drop_first();
    let s3 = s2.after(r2[0]);
    let r3 = r2.drop_first();
    let s4 = s3.after(r3[0]);
    let r4 = r3.drop_first();
    let s5 = s4.after(r4[0]);
    let r5 = r4.drop_first();
    assert(r0[0] is Granted && r0[1] is Granted && r0[2] is Granted && r0[3] is Granted && r0[4]
        is Granted);
    assert(r1[0] == r0[1] && r2[0] == r0[2] && r3[0] == r0[3] && r4[0] == r0[4]);
    assert(r2[0] == r1[1] && r3[0] == r2[1] && r4[0] == r3[1]);
    lemma_over_is_final(s5, r5);
    assert(s4.after_all(r4) == s5);
    assert(s3.after_all(r3) == s5);
    assert(s2.after_all(r2) == s5);
    assert(s1.after_all(r1) == s5);
    assert(s0.after_all(r0) == s5);
    assert(s4.issued(r4) =~= seq![s4.awaits()->0]);
    assert(s3.issued(r3) =~= seq![s3.awaits()->0, s4.awaits()->0]);
    assert(s2.issued(r2) =~= seq![s2.awaits()->0, s3.awaits()->0, s4.awaits()->0]);
    assert(s1.issued(r1) =~= seq![
        s1.awaits()->0,
        s2.awaits()->0,
        s3.awaits()->0,
        s4.awaits()->0,
    ]);
    assert(s0.issued(r0) =~= seq![
        s0.awaits()->0,
        s1.awaits()->0,
        s2.awaits()->0,
        s3.awaits()->0,
        s4.awaits()->0,
    ]);
}

/// A handshake yields a capability set exactly when each of its five
/// requests was granted, and the set is then made of what the second to
/// the fifth reply granted, every capability in the session of the root.
pub proof fn law_all_or_nothing(root: Capability, replies: Seq<Reply>)
    ensures
        Bootstrap::initial(root).after_all(replies).yields() is Some <==> replies.len() >= 5
            && all_granted(replies, 5),
        Bootstrap::initial(root).after_all(replies).yields() is Some ==> Bootstrap::initial(
            root,
        ).after_all(replies).yields() == Some(Bootstrap::granted_set(root, replies))
            && Bootstrap::granted_set(root, replies).belongs_to(root.session),
{
    lemma_granted_run(Bootstrap::initial(root), replies);
    if Bootstrap::initial(root).after_all(replies).yields() is Some {
        lemma_ready_requests(root, replies);
    }
}

/// The first step that fails ends the handshake with the error of that
/// step. What was granted before it is not handed out, and no request
/// follows it.
pub proof fn law_failed_step_ends_handshake(root: Capability, replies: Seq<Reply>, step: int)
    requires
        0 <= step < replies.len(),
        step < 5,
        all_granted(replies, step),
        replies[step] is Failed,
    ensures
        Bootstrap::initial(root).after_all(replies) == Bootstrap::Failed(
            replies[step]->Failed_0.request_error(),
        ),
        Bootstrap::initial(root).after_all(replies).yields() is None,
        Bootstrap::initial(root).issued(replies).len() == step + 1,
{
    lemma_failed_step(Bootstrap::initial(root), replies, step);
}

/// A handshake that has failed stays failed: it yields no capability set
/// and sends nothing, whatever replies still come in.
pub proof fn law_failure_is_final(failed: Bootstrap, replies: Seq<Reply>)
    requires
        failed is Failed,
    ensures
        failed.after_all(replies) == failed,
        failed.after_all(replies).yields() is None,
        failed.issued(replies).len() == 0,
{
    lemma_over_is_final(failed, replies);
}

impl Request {
    /// The place of the request in the handshake's fixed order.
    pub open spec fn stage(self) -> nat {
        match self {
            Request::Construct { .. } => 0,
            Request::MakeThread { .. } => 1,
            Request::MakeChain { .. } => 2,
            Request::MakeMining { .. } => 3,
            Request::CreateNewBlock { .. } => 4,
        }
    }
}

} // verus!
