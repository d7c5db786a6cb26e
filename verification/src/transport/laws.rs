//! What holds of every negotiation, whatever the native stack answers.

use crate::transport::model::{
    call_of, default_label, description_begun, failed, finished, fresh_channel, goal_of, handled,
    next_candidate, output_of, phase_of, registration_begun, resumed, with_message_handler,
    TransportView,
};
use crate::signing::Verification;
use crate::transport::types::{
    CallView, ConnectionView, Goal, IceConnectionState, InvocationView, NativeEventView,
    OutputView, PayloadView, Phase, ReplyView, SdpType, StepView, TaskView, TransportError,
};
use vstd::prelude::*;

verus! {

/// Where an operation stands after some replies: the state, the step, and
/// the calls that were issued on the way, the one that is still unanswered
/// included.
pub struct Trace {
    pub state: TransportView,
    pub step: StepView,
    pub calls: Seq<CallView>,
}

/// Carries an operation on from `step` through `replies`, one reply for
/// each call, until it is over or the replies run out.
pub open spec fn run(t: TransportView, step: StepView, replies: Seq<ReplyView>) -> Trace
    decreases replies.len(),
{
    match step {
        StepView::Done(_) => Trace { state: t, step, calls: Seq::empty() },
        StepView::Call(task) => if replies.len() == 0 {
            Trace { state: t, step, calls: seq![call_of(task)] }
        } else {
            let next = resumed(t, task, replies[0]);
            let rest = run(next.0, next.1, replies.drop_first());
            Trace { state: rest.state, step: rest.step, calls: seq![call_of(task)] + rest.calls }
        },
    }
}

/// The state after the native stack reported `events`, in order.
pub open spec fn after_events(t: TransportView, events: Seq<NativeEventView>) -> TransportView
    decreases events.len(),
{
    if events.len() == 0 {
        t
    } else {
        after_events(handled(t, events[0]).0, events.drop_first())
    }
}

/// How often the handler for the opening of the data channel is due while
/// the native stack reports `events`.
pub open spec fn open_invocations(t: TransportView, events: Seq<NativeEventView>) -> nat
    decreases events.len(),
{
    if events.len() == 0 {
        0
    } else {
        let now: nat = if handled(t, events[0]).1 is Some && events[0] is Open {
            1
        } else {
            0
        };
        now + open_invocations(handled(t, events[0]).0, events.drop_first())
    }
}

/// The reports of the local candidates `found`, in order.
pub open spec fn candidate_events(found: Seq<Seq<char>>) -> Seq<NativeEventView> {
    Seq::new(found.len(), |i: int| NativeEventView::IceCandidate(Some(found[i])))
}

/// The calls that add `candidates`, in order.
pub open spec fn candidate_calls(candidates: Seq<Seq<char>>) -> Seq<CallView> {
    Seq::new(candidates.len(), |i: int| CallView::AddIceCandidate(candidates[i]))
}

/// `t` with `added` behind the remote candidates of its connection.
pub open spec fn with_remote_candidates(t: TransportView, added: Seq<Seq<char>>) -> TransportView {
    match t.connection {
        None => t,
        Some(c) => TransportView {
            connection: Some(
                ConnectionView { remote_candidates: c.remote_candidates + added, ..c },
            ),
            ..t
        },
    }
}

/// `t` with `description` as the local description of its connection.
pub open spec fn with_local_description(t: TransportView, description: Seq<char>)
    -> TransportView {
    match t.connection {
        None => t,
        Some(c) => TransportView {
            connection: Some(ConnectionView { local_description: Some(description), ..c }),
            ..t
        },
    }
}

/// The call that creates a description of `kind`.
pub open spec fn creation_of(kind: SdpType) -> CallView {
    if kind == SdpType::Offer {
        CallView::CreateOffer
    } else {
        CallView::CreateAnswer
    }
}

/// `t` with `description` as the remote description of its connection.
pub open spec fn with_remote_description(t: TransportView, description: Seq<char>)
    -> TransportView {
    match t.connection {
        None => t,
        Some(c) => TransportView {
            connection: Some(ConnectionView { remote_description: Some(description), ..c }),
            ..t
        },
    }
}

/// Creating a description and setting it as the local one are one
/// operation: where the native stack creates the text `created` and accepts
/// it, that text is the local description afterwards, and it is what is
/// handed out, as a description of the kind asked for or, for the
/// handshake, together with the local candidates known by then.
pub proof fn law_created_description_becomes_local(
    t: TransportView,
    kind: SdpType,
    handshake: bool,
    created: Seq<char>,
    accepted: Option<Seq<char>>,
)
    requires
        t.connection is Some,
        kind == SdpType::Offer || kind == SdpType::Answer,
    ensures
        run(
            t,
            description_begun(t, kind, handshake),
            seq![ReplyView::Fulfilled(Some(created)), ReplyView::Fulfilled(accepted)],
        ) == (Trace {
            state: with_local_description(t, created),
            step: StepView::Done(
                Ok(output_of(goal_of(kind, handshake), created, t.pending_candidates)),
            ),
            calls: seq![creation_of(kind), CallView::SetLocalDescription(created)],
        }),
{
    let replies = seq![ReplyView::Fulfilled(Some(created)), ReplyView::Fulfilled(accepted)];
    let task = if kind == SdpType::Offer {
        TaskView::Offer { handshake }
    } else {
        TaskView::Answer { handshake }
    };
    let first = resumed(t, task, replies[0]);
    let tail = replies.drop_first();
    assert(tail[0] == ReplyView::Fulfilled(accepted));
    let apply = TaskView::ApplyLocal { description: created, goal: goal_of(kind, handshake) };
    assert(first.1 == StepView::Call(apply));
    let second = resumed(first.0, apply, tail[0]);
    assert(run(second.0, second.1, tail.drop_first()).calls == Seq::<CallView>::empty());
    assert(run(first.0, first.1, tail).calls == seq![CallView::SetLocalDescription(created)]);
    assert(seq![creation_of(kind)] + seq![CallView::SetLocalDescription(created)] == seq![
        creation_of(kind),
        CallView::SetLocalDescription(created),
    ]);
}

/// A description that the native stack cannot create, or does not accept,
/// is not set: the operation fails and the state stays as it was.
pub proof fn law_failed_description_changes_nothing(
    t: TransportView,
    kind: SdpType,
    handshake: bool,
    replies: Seq<ReplyView>,
)
    requires
        replies.len() > 0,
        replies[0] is Rejected || (replies.len() > 1 && replies[1] is Rejected),
    ensures
        run(t, description_begun(t, kind, handshake), replies).state == t,
        run(t, description_begun(t, kind, handshake), replies).step is Done,
        run(t, description_begun(t, kind, handshake), replies).step->Done_0 is Err,
{
    let begun = description_begun(t, kind, handshake);
    if begun is Call {
        let task = begun->Call_0;
        let first = resumed(t, task, replies[0]);
        assert(first.0 == t);
        let tail = replies.drop_first();
        if first.1 is Call {
            assert(tail.len() > 0 && tail[0] == replies[1]);
            let second = resumed(first.0, first.1->Call_0, tail[0]);
            assert(run(second.0, second.1, tail.drop_first()).state == t);
            assert(run(first.0, first.1, tail).state == t);
        } else {
            assert(run(first.0, first.1, tail).state == t);
        }
    }
}

/// The handshake message of a peer whose signature does not hold is never
/// applied: registering it fails at once, before any call is issued, so the
/// remote description stays as it was.
pub proof fn law_unverified_payload_is_refused(
    t: TransportView,
    payload: PayloadView,
    verification: Verification,
    replies: Seq<ReplyView>,
)
    requires
        verification != Verification::Valid,
    ensures
        registration_begun(t, payload, verification) == failed(TransportError::VerificationFailed),
        run(t, registration_begun(t, payload, verification), replies).state == t,
        run(t, registration_begun(t, payload, verification), replies).calls.len() == 0,
{
}

/// Candidates that the native stack accepts one after the other are added
/// in their order, and all of them.
pub proof fn lemma_candidates_are_added(
    t: TransportView,
    candidates: Seq<Seq<char>>,
    replies: Seq<ReplyView>,
)
    requires
        t.connection is Some,
        replies.len() == candidates.len(),
        forall|i: int| 0 <= i < replies.len() ==> replies[i] is Fulfilled,
    ensures
        run(t, next_candidate(candidates), replies) == (Trace {
            state: with_remote_candidates(t, candidates),
            step: finished(),
            calls: candidate_calls(candidates),
        }),
    decreases candidates.len(),
{
    let c = t.connection->0;
    if candidates.len() == 0 {
        assert(c.remote_candidates + candidates == c.remote_candidates);
        assert(candidate_calls(candidates) == Seq::<CallView>::empty());
    } else {
        let task = TaskView::AddCandidate {
            candidate: candidates[0],
            rest: candidates.drop_first(),
        };
        let next = resumed(t, task, replies[0]);
        lemma_candidates_are_added(next.0, candidates.drop_first(), replies.drop_first());
        assert(c.remote_candidates.push(candidates[0]) + candidates.drop_first()
            == c.remote_candidates + candidates);
        assert(seq![call_of(task)] + candidate_calls(candidates.drop_first()) == candidate_calls(
            candidates,
        ));
    }
}

/// The first candidate that the native stack refuses ends the operation:
/// the ones before it are added, it is the last to be tried, and whatever
/// comes behind it is not looked at.
pub proof fn lemma_candidates_stop_at_refusal(
    t: TransportView,
    candidates: Seq<Seq<char>>,
    replies: Seq<ReplyView>,
    k: int,
)
    requires
        t.connection is Some,
        0 <= k < candidates.len(),
        k < replies.len(),
        forall|i: int| 0 <= i < k ==> replies[i] is Fulfilled,
        replies[k] is Rejected,
    ensures
        run(t, next_candidate(candidates), replies) == (Trace {
            state: with_remote_candidates(t, candidates.take(k)),
            step: failed(TransportError::CandidateRejected),
            calls: candidate_calls(candidates.take(k + 1)),
        }),
    decreases k,
{
    let c = t.connection->0;
    let task = TaskView::AddCandidate { candidate: candidates[0], rest: candidates.drop_first() };
    let next = resumed(t, task, replies[0]);
    if k == 0 {
        let rest = run(next.0, next.1, replies.drop_first());
        assert(rest == (Trace { state: t, step: next.1, calls: Seq::empty() }));
        assert(candidates.take(0) == Seq::<Seq<char>>::empty());
        assert(c.remote_candidates + candidates.take(0) == c.remote_candidates);
        assert(seq![call_of(task)] + Seq::<CallView>::empty() == candidate_calls(
            candidates.take(1),
        ));
    } else {
        lemma_candidates_stop_at_refusal(
            next.0,
            candidates.drop_first(),
            replies.drop_first(),
            k - 1,
        );
        assert(candidates.drop_first().take(k - 1) == candidates.take(k).drop_first());
        assert(candidates.drop_first().take(k) == candidates.take(k + 1).drop_first());
        assert(c.remote_candidates.push(candidates[0]) + candidates.take(k).drop_first()
            == c.remote_candidates + candidates.take(k));
        assert(seq![call_of(task)] + candidate_calls(candidates.take(k + 1).drop_first())
            == candidate_calls(candidates.take(k + 1)));
    }
}

/// A verified handshake message that the native stack accepts throughout is
/// applied as a whole and in order: first its description becomes the remote
/// one, then each candidate is added, the first one first.
pub proof fn law_registration_applies_in_order(
    t: TransportView,
    payload: PayloadView,
    replies: Seq<ReplyView>,
)
    requires
        t.connection is Some,
        replies.len() == payload.candidates.len() + 1,
        forall|i: int| 0 <= i < replies.len() ==> replies[i] is Fulfilled,
    ensures
        run(t, registration_begun(t, payload, Verification::Valid), replies) == (Trace {
            state: with_remote_candidates(
                with_remote_description(t, payload.sdp),
                payload.candidates,
            ),
            step: finished(),
            calls: seq![CallView::SetRemoteDescription(payload.sdp)] + candidate_calls(
                payload.candidates,
            ),
        }),
{
    let task = TaskView::ApplyRemote { description: payload.sdp, candidates: payload.candidates };
    let next = resumed(t, task, replies[0]);
    lemma_candidates_are_added(next.0, payload.candidates, replies.drop_first());
}

/// Registration is strict: at the first candidate that the native stack
/// refuses it fails, with the description and the candidates before that one
/// applied and none of the later ones tried.
pub proof fn law_registration_stops_at_first_refusal(
    t: TransportView,
    payload: PayloadView,
    replies: Seq<ReplyView>,
    k: int,
)
    requires
        t.connection is Some,
        0 <= k < payload.candidates.len(),
        k + 1 < replies.len(),
        forall|i: int| 0 <= i <= k ==> replies[i] is Fulfilled,
        replies[k + 1] is Rejected,
    ensures
        run(t, registration_begun(t, payload, Verification::Valid), replies) == (Trace {
            state: with_remote_candidates(
                with_remote_description(t, payload.sdp),
                payload.candidates.take(k),
            ),
            step: failed(TransportError::CandidateRejected),
            calls: seq![CallView::SetRemoteDescription(payload.sdp)] + candidate_calls(
                payload.candidates.take(k + 1),
            ),
        }),
{
    let task = TaskView::ApplyRemote { description: payload.sdp, candidates: payload.candidates };
    let next = resumed(t, task, replies[0]);
    lemma_candidates_stop_at_refusal(next.0, payload.candidates, replies.drop_first(), k);
}

/// Local candidates are kept in the order in which they were found.
pub proof fn lemma_found_candidates_are_appended(t: TransportView, found: Seq<Seq<char>>)
    requires
        t.connection is Some,
    ensures
        after_events(t, candidate_events(found)) == (TransportView {
            pending_candidates: t.pending_candidates + found,
            ..t
        }),
    decreases found.len(),
{
    if found.len() == 0 {
        assert(t.pending_candidates + found == t.pending_candidates);
    } else {
        let events = candidate_events(found);
        let next = handled(t, events[0]).0;
        assert(events.drop_first() == candidate_events(found.drop_first()));
        lemma_found_candidates_are_appended(next, found.drop_first());
        assert(t.pending_candidates.push(found[0]) + found.drop_first() == t.pending_candidates
            + found);
    }
}

/// Local candidates that are found in some order stand in that order in the
/// next handshake payload, behind the ones that were known before.
pub proof fn law_payload_keeps_candidate_order(
    t: TransportView,
    found: Seq<Seq<char>>,
    description: Seq<char>,
    value: Option<Seq<char>>,
)
    requires
        t.connection is Some,
    ensures
        resumed(
            after_events(t, candidate_events(found)),
            TaskView::ApplyLocal { description, goal: Goal::Handshake },
            ReplyView::Fulfilled(value),
        ).1 == StepView::Done(
            Ok(
                OutputView::Handshake(
                    PayloadView { sdp: description, candidates: t.pending_candidates + found },
                ),
            ),
        ),
{
    lemma_found_candidates_are_appended(t, found);
}

/// The local candidates are only ever added to: no report of the native
/// stack and no reply to a call takes one away or changes their order.
pub proof fn law_pending_candidates_only_grow(
    t: TransportView,
    event: NativeEventView,
    task: TaskView,
    reply: ReplyView,
)
    ensures
        resumed(t, task, reply).0.pending_candidates == t.pending_candidates,
        handled(t, event).0.pending_candidates == t.pending_candidates || (
        event matches NativeEventView::IceCandidate(Some(found)) && handled(
            t,
            event,
        ).0.pending_candidates == t.pending_candidates.push(found)),
{
}

/// There is one data channel at most: a channel that is set up while there
/// is one already takes its place.
pub proof fn law_channel_is_replaced(
    t: TransportView,
    first: Seq<char>,
    second: Seq<char>,
    a: Option<Seq<char>>,
    b: Option<Seq<char>>,
)
    ensures
        resumed(
            resumed(t, TaskView::OpenChannel { label: first }, ReplyView::Fulfilled(a)).0,
            TaskView::OpenChannel { label: second },
            ReplyView::Fulfilled(b),
        ).0.channel == Some(fresh_channel(second)),
{
}

/// `start` leads to a connection without descriptions and to the default
/// data channel, where the native stack creates both.
pub proof fn law_start_reaches_started(
    t: TransportView,
    stun: Seq<char>,
    a: Option<Seq<char>>,
    b: Option<Seq<char>>,
)
    ensures
        ({
            let trace = run(
                t,
                StepView::Call(TaskView::Connect { stun }),
                seq![ReplyView::Fulfilled(a), ReplyView::Fulfilled(b)],
            );
            &&& trace.step == finished()
            &&& phase_of(trace.state) == Phase::Started
            &&& trace.state.channel == Some(fresh_channel(default_label()))
            &&& trace.calls == seq![
                CallView::CreateConnection { stun },
                CallView::CreateDataChannel { label: default_label() },
            ]
        }),
{
    let replies = seq![ReplyView::Fulfilled(a), ReplyView::Fulfilled(b)];
    let first = resumed(t, TaskView::Connect { stun }, replies[0]);
    let tail = replies.drop_first();
    assert(tail[0] == ReplyView::Fulfilled(b));
    let second = resumed(first.0, TaskView::OpenChannel { label: default_label() }, tail[0]);
    assert(run(second.0, second.1, tail.drop_first()).calls == Seq::<CallView>::empty());
    assert(run(first.0, first.1, tail).calls == seq![
        CallView::CreateDataChannel { label: default_label() },
    ]);
}

/// A handler that is installed takes the place of the one before it: an
/// inbound message is handed to the handler installed last, and to no other.
pub proof fn law_later_handler_replaces_earlier(
    t: TransportView,
    first: u64,
    second: u64,
    message: Seq<u8>,
)
    requires
        t.channel is Some,
    ensures
        handled(
            with_message_handler(with_message_handler(t, first)->Ok_0, second)->Ok_0,
            NativeEventView::Message(message),
        ).1 == Some(
            InvocationView { handler: second, event: NativeEventView::Message(message) },
        ),
{
}

/// Once the data channel has opened, the handler for its opening is not due
/// again.
pub proof fn lemma_opened_channel_stays_quiet(t: TransportView, events: Seq<NativeEventView>)
    requires
        t.channel matches Some(ch) ==> ch.opened,
    ensures
        open_invocations(t, events) == 0,
    decreases events.len(),
{
    if events.len() > 0 {
        lemma_opened_channel_stays_quiet(handled(t, events[0]).0, events.drop_first());
    }
}

/// The handler for the opening of the data channel is due once at most,
/// whatever the native stack reports.
pub proof fn law_open_fires_at_most_once(t: TransportView, events: Seq<NativeEventView>)
    ensures
        open_invocations(t, events) <= 1,
    decreases events.len(),
{
    if events.len() > 0 {
        let next = handled(t, events[0]).0;
        if events[0] is Open || (t.channel matches Some(ch) ==> ch.opened) {
            lemma_opened_channel_stays_quiet(next, events.drop_first());
        } else {
            law_open_fires_at_most_once(next, events.drop_first());
        }
    }
}

/// The way from a started negotiation to one with both descriptions set: a
/// local description makes it wait for the remote one, a remote description
/// makes it wait for the local one, and the second of the two completes it.
pub proof fn law_descriptions_advance_the_phase(
    t: TransportView,
    local: Seq<char>,
    remote: Seq<char>,
    goal: Goal,
    a: Option<Seq<char>>,
    b: Option<Seq<char>>,
)
    requires
        phase_of(t) == Phase::Started,
    ensures
        ({
            let offered = resumed(
                t,
                TaskView::ApplyLocal { description: local, goal },
                ReplyView::Fulfilled(a),
            ).0;
            let asked = resumed(
                t,
                TaskView::ApplyRemote { description: remote, candidates: Seq::empty() },
                ReplyView::Fulfilled(b),
            ).0;
            &&& phase_of(offered) == Phase::OfferPending
            &&& phase_of(asked) == Phase::AnswerPending
            &&& phase_of(
                resumed(
                    offered,
                    TaskView::ApplyRemote { description: remote, candidates: Seq::empty() },
                    ReplyView::Fulfilled(b),
                ).0,
            ) == Phase::DescriptionsSet
            &&& phase_of(
                resumed(
                    asked,
                    TaskView::ApplyLocal { description: local, goal },
                    ReplyView::Fulfilled(a),
                ).0,
            ) == Phase::DescriptionsSet
        }),
{
}

/// What the native stack reports of the connection decides the end of the
/// negotiation: connectivity, or failure.
pub proof fn law_connection_state_ends_the_negotiation(
    t: TransportView,
    state: IceConnectionState,
)
    requires
        t.connection is Some,
    ensures
        state == IceConnectionState::Failed ==> phase_of(
            handled(t, NativeEventView::ConnectionStateChange(state)).0,
        ) == Phase::Failed,
        state == IceConnectionState::Connected || state == IceConnectionState::Completed
            ==> phase_of(handled(t, NativeEventView::ConnectionStateChange(state)).0)
            == Phase::Connected,
{
}

} // verus!
