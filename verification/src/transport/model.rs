//! The negotiation state machine as a mathematical object: what each step
//! makes of a state.

use crate::signing::Verification;
use crate::transport::types::{
    CallView, ChannelView, ConnectionView, Goal, IceConnectionState, InvocationView,
    NativeEventView, OutputView, PayloadView, Phase, ReplyView, SdpType, SdpView, StepView,
    TaskView, TransportError,
};
use vstd::prelude::*;

verus! {

/// A negotiation instance as plain values.
pub struct TransportView {
    pub connection: Option<ConnectionView>,
    pub pending_candidates: Seq<Seq<char>>,
    pub channel: Option<ChannelView>,
}

/// The label of the data channel that `start` asks for.
pub open spec fn default_label() -> Seq<char> {
    "bns"@
}

/// An instance before `start`.
pub open spec fn unstarted() -> TransportView {
    TransportView { connection: None, pending_candidates: Seq::empty(), channel: None }
}

/// A connection as the native stack creates it.
pub open spec fn fresh_connection(stun: Seq<char>) -> ConnectionView {
    ConnectionView {
        stun,
        local_description: None,
        remote_description: None,
        remote_candidates: Seq::empty(),
        state: IceConnectionState::New,
        on_ice_candidate: None,
        on_state_change: None,
        on_data_channel: None,
    }
}

/// A data channel as the native stack creates it.
pub open spec fn fresh_channel(label: Seq<char>) -> ChannelView {
    ChannelView { label, on_message: None, on_open: None, opened: false }
}

/// How far the negotiation of `t` has come.
pub open spec fn phase_of(t: TransportView) -> Phase {
    match t.connection {
        None => Phase::Unstarted,
        Some(c) => if c.state == IceConnectionState::Failed {
            Phase::Failed
        } else if c.state == IceConnectionState::Connected || c.state
            == IceConnectionState::Completed {
            Phase::Connected
        } else if c.local_description is Some && c.remote_description is Some {
            Phase::DescriptionsSet
        } else if c.local_description is Some {
            Phase::OfferPending
        } else if c.remote_description is Some {
            Phase::AnswerPending
        } else {
            Phase::Started
        },
    }
}

/// The request that a task waits on.
pub open spec fn call_of(task: TaskView) -> CallView {
    match task {
        TaskView::Connect { stun } => CallView::CreateConnection { stun },
        TaskView::OpenChannel { label } => CallView::CreateDataChannel { label },
        TaskView::Offer { .. } => CallView::CreateOffer,
        TaskView::Answer { .. } => CallView::CreateAnswer,
        TaskView::ApplyLocal { description, .. } => CallView::SetLocalDescription(description),
        TaskView::ApplyRemote { description, .. } => CallView::SetRemoteDescription(description),
        TaskView::AddCandidate { candidate, .. } => CallView::AddIceCandidate(candidate),
    }
}

/// A step that ends in failure.
pub open spec fn failed(e: TransportError) -> StepView {
    StepView::Done(Err(e))
}

/// A step that ends with nothing to hand out.
pub open spec fn finished() -> StepView {
    StepView::Done(Ok(OutputView::Unit))
}

/// What is handed out once a local description is set for `goal`.
pub open spec fn output_of(goal: Goal, description: Seq<char>, pending: Seq<Seq<char>>)
    -> OutputView {
    match goal {
        Goal::Apply => OutputView::Unit,
        Goal::Describe(kind) => OutputView::Description(SdpView { kind, sdp: description }),
        Goal::Handshake => OutputView::Handshake(
            PayloadView { sdp: description, candidates: pending },
        ),
    }
}

/// The step that adds the first of `candidates`, or the end where none is
/// left.
pub open spec fn next_candidate(candidates: Seq<Seq<char>>) -> StepView {
    if candidates.len() == 0 {
        finished()
    } else {
        StepView::Call(
            TaskView::AddCandidate { candidate: candidates[0], rest: candidates.drop_first() },
        )
    }
}

/// What a description of `kind` is created for.
pub open spec fn goal_of(kind: SdpType, handshake: bool) -> Goal {
    if handshake {
        Goal::Handshake
    } else {
        Goal::Describe(kind)
    }
}

/// What follows the creation of a description.
pub open spec fn described(
    t: TransportView,
    reply: ReplyView,
    goal: Goal,
    failure: TransportError,
) -> StepView {
    match reply {
        ReplyView::Rejected => failed(failure),
        ReplyView::Fulfilled(None) => failed(TransportError::NotText),
        ReplyView::Fulfilled(Some(text)) => if t.connection is None {
            failed(TransportError::ConnectionMissing)
        } else {
            StepView::Call(TaskView::ApplyLocal { description: text, goal })
        },
    }
}

/// The step and the state that follow when the native stack answers the
/// call of `task` with `reply`.
pub open spec fn resumed(t: TransportView, task: TaskView, reply: ReplyView) -> (
    TransportView,
    StepView,
) {
    match task {
        TaskView::Connect { stun } => match reply {
            ReplyView::Rejected => (t, failed(TransportError::ConfigurationRejected)),
            ReplyView::Fulfilled(_) => (
                TransportView { connection: Some(fresh_connection(stun)), channel: None, ..t },
                StepView::Call(TaskView::OpenChannel { label: default_label() }),
            ),
        },
        TaskView::OpenChannel { label } => match reply {
            ReplyView::Rejected => (t, failed(TransportError::ChannelRejected)),
            ReplyView::Fulfilled(_) => (
                TransportView { channel: Some(fresh_channel(label)), ..t },
                finished(),
            ),
        },
        TaskView::Offer { handshake } => (
            t,
            described(t, reply, goal_of(SdpType::Offer, handshake), TransportError::OfferFailed),
        ),
        TaskView::Answer { handshake } => (
            t,
            described(t, reply, goal_of(SdpType::Answer, handshake), TransportError::AnswerFailed),
        ),
        TaskView::ApplyLocal { description, goal } => match reply {
            ReplyView::Rejected => (t, failed(TransportError::DescriptionRejected)),
            ReplyView::Fulfilled(_) => match t.connection {
                None => (t, failed(TransportError::ConnectionMissing)),
                Some(c) => (
                    TransportView {
                        connection: Some(
                            ConnectionView { local_description: Some(description), ..c },
                        ),
                        ..t
                    },
                    StepView::Done(Ok(output_of(goal, description, t.pending_candidates))),
                ),
            },
        },
        TaskView::ApplyRemote { description, candidates } => match reply {
            ReplyView::Rejected => (t, failed(TransportError::DescriptionRejected)),
            ReplyView::Fulfilled(_) => match t.connection {
                None => (t, failed(TransportError::ConnectionMissing)),
                Some(c) => (
                    TransportView {
                        connection: Some(
                            ConnectionView { remote_description: Some(description), ..c },
                        ),
                        ..t
                    },
                    next_candidate(candidates),
                ),
            },
        },
        TaskView::AddCandidate { candidate, rest } => match reply {
            ReplyView::Rejected => (t, failed(TransportError::CandidateRejected)),
            ReplyView::Fulfilled(_) => match t.connection {
                None => (t, failed(TransportError::ConnectionMissing)),
                Some(c) => (
                    TransportView {
                        connection: Some(
                            ConnectionView {
                                remote_candidates: c.remote_candidates.push(candidate),
                                ..c
                            },
                        ),
                        ..t
                    },
                    next_candidate(rest),
                ),
            },
        },
    }
}

/// The first step of `setup_channel`.
pub open spec fn channel_setup(t: TransportView, label: Seq<char>) -> StepView {
    if t.connection is None {
        finished()
    } else {
        StepView::Call(TaskView::OpenChannel { label })
    }
}

/// The first step of asking for a description of `kind`.
pub open spec fn description_begun(t: TransportView, kind: SdpType, handshake: bool) -> StepView {
    if kind != SdpType::Offer && kind != SdpType::Answer {
        failed(TransportError::UnsupportedSdpType)
    } else if t.connection is None {
        failed(TransportError::NoConnection)
    } else if kind == SdpType::Offer {
        StepView::Call(TaskView::Offer { handshake })
    } else {
        StepView::Call(TaskView::Answer { handshake })
    }
}

/// The first step of a task that needs the connection.
pub open spec fn with_connection(t: TransportView, task: TaskView) -> StepView {
    if t.connection is None {
        failed(TransportError::ConnectionMissing)
    } else {
        StepView::Call(task)
    }
}

/// The first step of registering what a peer sent.
pub open spec fn registration_begun(
    t: TransportView,
    payload: PayloadView,
    verification: Verification,
) -> StepView {
    if verification != Verification::Valid {
        failed(TransportError::VerificationFailed)
    } else {
        with_connection(
            t,
            TaskView::ApplyRemote { description: payload.sdp, candidates: payload.candidates },
        )
    }
}

/// The state in which `handler` is installed for new local candidates, or
/// the failure where there is no connection to install it on.
pub open spec fn with_ice_candidate_handler(t: TransportView, handler: u64) -> Result<
    TransportView,
    TransportError,
> {
    match t.connection {
        None => Err(TransportError::ConnectionMissing),
        Some(c) => Ok(
            TransportView {
                connection: Some(ConnectionView { on_ice_candidate: Some(handler), ..c }),
                ..t
            },
        ),
    }
}

/// The same for changes of the connection state.
pub open spec fn with_state_change_handler(t: TransportView, handler: u64) -> Result<
    TransportView,
    TransportError,
> {
    match t.connection {
        None => Err(TransportError::ConnectionMissing),
        Some(c) => Ok(
            TransportView {
                connection: Some(ConnectionView { on_state_change: Some(handler), ..c }),
                ..t
            },
        ),
    }
}

/// The same for inbound data channels.
pub open spec fn with_data_channel_handler(t: TransportView, handler: u64) -> Result<
    TransportView,
    TransportError,
> {
    match t.connection {
        None => Err(TransportError::ConnectionMissing),
        Some(c) => Ok(
            TransportView {
                connection: Some(ConnectionView { on_data_channel: Some(handler), ..c }),
                ..t
            },
        ),
    }
}

/// The same for inbound messages, which need the data channel.
pub open spec fn with_message_handler(t: TransportView, handler: u64) -> Result<
    TransportView,
    TransportError,
> {
    match t.channel {
        None => Err(TransportError::ConnectionMissing),
        Some(ch) => Ok(
            TransportView { channel: Some(ChannelView { on_message: Some(handler), ..ch }), ..t },
        ),
    }
}

/// The same for the opening of the data channel.
pub open spec fn with_open_handler(t: TransportView, handler: u64) -> Result<
    TransportView,
    TransportError,
> {
    match t.channel {
        None => Err(TransportError::ConnectionMissing),
        Some(ch) => Ok(
            TransportView { channel: Some(ChannelView { on_open: Some(handler), ..ch }), ..t },
        ),
    }
}

/// What installing a handler comes to: the state changes as `installed`
/// says, or stays as it was where that is a failure.
pub open spec fn installation(
    before: TransportView,
    installed: Result<TransportView, TransportError>,
    after: TransportView,
    r: Result<(), TransportError>,
) -> bool {
    match installed {
        Ok(t) => after == t && r is Ok,
        Err(e) => after == before && r == Err::<(), TransportError>(e),
    }
}

/// The handler in `slot`, due for `event`.
pub open spec fn invocation(slot: Option<u64>, event: NativeEventView) -> Option<InvocationView> {
    match slot {
        Some(handler) => Some(InvocationView { handler, event }),
        None => None,
    }
}

/// The state after the native stack reported `event`, and the handler that
/// is due for it.
pub open spec fn handled(t: TransportView, event: NativeEventView) -> (
    TransportView,
    Option<InvocationView>,
) {
    match event {
        NativeEventView::IceCandidate(candidate) => match t.connection {
            None => (t, None),
            Some(c) => (
                match candidate {
                    Some(text) => TransportView {
                        pending_candidates: t.pending_candidates.push(text),
                        ..t
                    },
                    None => t,
                },
                invocation(c.on_ice_candidate, event),
            ),
        },
        NativeEventView::ConnectionStateChange(state) => match t.connection {
            None => (t, None),
            Some(c) => (
                TransportView { connection: Some(ConnectionView { state, ..c }), ..t },
                invocation(c.on_state_change, event),
            ),
        },
        NativeEventView::DataChannel(_) => match t.connection {
            None => (t, None),
            Some(c) => (t, invocation(c.on_data_channel, event)),
        },
        NativeEventView::Message(_) => match t.channel {
            None => (t, None),
            Some(ch) => (t, invocation(ch.on_message, event)),
        },
        NativeEventView::Open => match t.channel {
            None => (t, None),
            Some(ch) => if ch.opened {
                (t, None)
            } else {
                (
                    TransportView {
                        channel: Some(ChannelView { opened: true, on_open: None, ..ch }),
                        ..t
                    },
                    invocation(ch.on_open, event),
                )
            },
        },
    }
}

} // verus!
