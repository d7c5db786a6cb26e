//! Negotiation of a peer connection, step by step.
//!
//! A [`WasmTransport`] never talks to the native connectivity stack itself.
//! Each operation begins with a [`Step`]: either it is over at once, or it
//! names a [`Task`] whose [`NativeCall`] the embedding program performs. The
//! program hands the stack's [`Reply`] to [`WasmTransport::resume`], which
//! gives the next step, until the operation is done.

pub mod laws;
pub mod model;
pub mod types;

use crate::channel::{Event, EventView};
use crate::signing::SignedMessage;
use crate::transport::model::{
    call_of, channel_setup, description_begun, handled, installation, phase_of,
    registration_begun, resumed, unstarted, with_connection, with_data_channel_handler,
    with_ice_candidate_handler, with_message_handler, with_open_handler,
    with_state_change_handler, TransportView,
};
use crate::transport::types::{
    Connection, DataChannel, Goal, IceConnectionState, Invocation, InvocationView, NativeCall,
    NativeEvent, Output, Phase, Reply, Sdp, SdpString, SdpType, Step, StepView, Task, TaskView,
    TransportError, TricklePayload,
};
use vstd::prelude::*;

verus! {

/// One negotiation instance: what is known of its connection and its data
/// channel, and the local candidates found so far.
#[derive(Debug, Clone, PartialEq, Eq)]
pub struct WasmTransport {
    pub connection: Option<Connection>,
    pub pending_candidates: Vec<String>,
    pub channel: Option<DataChannel>,
}

impl View for WasmTransport {
    type V = TransportView;

    open spec fn view(&self) -> TransportView {
        TransportView {
            connection: match self.connection {
                Some(c) => Some(c@),
                None => None,
            },
            pending_candidates: self.pending_candidates.deep_view(),
            channel: match self.channel {
                Some(ch) => Some(ch@),
                None => None,
            },
        }
    }
}

/// A copy of a list of texts.
fn copy_texts(texts: &Vec<String>) -> (copy: Vec<String>)
    ensures
        copy.deep_view() == texts.deep_view(),
{
    let mut copy: Vec<String> = Vec::new();
    let mut i: usize = 0;
    while i < texts.len()
        invariant
            i <= texts.len(),
            copy.len() == i,
            forall|j: int| 0 <= j < i ==> copy@[j]@ == texts@[j]@,
        decreases texts.len() - i,
    {
        copy.push(texts[i].clone());
        i = i + 1;
    }
    assert(copy.deep_view() =~= texts.deep_view());
    copy
}

/// The step that adds the first of `candidates`, or the end where none is
/// left.
fn next_candidate(candidates: Vec<String>) -> (step: Step)
    ensures
        step@ == model::next_candidate(candidates.deep_view()),
{
    let mut rest = candidates;
    if rest.len() == 0 {
        Step::Done(Ok(Output::Unit))
    } else {
        let candidate = rest.remove(0);
        assert(rest.deep_view() =~= candidates.deep_view().drop_first());
        Step::Call(Task::AddCandidate { candidate, rest })
    }
}

/// What a description of `kind` is created for.
fn goal_of(kind: SdpType, handshake: bool) -> (goal: Goal)
    ensures
        goal == model::goal_of(kind, handshake),
{
    if handshake {
        Goal::Handshake
    } else {
        Goal::Describe(kind)
    }
}

/// What follows the creation of a description.
fn described(connected: bool, reply: Reply, goal: Goal, failure: TransportError) -> (step: Step)
    ensures
        forall|t: TransportView|
            t.connection is Some == connected ==> step@ == #[trigger] model::described(
                t,
                reply@,
                goal,
                failure,
            ),
{
    match reply {
        Reply::Rejected => Step::Done(Err(failure)),
        Reply::Fulfilled(value) => match SdpString::try_from(value) {
            Err(e) => Step::Done(Err(e)),
            Ok(description) => if connected {
                Step::Call(Task::ApplyLocal { description, goal })
            } else {
                Step::Done(Err(TransportError::ConnectionMissing))
            },
        },
    }
}

impl Connection {
    /// What is known of a connection that was just created.
    pub fn new(stun: String) -> (connection: Self)
        ensures
            connection@ == model::fresh_connection(stun@),
    {
        let connection = Connection {
            stun,
            local_description: None,
            remote_description: None,
            remote_candidates: Vec::new(),
            state: IceConnectionState::New,
            on_ice_candidate: None,
            on_state_change: None,
            on_data_channel: None,
        };
        assert(connection.remote_candidates.deep_view() =~= Seq::empty());
        connection
    }
}

impl DataChannel {
    /// What is known of a data channel that was just created.
    pub fn new(label: String) -> (channel: Self)
        ensures
            channel@ == model::fresh_channel(label@),
    {
        DataChannel { label, on_message: None, on_open: None, opened: false }
    }
}

impl Task {
    /// The request that the native stack is to carry out for it.
    pub fn call(&self) -> (call: NativeCall)
        ensures
            call@ == call_of(self@),
    {
        match self {
            Task::Connect { stun } => NativeCall::CreateConnection { stun: stun.clone() },
            Task::OpenChannel { label } => NativeCall::CreateDataChannel { label: label.clone() },
            Task::Offer { .. } => NativeCall::CreateOffer,
            Task::Answer { .. } => NativeCall::CreateAnswer,
            Task::ApplyLocal { description, .. } => NativeCall::SetLocalDescription(
                SdpString(description.0.clone()),
            ),
            Task::ApplyRemote { description, .. } => NativeCall::SetRemoteDescription(
                SdpString(description.0.clone()),
            ),
            Task::AddCandidate { candidate, .. } => NativeCall::AddIceCandidate(candidate.clone()),
        }
    }
}

impl WasmTransport {
    /// An instance before `start`.
    pub fn new() -> (transport: Self)
        ensures
            transport@ == unstarted(),
    {
        let transport = Self { connection: None, pending_candidates: Vec::new(), channel: None };
        assert(transport.pending_candidates.deep_view() =~= Seq::empty());
        transport
    }

    /// Begins the creation of the connection, configured with `stun`, and
    /// of its data channel.
    pub fn start(&self, stun: String) -> (step: Step)
        ensures
            step@ == StepView::Call(TaskView::Connect { stun: stun@ }),
    {
        Step::Call(Task::Connect { stun })
    }

    /// Begins the creation of a data channel labelled `name` in place of
    /// the present one. Without a connection there is nothing to do.
    pub fn setup_channel(&self, name: &str) -> (step: Step)
        ensures
            step@ == channel_setup(self@, name@),
    {
        if self.connection.is_some() {
            Step::Call(Task::OpenChannel { label: String::from_str(name) })
        } else {
            Step::Done(Ok(Output::Unit))
        }
    }

    /// The first step towards a local description of `kind`.
    fn describe(&self, kind: SdpType, handshake: bool) -> (step: Step)
        ensures
            step@ == description_begun(self@, kind, handshake),
    {
        match kind {
            SdpType::Offer => if self.connection.is_some() {
                Step::Call(Task::Offer { handshake })
            } else {
                Step::Done(Err(TransportError::NoConnection))
            },
            SdpType::Answer => if self.connection.is_some() {
                Step::Call(Task::Answer { handshake })
            } else {
                Step::Done(Err(TransportError::NoConnection))
            },
            _ => Step::Done(Err(TransportError::UnsupportedSdpType)),
        }
    }

    /// Begins the creation of an offer, which is then set as the local
    /// description and handed out.
    pub fn get_offer(&self) -> (step: Step)
        ensures
            step@ == description_begun(self@, SdpType::Offer, false),
    {
        self.describe(SdpType::Offer, false)
    }

    /// Begins the creation of an answer, which is then set as the local
    /// description and handed out.
    pub fn get_answer(&self) -> (step: Step)
        ensures
            step@ == description_begun(self@, SdpType::Answer, false),
    {
        self.describe(SdpType::Answer, false)
    }

    /// Begins setting `desc` as the local description.
    pub fn set_local_description(&self, desc: SdpString) -> (step: Step)
        ensures
            step@ == with_connection(
                self@,
                TaskView::ApplyLocal { description: desc@, goal: Goal::Apply },
            ),
    {
        if self.connection.is_some() {
            Step::Call(Task::ApplyLocal { description: desc, goal: Goal::Apply })
        } else {
            Step::Done(Err(TransportError::ConnectionMissing))
        }
    }

    /// Begins setting `desc` as the remote description.
    pub fn set_remote_description(&self, desc: SdpString) -> (step: Step)
        ensures
            step@ == with_connection(
                self@,
                TaskView::ApplyRemote { description: desc@, candidates: Seq::empty() },
            ),
    {
        if self.connection.is_some() {
            let candidates: Vec<String> = Vec::new();
            assert(candidates.deep_view() =~= Seq::empty());
            Step::Call(Task::ApplyRemote { description: desc, candidates })
        } else {
            Step::Done(Err(TransportError::ConnectionMissing))
        }
    }

    /// Begins adding one remote candidate.
    pub fn add_ice_candidate(&self, candidate: String) -> (step: Step)
        ensures
            step@ == with_connection(
                self@,
                TaskView::AddCandidate { candidate: candidate@, rest: Seq::empty() },
            ),
    {
        if self.connection.is_some() {
            let rest: Vec<String> = Vec::new();
            assert(rest.deep_view() =~= Seq::empty());
            Step::Call(Task::AddCandidate { candidate, rest })
        } else {
            Step::Done(Err(TransportError::ConnectionMissing))
        }
    }

    /// Begins the outbound half of the handshake: a local description of
    /// `kind` is created and set, and handed out together with the local
    /// candidates found by then. The payload is for the signer.
    pub fn get_handshake_info(&self, kind: SdpType) -> (step: Step)
        ensures
            step@ == description_begun(self@, kind, true),
    {
        self.describe(kind, true)
    }

    /// Begins the inbound half of the handshake with the signed message of
    /// a peer: where its signature holds, its description is set as the
    /// remote one, then its candidates are added in order.
    pub fn register_remote_info(&self, data: SignedMessage<TricklePayload>) -> (step: Step)
        ensures
            step@ == registration_begun(self@, data.data()@, data.verification()),
    {
        match data.open() {
            Err(e) => Step::Done(Err(e)),
            Ok(payload) => if self.connection.is_some() {
                Step::Call(
                    Task::ApplyRemote {
                        description: SdpString(payload.sdp),
                        candidates: payload.candidates,
                    },
                )
            } else {
                Step::Done(Err(TransportError::ConnectionMissing))
            },
        }
    }

    /// Installs `handler` for new local candidates, in place of any other.
    pub fn on_ice_candidate(&mut self, handler: u64) -> (r: Result<(), TransportError>)
        ensures
            installation(
                old(self)@,
                with_ice_candidate_handler(old(self)@, handler),
                final(self)@,
                r,
            ),
    {
        match self.connection.take() {
            None => Err(TransportError::ConnectionMissing),
            Some(connection) => {
                let mut connection = connection;
                connection.on_ice_candidate = Some(handler);
                self.connection = Some(connection);
                Ok(())
            },
        }
    }

    /// Installs `handler` for changes of the connection state, in place of
    /// any other.
    pub fn on_peer_connection_state_change(&mut self, handler: u64) -> (r: Result<
        (),
        TransportError,
    >)
        ensures
            installation(
                old(self)@,
                with_state_change_handler(old(self)@, handler),
                final(self)@,
                r,
            ),
    {
        match self.connection.take() {
            None => Err(TransportError::ConnectionMissing),
            Some(connection) => {
                let mut connection = connection;
                connection.on_state_change = Some(handler);
                self.connection = Some(connection);
                Ok(())
            },
        }
    }

    /// Installs `handler` for inbound data channels, in place of any other.
    pub fn on_data_channel(&mut self, handler: u64) -> (r: Result<(), TransportError>)
        ensures
            installation(
                old(self)@,
                with_data_channel_handler(old(self)@, handler),
                final(self)@,
                r,
            ),
    {
        match self.connection.take() {
            None => Err(TransportError::ConnectionMissing),
            Some(connection) => {
                let mut connection = connection;
                connection.on_data_channel = Some(handler);
                self.connection = Some(connection);
                Ok(())
            },
        }
    }

    /// Installs `handler` for inbound messages, in place of any other.
    pub fn on_message(&mut self, handler: u64) -> (r: Result<(), TransportError>)
        ensures
            installation(
                old(self)@,
                with_message_handler(old(self)@, handler),
                final(self)@,
                r,
            ),
    {
        match self.channel.take() {
            None => Err(TransportError::ConnectionMissing),
            Some(channel) => {
                let mut channel = channel;
                channel.on_message = Some(handler);
                self.channel = Some(channel);
                Ok(())
            },
        }
    }

    /// Installs `handler` for the opening of the data channel, in place of
    /// any other.
    pub fn on_open(&mut self, handler: u64) -> (r: Result<(), TransportError>)
        ensures
            installation(old(self)@, with_open_handler(old(self)@, handler), final(self)@, r),
    {
        match self.channel.take() {
            None => Err(TransportError::ConnectionMissing),
            Some(channel) => {
                let mut channel = channel;
                channel.on_open = Some(handler);
                self.channel = Some(channel);
                Ok(())
            },
        }
    }

    /// Takes note of what the native stack reported, and names the handler
    /// that is due for it, if one is.
    pub fn handle(&mut self, event: NativeEvent) -> (due: Option<Invocation>)
        ensures
            final(self)@ == handled(old(self)@, event@).0,
            match due {
                Some(invocation) => handled(old(self)@, event@).1 == Some(invocation@),
                None => handled(old(self)@, event@).1 is None,
            },
    {
        let slot = match &event {
            NativeEvent::IceCandidate(candidate) => match &self.connection {
                None => None,
                Some(connection) => {
                    let slot = connection.on_ice_candidate;
                    match candidate {
                        Some(text) => {
                            let ghost before = self.pending_candidates.deep_view();
                            self.pending_candidates.push(text.clone());
                            assert(self.pending_candidates.deep_view() =~= before.push(text@));
                        },
                        None => {},
                    }
                    slot
                },
            },
            NativeEvent::ConnectionStateChange(state) => match self.connection.take() {
                None => None,
                Some(connection) => {
                    let mut connection = connection;
                    connection.state = *state;
                    let slot = connection.on_state_change;
                    self.connection = Some(connection);
                    slot
                },
            },
            NativeEvent::DataChannel(_) => match &self.connection {
                None => None,
                Some(connection) => connection.on_data_channel,
            },
            NativeEvent::Message(_) => match &self.channel {
                None => None,
                Some(channel) => channel.on_message,
            },
            NativeEvent::Open => match self.channel.take() {
                None => None,
                Some(channel) => {
                    let mut channel = channel;
                    let slot = if channel.opened {
                        None
                    } else {
                        channel.on_open
                    };
                    if !channel.opened {
                        channel.opened = true;
                        channel.on_open = None;
                    }
                    self.channel = Some(channel);
                    slot
                },
            },
        };
        match slot {
            Some(handler) => Some(Invocation { handler, event }),
            None => None,
        }
    }

    /// What the stock handler for inbound messages tells the owner.
    pub fn on_message_callback(msg: Vec<u8>) -> (event: Event)
        ensures
            event@ == EventView::ReceiveMsg(msg@),
    {
        Event::ReceiveMsg(msg)
    }

    /// What the stock handler for changes of the connection state tells the
    /// owner: a failed connection is reported, nothing else is.
    pub fn on_peer_connection_state_change_callback(state: IceConnectionState) -> (event: Option<
        Event,
    >)
        ensures
            match event {
                Some(e) => state == IceConnectionState::Failed && e@ == EventView::ConnectFailed,
                None => state != IceConnectionState::Failed,
            },
    {
        match state {
            IceConnectionState::Failed => Some(Event::ConnectFailed),
            _ => None,
        }
    }

    /// What is known of the connection, once there is one.
    pub fn get_peer_connection(&self) -> (connection: Option<&Connection>)
        ensures
            match connection {
                Some(c) => self.connection == Some(*c),
                None => self.connection is None,
            },
    {
        self.connection.as_ref()
    }

    /// The local candidates found so far, in the order in which they were
    /// found.
    pub fn get_pending_candidates(&self) -> (candidates: Vec<String>)
        ensures
            candidates.deep_view() == self@.pending_candidates,
    {
        copy_texts(&self.pending_candidates)
    }

    /// What is known of the data channel, once there is one.
    pub fn get_data_channel(&self) -> (channel: Option<&DataChannel>)
        ensures
            match channel {
                Some(ch) => self.channel == Some(*ch),
                None => self.channel is None,
            },
    {
        self.channel.as_ref()
    }

    /// Goes on with the operation that `task` belongs to, now that the
    /// native stack has answered its call with `reply`.
    pub fn resume(&mut self, task: Task, reply: Reply) -> (step: Step)
        ensures
            (final(self)@, step@) == resumed(old(self)@, task@, reply@),
    {
        match task {
            Task::Connect { stun } => match reply {
                Reply::Rejected => Step::Done(Err(TransportError::ConfigurationRejected)),
                Reply::Fulfilled(_) => {
                    self.connection = Some(Connection::new(stun));
                    self.channel = None;
                    Step::Call(Task::OpenChannel { label: String::from_str("bns") })
                },
            },
            Task::OpenChannel { label } => match reply {
                Reply::Rejected => Step::Done(Err(TransportError::ChannelRejected)),
                Reply::Fulfilled(_) => {
                    self.channel = Some(DataChannel::new(label));
                    Step::Done(Ok(Output::Unit))
                },
            },
            Task::Offer { handshake } => described(
                self.connection.is_some(),
                reply,
                goal_of(SdpType::Offer, handshake),
                TransportError::OfferFailed,
            ),
            Task::Answer { handshake } => described(
                self.connection.is_some(),
                reply,
                goal_of(SdpType::Answer, handshake),
                TransportError::AnswerFailed,
            ),
            Task::ApplyLocal { description, goal } => match reply {
                Reply::Rejected => Step::Done(Err(TransportError::DescriptionRejected)),
                Reply::Fulfilled(_) => match self.connection.take() {
                    None => Step::Done(Err(TransportError::ConnectionMissing)),
                    Some(connection) => {
                        let output = match goal {
                            Goal::Apply => Output::Unit,
                            Goal::Describe(kind) => Output::Description(
                                Sdp { kind, sdp: description.0.clone() },
                            ),
                            Goal::Handshake => Output::Handshake(
                                TricklePayload {
                                    sdp: description.0.clone(),
                                    candidates: copy_texts(&self.pending_candidates),
                                },
                            ),
                        };
                        let mut connection = connection;
                        connection.local_description = Some(description);
                        self.connection = Some(connection);
                        Step::Done(Ok(output))
                    },
                },
            },
            Task::ApplyRemote { description, candidates } => match reply {
                Reply::Rejected => Step::Done(Err(TransportError::DescriptionRejected)),
                Reply::Fulfilled(_) => match self.connection.take() {
                    None => Step::Done(Err(TransportError::ConnectionMissing)),
                    Some(connection) => {
                        let mut connection = connection;
                        connection.remote_description = Some(description);
                        self.connection = Some(connection);
                        next_candidate(candidates)
                    },
                },
            },
            Task::AddCandidate { candidate, rest } => match reply {
                Reply::Rejected => Step::Done(Err(TransportError::CandidateRejected)),
                Reply::Fulfilled(_) => match self.connection.take() {
                    None => Step::Done(Err(TransportError::ConnectionMissing)),
                    Some(connection) => {
                        let mut connection = connection;
                        let ghost before = connection.remote_candidates.deep_view();
                        connection.remote_candidates.push(candidate);
                        assert(connection.remote_candidates.deep_view() =~= before.push(
                            candidate@,
                        ));
                        self.connection = Some(connection);
                        next_candidate(rest)
                    },
                },
            },
        }
    }

    /// How far the negotiation has come.
    pub fn phase(&self) -> (phase: Phase)
        ensures
            phase == phase_of(self@),
    {
        match &self.connection {
            None => Phase::Unstarted,
            Some(c) => {
                let both = c.local_description.is_some() && c.remote_description.is_some();
                match c.state {
                    IceConnectionState::Failed => Phase::Failed,
                    IceConnectionState::Connected | IceConnectionState::Completed => {
                        Phase::Connected
                    },
                    _ => if both {
                        Phase::DescriptionsSet
                    } else if c.local_description.is_some() {
                        Phase::OfferPending
                    } else if c.remote_description.is_some() {
                        Phase::AnswerPending
                    } else {
                        Phase::Started
                    },
                }
            },
        }
    }
}

} // verus!
