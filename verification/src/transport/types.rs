//! The values that the negotiation state machine works on, and what each of
//! them is as plain mathematical data.

use vstd::prelude::*;

verus! {

/// The kind of a session description.
#[derive(Debug, Clone, Copy, PartialEq, Eq, Structural)]
pub enum SdpType {
    Offer,
    Pranswer,
    Answer,
    Rollback,
}

/// The state of the connection, as the native stack reports it.
#[derive(Debug, Clone, Copy, PartialEq, Eq, Structural)]
pub enum IceConnectionState {
    New,
    Checking,
    Connected,
    Completed,
    Failed,
    Disconnected,
    Closed,
}

/// How far a negotiation has come.
#[derive(Debug, Clone, Copy, PartialEq, Eq, Structural)]
pub enum Phase {
    /// No connection has been created.
    Unstarted,
    /// The connection exists; no description has been set.
    Started,
    /// The local description is set, the remote one is awaited.
    OfferPending,
    /// The remote description is set, the local one is awaited.
    AnswerPending,
    /// Both descriptions are set.
    DescriptionsSet,
    /// The native stack reports connectivity.
    Connected,
    /// The native stack reports failure.
    Failed,
}

/// Why a negotiation step failed.
#[derive(Debug, Clone, Copy, PartialEq, Eq, Structural)]
pub enum TransportError {
    /// A description was asked for, and there is no connection.
    NoConnection,
    /// A step needs the connection or the data channel, and there is none.
    ConnectionMissing,
    /// The native stack refused to create a connection.
    ConfigurationRejected,
    /// The native stack refused to create the data channel.
    ChannelRejected,
    /// The native stack could not create an offer.
    OfferFailed,
    /// The native stack could not create an answer.
    AnswerFailed,
    /// The native stack handed back a description that is no text.
    NotText,
    /// The native stack refused a description.
    DescriptionRejected,
    /// The native stack refused a candidate.
    CandidateRejected,
    /// Handshake information was asked for a kind other than offer or answer.
    UnsupportedSdpType,
    /// The signature of a handshake message does not hold.
    VerificationFailed,
}

/// What setting a local description is for.
#[derive(Debug, Clone, Copy, PartialEq, Eq, Structural)]
pub enum Goal {
    /// Nothing more.
    Apply,
    /// Handing out the description, which is of this kind.
    Describe(SdpType),
    /// Handing out the handshake payload.
    Handshake,
}

/// A session description in the text form in which it is transmitted.
#[derive(Debug, Clone, PartialEq, Eq)]
pub struct SdpString(pub String);

/// A session description.
#[derive(Debug, Clone, PartialEq, Eq)]
pub struct Sdp {
    pub kind: SdpType,
    pub sdp: String,
}

/// The unit that peers exchange during the handshake.
#[derive(Debug, Clone, PartialEq, Eq)]
pub struct TricklePayload {
    pub sdp: String,
    pub candidates: Vec<String>,
}

/// What is known of the native connection.
#[derive(Debug, Clone, PartialEq, Eq)]
pub struct Connection {
    /// The STUN or TURN server it was configured with.
    pub stun: String,
    pub local_description: Option<SdpString>,
    pub remote_description: Option<SdpString>,
    /// The remote candidates that the native stack accepted, in order.
    pub remote_candidates: Vec<String>,
    pub state: IceConnectionState,
    /// The handler for new local candidates, if one is installed.
    pub on_ice_candidate: Option<u64>,
    /// The handler for changes of the connection state, if one is installed.
    pub on_state_change: Option<u64>,
    /// The handler for inbound data channels, if one is installed.
    pub on_data_channel: Option<u64>,
}

/// What is known of the native data channel.
#[derive(Debug, Clone, PartialEq, Eq)]
pub struct DataChannel {
    pub label: String,
    /// The handler for inbound messages, if one is installed.
    pub on_message: Option<u64>,
    /// The handler for the opening of the channel, if one is installed and
    /// has not fired.
    pub on_open: Option<u64>,
    /// Whether the channel has opened.
    pub opened: bool,
}

/// A request to the native connectivity stack.
#[derive(Debug, Clone, PartialEq, Eq)]
pub enum NativeCall {
    CreateConnection { stun: String },
    CreateDataChannel { label: String },
    CreateOffer,
    CreateAnswer,
    SetLocalDescription(SdpString),
    SetRemoteDescription(SdpString),
    AddIceCandidate(String),
}

/// What the native stack made of a request.
#[derive(Debug, Clone, PartialEq, Eq)]
pub enum Reply {
    /// It was carried out. The value is the text that came back, if any did.
    Fulfilled(Option<String>),
    /// It was refused.
    Rejected,
}

/// A negotiation step that waits for the native stack.
#[derive(Debug, Clone, PartialEq, Eq)]
pub enum Task {
    /// The connection is being created.
    Connect { stun: String },
    /// The data channel is being created.
    OpenChannel { label: String },
    /// An offer is being created, for the handshake or for its own sake.
    Offer { handshake: bool },
    /// An answer is being created, for the handshake or for its own sake.
    Answer { handshake: bool },
    /// A local description is being set.
    ApplyLocal { description: SdpString, goal: Goal },
    /// A remote description is being set; the candidates follow it.
    ApplyRemote { description: SdpString, candidates: Vec<String> },
    /// A remote candidate is being added; the rest follow it.
    AddCandidate { candidate: String, rest: Vec<String> },
}

/// What a finished negotiation step hands out.
#[derive(Debug, Clone, PartialEq, Eq)]
pub enum Output {
    Unit,
    Description(Sdp),
    Handshake(TricklePayload),
}

/// Where a negotiation step stands.
#[derive(Debug, PartialEq, Eq)]
pub enum Step {
    /// The native stack is to carry out the call that is named, and the step
    /// is resumed with its reply.
    Call(Task),
    /// The step is over.
    Done(Result<Output, TransportError>),
}

/// What the native stack reports of its own accord.
#[derive(Debug, Clone, PartialEq, Eq)]
pub enum NativeEvent {
    /// A local candidate was found, or the search for them is over.
    IceCandidate(Option<String>),
    /// The state of the connection changed.
    ConnectionStateChange(IceConnectionState),
    /// The remote peer opened a data channel of this label.
    DataChannel(String),
    /// A message arrived on the data channel.
    Message(Vec<u8>),
    /// The data channel opened.
    Open,
}

/// A handler that is due, with what it is handed.
#[derive(Debug, Clone, PartialEq, Eq)]
pub struct Invocation {
    pub handler: u64,
    pub event: NativeEvent,
}

/// A session description as plain values.
pub struct SdpView {
    pub kind: SdpType,
    pub sdp: Seq<char>,
}

/// A handshake payload as plain values.
pub struct PayloadView {
    pub sdp: Seq<char>,
    pub candidates: Seq<Seq<char>>,
}

/// What is known of the connection, as plain values.
pub struct ConnectionView {
    pub stun: Seq<char>,
    pub local_description: Option<Seq<char>>,
    pub remote_description: Option<Seq<char>>,
    pub remote_candidates: Seq<Seq<char>>,
    pub state: IceConnectionState,
    pub on_ice_candidate: Option<u64>,
    pub on_state_change: Option<u64>,
    pub on_data_channel: Option<u64>,
}

/// What is known of the data channel, as plain values.
pub struct ChannelView {
    pub label: Seq<char>,
    pub on_message: Option<u64>,
    pub on_open: Option<u64>,
    pub opened: bool,
}

/// A request to the native stack as plain values.
pub enum CallView {
    CreateConnection { stun: Seq<char> },
    CreateDataChannel { label: Seq<char> },
    CreateOffer,
    CreateAnswer,
    SetLocalDescription(Seq<char>),
    SetRemoteDescription(Seq<char>),
    AddIceCandidate(Seq<char>),
}

/// A reply of the native stack as plain values.
pub enum ReplyView {
    Fulfilled(Option<Seq<char>>),
    Rejected,
}

/// A waiting step as plain values.
pub enum TaskView {
    Connect { stun: Seq<char> },
    OpenChannel { label: Seq<char> },
    Offer { handshake: bool },
    Answer { handshake: bool },
    ApplyLocal { description: Seq<char>, goal: Goal },
    ApplyRemote { description: Seq<char>, candidates: Seq<Seq<char>> },
    AddCandidate { candidate: Seq<char>, rest: Seq<Seq<char>> },
}

/// What a finished step hands out, as plain values.
pub enum OutputView {
    Unit,
    Description(SdpView),
    Handshake(PayloadView),
}

/// Where a step stands, as plain values.
pub enum StepView {
    Call(TaskView),
    Done(Result<OutputView, TransportError>),
}

/// A report of the native stack as plain values.
pub enum NativeEventView {
    IceCandidate(Option<Seq<char>>),
    ConnectionStateChange(IceConnectionState),
    DataChannel(Seq<char>),
    Message(Seq<u8>),
    Open,
}

/// A handler that is due, as plain values.
pub struct InvocationView {
    pub handler: u64,
    pub event: NativeEventView,
}

/// The text of an optional description.
pub open spec fn description_text(description: Option<SdpString>) -> Option<Seq<char>> {
    match description {
        Some(d) => Some(d@),
        None => None,
    }
}

/// The text of an optional string.
pub open spec fn optional_text(text: Option<String>) -> Option<Seq<char>> {
    match text {
        Some(t) => Some(t@),
        None => None,
    }
}

impl View for SdpString {
    type V = Seq<char>;

    open spec fn view(&self) -> Seq<char> {
        self.0@
    }
}

impl TransportError {
    /// The cause, in words.
    pub open spec fn cause(&self) -> Seq<char> {
        match self {
            TransportError::NoConnection => "cannot get connection"@,
            TransportError::ConnectionMissing => "Failed on getting connection"@,
            TransportError::ConfigurationRejected => "Failed to create connection"@,
            TransportError::ChannelRejected => "Failed to create data channel"@,
            TransportError::OfferFailed => "cannot get offer"@,
            TransportError::AnswerFailed => "Failed to get answer"@,
            TransportError::NotText => "cannot cover value to string"@,
            TransportError::DescriptionRejected => "Failed to set remote description"@,
            TransportError::CandidateRejected => "Failed to add ice candidate"@,
            TransportError::UnsupportedSdpType => "unsupport sdp type"@,
            TransportError::VerificationFailed => "failed on verify message sigature"@,
        }
    }

    /// The cause, in words.
    pub fn message(&self) -> (text: &'static str)
        ensures
            text@ == self.cause(),
    {
        match self {
            TransportError::NoConnection => "cannot get connection",
            TransportError::ConnectionMissing => "Failed on getting connection",
            TransportError::ConfigurationRejected => "Failed to create connection",
            TransportError::ChannelRejected => "Failed to create data channel",
            TransportError::OfferFailed => "cannot get offer",
            TransportError::AnswerFailed => "Failed to get answer",
            TransportError::NotText => "cannot cover value to string",
            TransportError::DescriptionRejected => "Failed to set remote description",
            TransportError::CandidateRejected => "Failed to add ice candidate",
            TransportError::UnsupportedSdpType => "unsupport sdp type",
            TransportError::VerificationFailed => "failed on verify message sigature",
        }
    }
}

impl From<String> for SdpString {
    fn from(s: String) -> (description: Self) {
        Self(s)
    }
}

impl vstd::std_specs::convert::FromSpecImpl<String> for SdpString {
    open spec fn obeys_from_spec() -> bool {
        true
    }

    open spec fn from_spec(s: String) -> Self {
        SdpString(s)
    }
}

impl TryFrom<Option<String>> for SdpString {
    type Error = TransportError;

    /// The description that the native stack handed out, where it is text.
    fn try_from(s: Option<String>) -> (description: Result<Self, TransportError>) {
        match s {
            Some(v) => Ok(Self(v)),
            None => Err(TransportError::NotText),
        }
    }
}

impl vstd::std_specs::convert::TryFromSpecImpl<Option<String>> for SdpString {
    open spec fn obeys_try_from_spec() -> bool {
        true
    }

    open spec fn try_from_spec(s: Option<String>) -> Result<Self, TransportError> {
        match s {
            Some(v) => Ok(SdpString(v)),
            None => Err(TransportError::NotText),
        }
    }
}

impl From<Sdp> for SdpString {
    fn from(sdp: Sdp) -> (description: Self) {
        Self(sdp.sdp)
    }
}

impl vstd::std_specs::convert::FromSpecImpl<Sdp> for SdpString {
    open spec fn obeys_from_spec() -> bool {
        true
    }

    open spec fn from_spec(sdp: Sdp) -> Self {
        SdpString(sdp.sdp)
    }
}

impl View for Sdp {
    type V = SdpView;

    open spec fn view(&self) -> SdpView {
        SdpView { kind: self.kind, sdp: self.sdp@ }
    }
}

impl View for TricklePayload {
    type V = PayloadView;

    open spec fn view(&self) -> PayloadView {
        PayloadView { sdp: self.sdp@, candidates: self.candidates.deep_view() }
    }
}

impl View for Connection {
    type V = ConnectionView;

    open spec fn view(&self) -> ConnectionView {
        ConnectionView {
            stun: self.stun@,
            local_description: description_text(self.local_description),
            remote_description: description_text(self.remote_description),
            remote_candidates: self.remote_candidates.deep_view(),
            state: self.state,
            on_ice_candidate: self.on_ice_candidate,
            on_state_change: self.on_state_change,
            on_data_channel: self.on_data_channel,
        }
    }
}

impl View for DataChannel {
    type V = ChannelView;

    open spec fn view(&self) -> ChannelView {
        ChannelView {
            label: self.label@,
            on_message: self.on_message,
            on_open: self.on_open,
            opened: self.opened,
        }
    }
}

impl View for NativeCall {
    type V = CallView;

    open spec fn view(&self) -> CallView {
        match self {
            NativeCall::CreateConnection { stun } => CallView::CreateConnection { stun: stun@ },
            NativeCall::CreateDataChannel { label } => CallView::CreateDataChannel {
                label: label@,
            },
            NativeCall::CreateOffer => CallView::CreateOffer,
            NativeCall::CreateAnswer => CallView::CreateAnswer,
            NativeCall::SetLocalDescription(d) => CallView::SetLocalDescription(d@),
            NativeCall::SetRemoteDescription(d) => CallView::SetRemoteDescription(d@),
            NativeCall::AddIceCandidate(c) => CallView::AddIceCandidate(c@),
        }
    }
}

impl View for Reply {
    type V = ReplyView;

    open spec fn view(&self) -> ReplyView {
        match self {
            Reply::Fulfilled(text) => ReplyView::Fulfilled(optional_text(*text)),
            Reply::Rejected => ReplyView::Rejected,
        }
    }
}

impl View for Task {
    type V = TaskView;

    open spec fn view(&self) -> TaskView {
        match self {
            Task::Connect { stun } => TaskView::Connect { stun: stun@ },
            Task::OpenChannel { label } => TaskView::OpenChannel { label: label@ },
            Task::Offer { handshake } => TaskView::Offer { handshake: *handshake },
            Task::Answer { handshake } => TaskView::Answer { handshake: *handshake },
            Task::ApplyLocal { description, goal } => TaskView::ApplyLocal {
                description: description@,
                goal: *goal,
            },
            Task::ApplyRemote { description, candidates } => TaskView::ApplyRemote {
                description: description@,
                candidates: candidates.deep_view(),
            },
            Task::AddCandidate { candidate, rest } => TaskView::AddCandidate {
                candidate: candidate@,
                rest: rest.deep_view(),
            },
        }
    }
}

impl View for Output {
    type V = OutputView;

    open spec fn view(&self) -> OutputView {
        match self {
            Output::Unit => OutputView::Unit,
            Output::Description(sdp) => OutputView::Description(sdp@),
            Output::Handshake(payload) => OutputView::Handshake(payload@),
        }
    }
}

impl View for Step {
    type V = StepView;

    open spec fn view(&self) -> StepView {
        match self {
            Step::Call(task) => StepView::Call(task@),
            Step::Done(Ok(output)) => StepView::Done(Ok(output@)),
            Step::Done(Err(e)) => StepView::Done(Err(*e)),
        }
    }
}

impl View for NativeEvent {
    type V = NativeEventView;

    open spec fn view(&self) -> NativeEventView {
        match self {
            NativeEvent::IceCandidate(candidate) => NativeEventView::IceCandidate(
                optional_text(*candidate),
            ),
            NativeEvent::ConnectionStateChange(state) => NativeEventView::ConnectionStateChange(
                *state,
            ),
            NativeEvent::DataChannel(label) => NativeEventView::DataChannel(label@),
            NativeEvent::Message(bytes) => NativeEventView::Message(bytes@),
            NativeEvent::Open => NativeEventView::Open,
        }
    }
}

impl View for Invocation {
    type V = InvocationView;

    open spec fn view(&self) -> InvocationView {
        InvocationView { handler: self.handler, event: self.event@ }
    }
}

} // verus!
