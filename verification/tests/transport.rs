use rings_node::channel::Event;
use rings_node::signing::{SignedMessage, Verification};
use rings_node::transport::types::{
    Connection, DataChannel, Goal, IceConnectionState, Invocation, NativeCall, NativeEvent,
    Output, Phase, Reply, Sdp, SdpString, SdpType, Step, Task, TransportError, TricklePayload,
};
use rings_node::transport::WasmTransport;

const STUN: &str = "stun:example.org:3478";
const OFFER: &str = "v=0\r\no=- 1 2 IN IP4 127.0.0.1\r\ns=-\r\n";
const ANSWER: &str = "v=0\r\no=- 3 4 IN IP4 127.0.0.1\r\ns=-\r\n";

fn done() -> Reply {
    Reply::Fulfilled(None)
}

fn text(s: &str) -> Reply {
    Reply::Fulfilled(Some(s.to_string()))
}

/// Plays the native stack: answers each call with the next reply, and
/// records the calls.
fn drive(t: &mut WasmTransport, first: Step, replies: Vec<Reply>) -> (Vec<NativeCall>, Step) {
    let mut calls = vec![];
    let mut step = first;
    for reply in replies {
        match step {
            Step::Call(task) => {
                calls.push(task.call());
                step = t.resume(task, reply);
            }
            Step::Done(_) => break,
        }
    }
    if let Step::Call(task) = &step {
        calls.push(task.call());
    }
    (calls, step)
}

fn started() -> WasmTransport {
    let mut t = WasmTransport::new();
    let first = t.start(STUN.to_string());
    let (_, step) = drive(&mut t, first, vec![done(), done()]);
    assert_eq!(step, Step::Done(Ok(Output::Unit)));
    t
}

fn strings(items: &[&str]) -> Vec<String> {
    items.iter().map(|s| s.to_string()).collect()
}

#[test]
fn new_instance_is_unstarted() {
    let t = WasmTransport::new();
    assert_eq!(t.phase(), Phase::Unstarted);
    assert!(t.get_peer_connection().is_none());
    assert!(t.get_data_channel().is_none());
    assert!(t.get_pending_candidates().is_empty());
}

#[test]
fn start_creates_connection_and_channel() {
    let mut t = WasmTransport::new();
    let first = t.start(STUN.to_string());
    let (calls, step) = drive(&mut t, first, vec![done(), done()]);
    assert_eq!(
        calls,
        vec![
            NativeCall::CreateConnection { stun: STUN.to_string() },
            NativeCall::CreateDataChannel { label: "bns".to_string() },
        ]
    );
    assert_eq!(step, Step::Done(Ok(Output::Unit)));
    assert_eq!(t.phase(), Phase::Started);
    assert_eq!(t.get_peer_connection(), Some(&Connection::new(STUN.to_string())));
    assert_eq!(t.get_data_channel(), Some(&DataChannel::new("bns".to_string())));
}

#[test]
fn start_fails_when_configuration_is_rejected() {
    let mut t = WasmTransport::new();
    let first = t.start("nonsense".to_string());
    let (calls, step) = drive(&mut t, first, vec![Reply::Rejected, done()]);
    assert_eq!(calls.len(), 1);
    assert_eq!(step, Step::Done(Err(TransportError::ConfigurationRejected)));
    assert_eq!(t, WasmTransport::new());
}

#[test]
fn start_fails_when_channel_is_rejected() {
    let mut t = WasmTransport::new();
    let first = t.start(STUN.to_string());
    let (_, step) = drive(&mut t, first, vec![done(), Reply::Rejected]);
    assert_eq!(step, Step::Done(Err(TransportError::ChannelRejected)));
    assert!(t.get_peer_connection().is_some());
    assert!(t.get_data_channel().is_none());
}

#[test]
fn offer_is_set_and_carried_by_the_handshake() {
    let mut t = started();
    let first = t.get_offer();
    let (calls, step) = drive(&mut t, first, vec![text(OFFER), done()]);
    assert_eq!(
        calls,
        vec![NativeCall::CreateOffer, NativeCall::SetLocalDescription(SdpString(OFFER.to_string()))]
    );
    let sdp = match step {
        Step::Done(Ok(Output::Description(sdp))) => sdp,
        other => panic!("no offer: {:?}", other),
    };
    assert_eq!(sdp, Sdp { kind: SdpType::Offer, sdp: OFFER.to_string() });
    assert!(!sdp.sdp.is_empty());
    assert_eq!(
        t.get_peer_connection().unwrap().local_description,
        Some(SdpString(OFFER.to_string()))
    );
    assert_eq!(t.phase(), Phase::OfferPending);

    let first = t.get_handshake_info(SdpType::Offer);
    let (_, step) = drive(&mut t, first, vec![text(OFFER), done()]);
    match step {
        Step::Done(Ok(Output::Handshake(payload))) => {
            assert_eq!(payload.sdp, sdp.sdp);
            assert!(payload.candidates.is_empty());
        }
        other => panic!("no handshake payload: {:?}", other),
    }
}

#[test]
fn answerer_registers_offer_and_answers() {
    let mut b = started();
    let from_a = TricklePayload { sdp: OFFER.to_string(), candidates: strings(&["a1", "a2"]) };
    let first = b.register_remote_info(SignedMessage::new(from_a, Verification::Valid));
    let (calls, step) = drive(&mut b, first, vec![done(), done(), done()]);
    assert_eq!(
        calls,
        vec![
            NativeCall::SetRemoteDescription(SdpString(OFFER.to_string())),
            NativeCall::AddIceCandidate("a1".to_string()),
            NativeCall::AddIceCandidate("a2".to_string()),
        ]
    );
    assert_eq!(step, Step::Done(Ok(Output::Unit)));
    let connection = b.get_peer_connection().unwrap();
    assert_eq!(connection.remote_description, Some(SdpString(OFFER.to_string())));
    assert_eq!(connection.remote_candidates, strings(&["a1", "a2"]));
    assert_eq!(b.phase(), Phase::AnswerPending);

    let first = b.get_handshake_info(SdpType::Answer);
    assert_eq!(first, Step::Call(Task::Answer { handshake: true }));
    let (calls, step) = drive(&mut b, first, vec![text(ANSWER), done()]);
    assert_eq!(
        calls,
        vec![
            NativeCall::CreateAnswer,
            NativeCall::SetLocalDescription(SdpString(ANSWER.to_string())),
        ]
    );
    assert_eq!(
        step,
        Step::Done(Ok(Output::Handshake(TricklePayload {
            sdp: ANSWER.to_string(),
            candidates: vec![],
        })))
    );
    assert_eq!(b.phase(), Phase::DescriptionsSet);
}

#[test]
fn get_answer_hands_out_an_answer() {
    let mut t = started();
    let first = t.get_answer();
    let (calls, step) = drive(&mut t, first, vec![text(ANSWER), done()]);
    assert_eq!(calls[0], NativeCall::CreateAnswer);
    assert_eq!(
        step,
        Step::Done(Ok(Output::Description(Sdp { kind: SdpType::Answer, sdp: ANSWER.to_string() })))
    );
}

#[test]
fn tampered_envelope_is_not_applied() {
    let mut b = started();
    let before = b.clone();
    let tampered = TricklePayload { sdp: OFFER.to_string(), candidates: strings(&["a1"]) };
    let first = b.register_remote_info(SignedMessage::new(tampered, Verification::Invalid));
    assert_eq!(first, Step::Done(Err(TransportError::VerificationFailed)));
    let (calls, step) = drive(&mut b, first, vec![done(), done()]);
    assert!(calls.is_empty());
    assert_eq!(step, Step::Done(Err(TransportError::VerificationFailed)));
    assert_eq!(b.get_peer_connection().unwrap().remote_description, None);
    assert_eq!(b, before);
}

#[test]
fn failed_verification_is_not_applied() {
    let b = started();
    let payload = TricklePayload { sdp: OFFER.to_string(), candidates: vec![] };
    assert_eq!(
        b.register_remote_info(SignedMessage::new(payload, Verification::Failed)),
        Step::Done(Err(TransportError::VerificationFailed))
    );
}

#[test]
fn verification_is_checked_before_the_connection() {
    let t = WasmTransport::new();
    let payload = TricklePayload { sdp: OFFER.to_string(), candidates: vec![] };
    assert_eq!(
        t.register_remote_info(SignedMessage::new(payload.clone(), Verification::Invalid)),
        Step::Done(Err(TransportError::VerificationFailed))
    );
    assert_eq!(
        t.register_remote_info(SignedMessage::new(payload, Verification::Valid)),
        Step::Done(Err(TransportError::ConnectionMissing))
    );
}

#[test]
fn registration_stops_at_first_refused_candidate() {
    let mut b = started();
    let payload =
        TricklePayload { sdp: OFFER.to_string(), candidates: strings(&["c1", "c2", "c3", "c4"]) };
    let first = b.register_remote_info(SignedMessage::new(payload, Verification::Valid));
    let (calls, step) =
        drive(&mut b, first, vec![done(), done(), done(), Reply::Rejected, done(), done()]);
    assert_eq!(
        calls,
        vec![
            NativeCall::SetRemoteDescription(SdpString(OFFER.to_string())),
            NativeCall::AddIceCandidate("c1".to_string()),
            NativeCall::AddIceCandidate("c2".to_string()),
            NativeCall::AddIceCandidate("c3".to_string()),
        ]
    );
    assert_eq!(step, Step::Done(Err(TransportError::CandidateRejected)));
    let connection = b.get_peer_connection().unwrap();
    assert_eq!(connection.remote_description, Some(SdpString(OFFER.to_string())));
    assert_eq!(connection.remote_candidates, strings(&["c1", "c2"]));
}

#[test]
fn registration_fails_when_description_is_refused() {
    let mut b = started();
    let payload = TricklePayload { sdp: "garbage".to_string(), candidates: strings(&["c1"]) };
    let first = b.register_remote_info(SignedMessage::new(payload, Verification::Valid));
    let (calls, step) = drive(&mut b, first, vec![Reply::Rejected, done()]);
    assert_eq!(calls.len(), 1);
    assert_eq!(step, Step::Done(Err(TransportError::DescriptionRejected)));
    assert_eq!(b.get_peer_connection().unwrap().remote_description, None);
    assert!(b.get_peer_connection().unwrap().remote_candidates.is_empty());
}

#[test]
fn candidates_keep_their_order_in_the_payload() {
    let mut t = started();
    for c in ["c1", "c2", "c3"] {
        assert_eq!(t.handle(NativeEvent::IceCandidate(Some(c.to_string()))), None);
    }
    assert_eq!(t.handle(NativeEvent::IceCandidate(None)), None);
    assert_eq!(t.get_pending_candidates(), strings(&["c1", "c2", "c3"]));
    let first = t.get_handshake_info(SdpType::Offer);
    let (_, step) = drive(&mut t, first, vec![text(OFFER), done()]);
    assert_eq!(
        step,
        Step::Done(Ok(Output::Handshake(TricklePayload {
            sdp: OFFER.to_string(),
            candidates: strings(&["c1", "c2", "c3"]),
        })))
    );
    t.handle(NativeEvent::IceCandidate(Some("c4".to_string())));
    let first = t.get_handshake_info(SdpType::Offer);
    let (_, step) = drive(&mut t, first, vec![text(OFFER), done()]);
    match step {
        Step::Done(Ok(Output::Handshake(payload))) => {
            assert_eq!(payload.candidates, strings(&["c1", "c2", "c3", "c4"]))
        }
        other => panic!("no handshake payload: {:?}", other),
    }
}

#[test]
fn payload_holds_the_candidates_known_when_it_is_made() {
    let mut t = started();
    t.handle(NativeEvent::IceCandidate(Some("early".to_string())));
    let task = match t.get_handshake_info(SdpType::Offer) {
        Step::Call(task) => task,
        other => panic!("no call: {:?}", other),
    };
    let task = match t.resume(task, text(OFFER)) {
        Step::Call(task) => task,
        other => panic!("no call: {:?}", other),
    };
    t.handle(NativeEvent::IceCandidate(Some("late".to_string())));
    assert_eq!(
        t.resume(task, done()),
        Step::Done(Ok(Output::Handshake(TricklePayload {
            sdp: OFFER.to_string(),
            candidates: strings(&["early", "late"]),
        })))
    );
}

#[test]
fn second_channel_replaces_the_first() {
    let mut t = started();
    t.on_message(1).unwrap();
    let first = t.setup_channel("one");
    let (calls, step) = drive(&mut t, first, vec![done()]);
    assert_eq!(calls, vec![NativeCall::CreateDataChannel { label: "one".to_string() }]);
    assert_eq!(step, Step::Done(Ok(Output::Unit)));
    let first = t.setup_channel("two");
    drive(&mut t, first, vec![done()]);
    assert_eq!(t.get_data_channel(), Some(&DataChannel::new("two".to_string())));
    assert_eq!(t.channel.iter().count(), 1);
}

#[test]
fn setup_channel_without_connection_does_nothing() {
    let mut t = WasmTransport::new();
    let first = t.setup_channel("x");
    assert_eq!(first, Step::Done(Ok(Output::Unit)));
    let (calls, _) = drive(&mut t, first, vec![done()]);
    assert!(calls.is_empty());
    assert!(t.get_data_channel().is_none());
}

#[test]
fn only_offers_and_answers_are_handshake_kinds() {
    let t = started();
    assert_eq!(
        t.get_handshake_info(SdpType::Pranswer),
        Step::Done(Err(TransportError::UnsupportedSdpType))
    );
    assert_eq!(
        t.get_handshake_info(SdpType::Rollback),
        Step::Done(Err(TransportError::UnsupportedSdpType))
    );
    assert_eq!(
        WasmTransport::new().get_handshake_info(SdpType::Rollback),
        Step::Done(Err(TransportError::UnsupportedSdpType))
    );
}

#[test]
fn steps_need_a_connection() {
    let t = WasmTransport::new();
    assert_eq!(t.get_offer(), Step::Done(Err(TransportError::NoConnection)));
    assert_eq!(t.get_answer(), Step::Done(Err(TransportError::NoConnection)));
    assert_eq!(
        t.get_handshake_info(SdpType::Offer),
        Step::Done(Err(TransportError::NoConnection))
    );
    assert_eq!(
        t.set_local_description(SdpString::from("x".to_string())),
        Step::Done(Err(TransportError::ConnectionMissing))
    );
    assert_eq!(
        t.set_remote_description(SdpString::from("x".to_string())),
        Step::Done(Err(TransportError::ConnectionMissing))
    );
    assert_eq!(
        t.add_ice_candidate("c".to_string()),
        Step::Done(Err(TransportError::ConnectionMissing))
    );
}

#[test]
fn native_refusals_surface_as_errors() {
    let mut t = started();
    let first = t.get_offer();
    assert_eq!(
        drive(&mut t, first, vec![Reply::Rejected]).1,
        Step::Done(Err(TransportError::OfferFailed))
    );
    let first = t.get_answer();
    assert_eq!(
        drive(&mut t, first, vec![Reply::Rejected]).1,
        Step::Done(Err(TransportError::AnswerFailed))
    );
    let first = t.get_offer();
    assert_eq!(drive(&mut t, first, vec![done()]).1, Step::Done(Err(TransportError::NotText)));
    let first = t.get_offer();
    assert_eq!(
        drive(&mut t, first, vec![text(OFFER), Reply::Rejected]).1,
        Step::Done(Err(TransportError::DescriptionRejected))
    );
    let first = t.set_local_description(SdpString("x".to_string()));
    assert_eq!(
        drive(&mut t, first, vec![Reply::Rejected]).1,
        Step::Done(Err(TransportError::DescriptionRejected))
    );
    let first = t.set_remote_description(SdpString("x".to_string()));
    assert_eq!(
        drive(&mut t, first, vec![Reply::Rejected]).1,
        Step::Done(Err(TransportError::DescriptionRejected))
    );
    let first = t.add_ice_candidate("c".to_string());
    assert_eq!(
        drive(&mut t, first, vec![Reply::Rejected]).1,
        Step::Done(Err(TransportError::CandidateRejected))
    );
    assert_eq!(t, started());
}

#[test]
fn descriptions_can_be_set_directly() {
    let mut t = started();
    let first = t.set_remote_description(SdpString(OFFER.to_string()));
    let (calls, step) = drive(&mut t, first, vec![done()]);
    assert_eq!(calls, vec![NativeCall::SetRemoteDescription(SdpString(OFFER.to_string()))]);
    assert_eq!(step, Step::Done(Ok(Output::Unit)));
    assert_eq!(t.phase(), Phase::AnswerPending);
    let first = t.set_local_description(SdpString(ANSWER.to_string()));
    let (calls, step) = drive(&mut t, first, vec![done()]);
    assert_eq!(calls, vec![NativeCall::SetLocalDescription(SdpString(ANSWER.to_string()))]);
    assert_eq!(step, Step::Done(Ok(Output::Unit)));
    assert_eq!(t.phase(), Phase::DescriptionsSet);
    let first = t.add_ice_candidate("c".to_string());
    let (calls, step) = drive(&mut t, first, vec![done()]);
    assert_eq!(calls, vec![NativeCall::AddIceCandidate("c".to_string())]);
    assert_eq!(step, Step::Done(Ok(Output::Unit)));
    assert_eq!(t.get_peer_connection().unwrap().remote_candidates, strings(&["c"]));
}

#[test]
fn connection_state_decides_the_phase() {
    let mut t = started();
    t.handle(NativeEvent::ConnectionStateChange(IceConnectionState::Checking));
    assert_eq!(t.phase(), Phase::Started);
    t.handle(NativeEvent::ConnectionStateChange(IceConnectionState::Connected));
    assert_eq!(t.phase(), Phase::Connected);
    t.handle(NativeEvent::ConnectionStateChange(IceConnectionState::Completed));
    assert_eq!(t.phase(), Phase::Connected);
    t.handle(NativeEvent::ConnectionStateChange(IceConnectionState::Failed));
    assert_eq!(t.phase(), Phase::Failed);
}

#[test]
fn handlers_need_their_object() {
    let mut t = WasmTransport::new();
    assert_eq!(t.on_ice_candidate(1), Err(TransportError::ConnectionMissing));
    assert_eq!(t.on_peer_connection_state_change(1), Err(TransportError::ConnectionMissing));
    assert_eq!(t.on_data_channel(1), Err(TransportError::ConnectionMissing));
    assert_eq!(t.on_message(1), Err(TransportError::ConnectionMissing));
    assert_eq!(t.on_open(1), Err(TransportError::ConnectionMissing));
    assert_eq!(t, WasmTransport::new());
}

#[test]
fn installed_handlers_are_due_once_per_event() {
    let mut t = started();
    t.on_ice_candidate(1).unwrap();
    t.on_peer_connection_state_change(2).unwrap();
    t.on_data_channel(3).unwrap();
    t.on_message(4).unwrap();
    let events = vec![
        NativeEvent::IceCandidate(Some("c".to_string())),
        NativeEvent::IceCandidate(None),
        NativeEvent::ConnectionStateChange(IceConnectionState::Checking),
        NativeEvent::DataChannel("peer".to_string()),
        NativeEvent::Message(vec![1, 2, 3]),
        NativeEvent::Message(vec![]),
    ];
    let handlers = [1, 1, 2, 3, 4, 4];
    for (event, handler) in events.into_iter().zip(handlers) {
        assert_eq!(t.handle(event.clone()), Some(Invocation { handler, event }));
    }
}

#[test]
fn later_handler_replaces_earlier() {
    let mut t = started();
    t.on_message(10).unwrap();
    t.on_message(11).unwrap();
    assert_eq!(
        t.handle(NativeEvent::Message(vec![9])),
        Some(Invocation { handler: 11, event: NativeEvent::Message(vec![9]) })
    );
}

#[test]
fn events_without_handler_invoke_nothing() {
    let mut t = started();
    assert_eq!(t.handle(NativeEvent::Message(vec![1])), None);
    assert_eq!(t.handle(NativeEvent::Open), None);
    assert_eq!(t.handle(NativeEvent::DataChannel("x".to_string())), None);
    let mut t = WasmTransport::new();
    assert_eq!(t.handle(NativeEvent::IceCandidate(Some("c".to_string()))), None);
    assert_eq!(t.handle(NativeEvent::ConnectionStateChange(IceConnectionState::Failed)), None);
    assert_eq!(t, WasmTransport::new());
}

#[test]
fn open_fires_once() {
    let mut t = started();
    t.on_open(5).unwrap();
    assert_eq!(
        t.handle(NativeEvent::Open),
        Some(Invocation { handler: 5, event: NativeEvent::Open })
    );
    assert_eq!(t.handle(NativeEvent::Open), None);
    t.on_open(6).unwrap();
    assert_eq!(t.handle(NativeEvent::Open), None);
    let first = t.setup_channel("again");
    drive(&mut t, first, vec![done()]);
    t.on_open(7).unwrap();
    assert_eq!(
        t.handle(NativeEvent::Open),
        Some(Invocation { handler: 7, event: NativeEvent::Open })
    );
}

#[test]
fn stock_handlers_report_to_the_owner() {
    assert_eq!(WasmTransport::on_message_callback(vec![1, 2]), Event::ReceiveMsg(vec![1, 2]));
    assert_eq!(
        WasmTransport::on_peer_connection_state_change_callback(IceConnectionState::Failed),
        Some(Event::ConnectFailed)
    );
    for state in [
        IceConnectionState::New,
        IceConnectionState::Checking,
        IceConnectionState::Connected,
        IceConnectionState::Completed,
        IceConnectionState::Disconnected,
        IceConnectionState::Closed,
    ] {
        assert_eq!(WasmTransport::on_peer_connection_state_change_callback(state), None);
    }
}

#[test]
fn descriptions_convert_to_and_from_text() {
    assert_eq!(SdpString::from("abc".to_string()), SdpString("abc".to_string()));
    assert_eq!(SdpString::try_from(Some("abc".to_string())), Ok(SdpString("abc".to_string())));
    assert_eq!(SdpString::try_from(None), Err(TransportError::NotText));
    assert_eq!(
        SdpString::from(Sdp { kind: SdpType::Answer, sdp: "abc".to_string() }),
        SdpString("abc".to_string())
    );
}

#[test]
fn restart_begins_anew() {
    let mut t = started();
    t.on_ice_candidate(1).unwrap();
    let first = t.get_offer();
    drive(&mut t, first, vec![text(OFFER), done()]);
    let first = t.start("stun:other:1".to_string());
    drive(&mut t, first, vec![done(), done()]);
    assert_eq!(t.phase(), Phase::Started);
    assert_eq!(t.get_peer_connection(), Some(&Connection::new("stun:other:1".to_string())));
    assert_eq!(t.get_data_channel(), Some(&DataChannel::new("bns".to_string())));
}

#[test]
fn errors_carry_their_cause() {
    assert_eq!(TransportError::NoConnection.message(), "cannot get connection");
    assert_eq!(TransportError::ConnectionMissing.message(), "Failed on getting connection");
    assert_eq!(TransportError::ConfigurationRejected.message(), "Failed to create connection");
    assert_eq!(TransportError::ChannelRejected.message(), "Failed to create data channel");
    assert_eq!(TransportError::OfferFailed.message(), "cannot get offer");
    assert_eq!(TransportError::AnswerFailed.message(), "Failed to get answer");
    assert_eq!(TransportError::NotText.message(), "cannot cover value to string");
    assert_eq!(TransportError::DescriptionRejected.message(), "Failed to set remote description");
    assert_eq!(TransportError::CandidateRejected.message(), "Failed to add ice candidate");
    assert_eq!(TransportError::UnsupportedSdpType.message(), "unsupport sdp type");
    assert_eq!(TransportError::VerificationFailed.message(), "failed on verify message sigature");
}

#[test]
fn envelope_opens_only_where_the_signature_holds() {
    let payload = TricklePayload { sdp: OFFER.to_string(), candidates: strings(&["c1", "c2"]) };
    let sealed = SignedMessage::new(payload.clone(), Verification::Valid);
    assert!(sealed.verify());
    assert_eq!(sealed.open(), Ok(payload.clone()));
    for verification in [Verification::Invalid, Verification::Failed] {
        let sealed = SignedMessage::new(payload.clone(), verification);
        assert!(!sealed.verify());
        assert_eq!(sealed.open(), Err(TransportError::VerificationFailed));
    }
}

#[test]
fn a_step_that_lost_its_connection_fails() {
    let mut t = WasmTransport::new();
    let description = SdpString(OFFER.to_string());
    assert_eq!(
        t.resume(Task::ApplyLocal { description: description.clone(), goal: Goal::Apply }, done()),
        Step::Done(Err(TransportError::ConnectionMissing))
    );
    assert_eq!(
        t.resume(Task::ApplyRemote { description, candidates: vec![] }, done()),
        Step::Done(Err(TransportError::ConnectionMissing))
    );
    assert_eq!(
        t.resume(Task::AddCandidate { candidate: "c".to_string(), rest: vec![] }, done()),
        Step::Done(Err(TransportError::ConnectionMissing))
    );
    assert_eq!(
        t.resume(Task::Offer { handshake: false }, text(OFFER)),
        Step::Done(Err(TransportError::ConnectionMissing))
    );
    assert_eq!(t, WasmTransport::new());
}

#[test]
fn tasks_name_their_calls() {
    assert_eq!(Task::Offer { handshake: true }.call(), NativeCall::CreateOffer);
    assert_eq!(Task::Answer { handshake: false }.call(), NativeCall::CreateAnswer);
    assert_eq!(
        Task::Connect { stun: STUN.to_string() }.call(),
        NativeCall::CreateConnection { stun: STUN.to_string() }
    );
    assert_eq!(
        Task::AddCandidate { candidate: "c".to_string(), rest: strings(&["d"]) }.call(),
        NativeCall::AddIceCandidate("c".to_string())
    );
}
