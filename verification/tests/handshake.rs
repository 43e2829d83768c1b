use device_protocol::configuration::{
    same_bytes, DeviceAttributes, DeviceDefinition, DeviceProtocolConfiguration,
};
use device_protocol::errors::{DeviceError, HandshakeError, TransportError};
use device_protocol::handshake::{
    parse_identity, HandshakeAction, HandshakeEvent, HandshakeState, LovenseProtocolCreator,
};
use device_protocol::lovense::{AbstractCommand, Lovense};
use device_protocol::wire::Endpoint;

fn definition(identifier: &str, name: &str, motor_count: usize) -> DeviceDefinition {
    DeviceDefinition {
        identifier: identifier.as_bytes().to_vec(),
        name: name.to_string(),
        attributes: DeviceAttributes { motor_count, step_count: 20 },
    }
}

fn creator() -> LovenseProtocolCreator {
    LovenseProtocolCreator::new(DeviceProtocolConfiguration::new(vec![
        definition("Other", "Other Device", 1),
        definition("ExampleDevice", "Example Device", 2),
        definition("ExampleDevice", "Shadowed", 5),
    ]))
}

/// A transport that answers the identification request with `answer`, and
/// counts what it is asked to do.
struct Simulated {
    answer: HandshakeEvent,
    fail_subscribe: bool,
    fail_write: bool,
    fail_unsubscribe: bool,
    subscribed: Vec<Endpoint>,
    unsubscribed: Vec<Endpoint>,
    written: Vec<(Endpoint, Vec<u8>, bool)>,
}

fn simulated(answer: HandshakeEvent) -> Simulated {
    Simulated {
        answer,
        fail_subscribe: false,
        fail_write: false,
        fail_unsubscribe: false,
        subscribed: vec![],
        unsubscribed: vec![],
        written: vec![],
    }
}

fn outcome(fail: bool, what: &str) -> HandshakeEvent {
    if fail {
        HandshakeEvent::Failed(TransportError { reason: what.to_string() })
    } else {
        HandshakeEvent::Completed
    }
}

fn run(creator: &LovenseProtocolCreator, transport: &mut Simulated) -> Result<Lovense, DeviceError> {
    let (mut state, mut action) = creator.begin();
    for _ in 0..10 {
        let event = match action {
            HandshakeAction::Subscribe(endpoint) => {
                transport.subscribed.push(endpoint);
                outcome(transport.fail_subscribe, "subscribe")
            }
            HandshakeAction::Write(write) => {
                transport.written.push((write.endpoint, write.data, write.expect_response));
                outcome(transport.fail_write, "write")
            }
            HandshakeAction::AwaitEvent => {
                std::mem::replace(&mut transport.answer, HandshakeEvent::NoResponse)
            }
            HandshakeAction::Unsubscribe(endpoint) => {
                transport.unsubscribed.push(endpoint);
                outcome(transport.fail_unsubscribe, "unsubscribe")
            }
            HandshakeAction::Ready(protocol) => return Ok(protocol),
            HandshakeAction::Fail(error) => return Err(error),
        };
        let step = creator.advance(state, event).unwrap();
        state = step.0;
        action = step.1;
    }
    panic!("the handshake did not end");
}

#[test]
fn parse_identity_takes_the_first_field() {
    assert_eq!(parse_identity(&b"ExampleDevice:abc123".to_vec()), b"ExampleDevice".to_vec());
    assert_eq!(parse_identity(&b"Z:11:0082059AD3BD;".to_vec()), b"Z".to_vec());
    assert_eq!(parse_identity(&b"NoColon".to_vec()), b"NoColon".to_vec());
    assert_eq!(parse_identity(&b":leading".to_vec()), b"".to_vec());
    assert_eq!(parse_identity(&b"trailing:".to_vec()), b"trailing".to_vec());
    assert_eq!(parse_identity(&b"".to_vec()), b"".to_vec());
}

#[test]
fn same_bytes_compares_contents() {
    assert!(same_bytes(&b"".to_vec(), &b"".to_vec()));
    assert!(same_bytes(&b"abc".to_vec(), &b"abc".to_vec()));
    assert!(!same_bytes(&b"abc".to_vec(), &b"abd".to_vec()));
    assert!(!same_bytes(&b"abc".to_vec(), &b"ab".to_vec()));
    assert!(!same_bytes(&b"ab".to_vec(), &b"abc".to_vec()));
}

#[test]
fn configuration_resolves_the_first_definition_of_a_key() {
    let config = DeviceProtocolConfiguration::new(vec![
        definition("A", "First", 1),
        definition("B", "Second", 2),
        definition("A", "Third", 3),
    ]);
    assert_eq!(
        config.get_attributes(&b"A".to_vec()),
        Some(("First".to_string(), DeviceAttributes { motor_count: 1, step_count: 20 }))
    );
    assert_eq!(
        config.get_attributes(&b"B".to_vec()),
        Some(("Second".to_string(), DeviceAttributes { motor_count: 2, step_count: 20 }))
    );
    assert_eq!(config.get_attributes(&b"C".to_vec()), None);
    assert_eq!(config.get_attributes(&b"".to_vec()), None);
}

#[test]
fn handshake_begins_with_the_subscription() {
    let (state, action) = creator().begin();
    assert!(matches!(state, HandshakeState::Subscribing));
    assert!(matches!(action, HandshakeAction::Subscribe(Endpoint::Rx)));
}

#[test]
fn handshake_identifies_an_answering_device() {
    let creator = creator();
    let mut transport = simulated(HandshakeEvent::Notification(
        Endpoint::Rx,
        b"ExampleDevice:abc123".to_vec(),
    ));
    let mut protocol = run(&creator, &mut transport).unwrap();
    assert_eq!(protocol.name(), "Example Device");
    assert_eq!(protocol.attributes(), DeviceAttributes { motor_count: 2, step_count: 20 });
    assert_eq!(transport.subscribed, vec![Endpoint::Rx]);
    assert_eq!(transport.written, vec![(Endpoint::Tx, b"DeviceType;".to_vec(), false)]);
    assert_eq!(transport.unsubscribed, vec![Endpoint::Rx]);
    let writes = protocol.handle(&AbstractCommand::Vibrate(vec![0, 0])).unwrap();
    assert_eq!(writes.len(), 1);
    assert_eq!(writes[0].data, b"Vibrate:0;".to_vec());
}

#[test]
fn handshake_holds_the_parsed_key_while_closing() {
    let creator = creator();
    let step = creator.advance(
        HandshakeState::AwaitingIdentity,
        HandshakeEvent::Notification(Endpoint::Rx, b"ExampleDevice:abc123".to_vec()),
    );
    match step {
        Some((HandshakeState::Closing(Ok(key)), HandshakeAction::Unsubscribe(Endpoint::Rx))) => {
            assert_eq!(key, b"ExampleDevice".to_vec())
        }
        other => panic!("unexpected step: {:?}", other),
    }
}

#[test]
fn handshake_fails_when_the_device_is_removed() {
    let creator = creator();
    let mut transport = simulated(HandshakeEvent::Removed);
    let result = run(&creator, &mut transport);
    assert_eq!(
        result.err(),
        Some(DeviceError::Handshake(HandshakeError::DeviceDisconnected))
    );
    assert_eq!(transport.unsubscribed, vec![Endpoint::Rx]);
}

#[test]
fn handshake_fails_when_nothing_is_received() {
    let creator = creator();
    let mut transport = simulated(HandshakeEvent::NoResponse);
    let result = run(&creator, &mut transport);
    assert_eq!(result.err(), Some(DeviceError::Handshake(HandshakeError::NoResponse)));
    assert_eq!(transport.unsubscribed, vec![Endpoint::Rx]);
}

#[test]
fn handshake_fails_on_an_unknown_identity() {
    let creator = creator();
    let mut transport =
        simulated(HandshakeEvent::Notification(Endpoint::Rx, b"Stranger:1:2".to_vec()));
    let result = run(&creator, &mut transport);
    assert_eq!(result.err(), Some(DeviceError::Handshake(HandshakeError::UnknownDevice)));
    assert_eq!(transport.unsubscribed, vec![Endpoint::Rx]);
}

#[test]
fn handshake_fails_on_an_answer_that_is_no_text() {
    let creator = creator();
    let mut transport =
        simulated(HandshakeEvent::Notification(Endpoint::Rx, vec![0xff, 0xfe, b':', b'1']));
    let result = run(&creator, &mut transport);
    assert_eq!(result.err(), Some(DeviceError::Handshake(HandshakeError::UnknownDevice)));
}

#[test]
fn handshake_surfaces_a_failed_subscription_without_unsubscribing() {
    let creator = creator();
    let mut transport = simulated(HandshakeEvent::Removed);
    transport.fail_subscribe = true;
    let result = run(&creator, &mut transport);
    assert_eq!(
        result.err(),
        Some(DeviceError::Transport(TransportError { reason: "subscribe".to_string() }))
    );
    assert!(transport.written.is_empty());
    assert!(transport.unsubscribed.is_empty());
}

#[test]
fn handshake_surfaces_a_failed_write_after_unsubscribing() {
    let creator = creator();
    let mut transport = simulated(HandshakeEvent::Removed);
    transport.fail_write = true;
    let result = run(&creator, &mut transport);
    assert_eq!(
        result.err(),
        Some(DeviceError::Transport(TransportError { reason: "write".to_string() }))
    );
    assert_eq!(transport.unsubscribed, vec![Endpoint::Rx]);
}

#[test]
fn handshake_surfaces_a_failed_unsubscription_of_an_identified_device() {
    let creator = creator();
    let mut transport =
        simulated(HandshakeEvent::Notification(Endpoint::Rx, b"ExampleDevice:abc123".to_vec()));
    transport.fail_unsubscribe = true;
    let result = run(&creator, &mut transport);
    assert_eq!(
        result.err(),
        Some(DeviceError::Transport(TransportError { reason: "unsubscribe".to_string() }))
    );
    assert_eq!(transport.unsubscribed, vec![Endpoint::Rx]);
}

#[test]
fn handshake_keeps_the_earlier_failure_when_unsubscription_fails_too() {
    let creator = creator();
    let mut transport = simulated(HandshakeEvent::Removed);
    transport.fail_unsubscribe = true;
    let result = run(&creator, &mut transport);
    assert_eq!(
        result.err(),
        Some(DeviceError::Handshake(HandshakeError::DeviceDisconnected))
    );
}

#[test]
fn handshake_refuses_events_that_answer_nothing() {
    let creator = creator();
    assert!(creator.advance(HandshakeState::Subscribing, HandshakeEvent::Removed).is_none());
    assert!(creator.advance(HandshakeState::Subscribing, HandshakeEvent::NoResponse).is_none());
    assert!(creator
        .advance(HandshakeState::Requesting, HandshakeEvent::Notification(Endpoint::Rx, vec![]))
        .is_none());
    assert!(creator.advance(HandshakeState::AwaitingIdentity, HandshakeEvent::Completed).is_none());
    assert!(creator
        .advance(
            HandshakeState::AwaitingIdentity,
            HandshakeEvent::Failed(TransportError { reason: "x".to_string() })
        )
        .is_none());
    assert!(creator
        .advance(HandshakeState::Closing(Ok(b"ExampleDevice".to_vec())), HandshakeEvent::Removed)
        .is_none());
    assert!(creator.advance(HandshakeState::Finished, HandshakeEvent::Completed).is_none());
    assert!(creator.advance(HandshakeState::Finished, HandshakeEvent::Removed).is_none());
}

#[test]
fn conclude_resolves_the_key_it_is_given() {
    let creator = creator();
    let ready = creator.conclude(Ok(b"Other".to_vec()), HandshakeEvent::Completed);
    match ready {
        HandshakeAction::Ready(protocol) => {
            assert_eq!(protocol.name(), "Other Device");
            assert_eq!(protocol.attributes().motor_count, 1);
        }
        other => panic!("unexpected action: {:?}", other),
    }
    let unknown = creator.conclude(Ok(b"other".to_vec()), HandshakeEvent::Completed);
    assert!(matches!(
        unknown,
        HandshakeAction::Fail(DeviceError::Handshake(HandshakeError::UnknownDevice))
    ));
}
