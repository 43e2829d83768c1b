//! The identification handshake, as a machine that the caller drives: it
//! performs each action the machine asks for and reports back what happened.

use vstd::prelude::*;
use crate::configuration::{resolve, DeviceDefinition, DeviceProtocolConfiguration};
use crate::errors::{DeviceError, HandshakeError, TransportError};
use crate::lovense::{Lovense, ProtocolModel};
use crate::wire::{command_write, identify_bytes, identify_frame, DeviceWrite, Endpoint};

verus! {

/// The index of the first `':'` in `bytes` at or after `from`, or the length of
/// `bytes` where there is none.
pub open spec fn first_colon(bytes: Seq<u8>, from: int) -> int
    decreases bytes.len() - from,
{
    if from < 0 || from >= bytes.len() {
        bytes.len() as int
    } else if bytes[from] == ':' as u8 {
        from
    } else {
        first_colon(bytes, from + 1)
    }
}

/// The identity in a device's answer: what stands before its first `':'`, the
/// whole answer where it holds none.
pub open spec fn identity_key(response: Seq<u8>) -> Seq<u8> {
    response.subrange(0, first_colon(response, 0))
}

/// The place of the first colon lies within the bytes, and no colon stands
/// before it.
pub proof fn lemma_first_colon(bytes: Seq<u8>, from: int)
    requires
        0 <= from <= bytes.len(),
    ensures
        from <= first_colon(bytes, from) <= bytes.len(),
        first_colon(bytes, from) < bytes.len() ==> bytes[first_colon(bytes, from)] == ':' as u8,
        forall|k: int| from <= k < first_colon(bytes, from) ==> bytes[k] != ':' as u8,
    decreases bytes.len() - from,
{
    if from < bytes.len() && bytes[from] != ':' as u8 {
        lemma_first_colon(bytes, from + 1);
    }
}

/// The identity is the longest colon-free prefix of the answer.
pub proof fn law_identity_key_is_first_field(response: Seq<u8>)
    ensures
        identity_key(response).is_prefix_of(response),
        !identity_key(response).contains(':' as u8),
        identity_key(response).len() == response.len() || response[identity_key(
            response,
        ).len() as int] == ':' as u8,
{
    lemma_first_colon(response, 0);
    let key = identity_key(response);
    assert forall|k: int| 0 <= k < key.len() implies key[k] != ':' as u8 by {
        assert(key[k] == response[k]);
    }
}

/// Cuts the identity out of a device's answer.
pub fn parse_identity(response: &Vec<u8>) -> (key: Vec<u8>)
    ensures
        key@ == identity_key(response@),
{
    let mut key: Vec<u8> = Vec::new();
    let mut i: usize = 0;
    while i < response.len() && response[i] != ':' as u8
        invariant
            i <= response@.len(),
            key@ == response@.subrange(0, i as int),
            first_colon(response@, 0) == first_colon(response@, i as int),
        decreases response@.len() - i,
    {
        key.push(response[i]);
        i += 1;
        assert(key@ =~= response@.subrange(0, i as int));
    }
    key
}

/// What the caller reports back after performing an action.
#[derive(Debug)]
pub enum HandshakeEvent {
    /// The subscription, write or unsubscription asked for succeeded.
    Completed,
    /// The subscription, write or unsubscription asked for failed.
    Failed(TransportError),
    /// The device sent a notification.
    Notification(Endpoint, Vec<u8>),
    /// The device was removed.
    Removed,
    /// The wait for the device ended with nothing received.
    NoResponse,
}

/// What the caller has to do next.
#[derive(Debug)]
pub enum HandshakeAction {
    /// Subscribe to the endpoint, then report `Completed` or `Failed`.
    Subscribe(Endpoint),
    /// Issue the write, then report `Completed` or `Failed`.
    Write(DeviceWrite),
    /// Wait for the device's next event and report it, or `NoResponse`.
    AwaitEvent,
    /// Unsubscribe from the endpoint, then report `Completed` or `Failed`.
    Unsubscribe(Endpoint),
    /// The handshake is over: the device is identified.
    Ready(Lovense),
    /// The handshake is over: it failed.
    Fail(DeviceError),
}

/// Where the handshake stands.
#[derive(Debug)]
pub enum HandshakeState {
    /// Waiting for the subscription to the notification endpoint.
    Subscribing,
    /// Waiting for the write of the identification request.
    Requesting,
    /// Waiting for the device's answer.
    AwaitingIdentity,
    /// Waiting for the unsubscription; holds the identity received, or the
    /// failure to report once the unsubscription is through.
    Closing(Result<Vec<u8>, DeviceError>),
    /// Over: no event is accepted any more.
    Finished,
}

/// Whether `event` is an answer to what `state` waits for.
pub open spec fn event_fits(state: HandshakeState, event: HandshakeEvent) -> bool {
    match state {
        HandshakeState::Subscribing | HandshakeState::Requesting | HandshakeState::Closing(_) => {
            event is Completed || event is Failed
        },
        HandshakeState::AwaitingIdentity => {
            event is Notification || event is Removed || event is NoResponse
        },
        HandshakeState::Finished => false,
    }
}

/// Whether `action` ends a handshake over `devices` that is closing with
/// `pending`, after the unsubscription ended as `event` says.
pub open spec fn closes_with(
    devices: Seq<DeviceDefinition>,
    pending: Result<Vec<u8>, DeviceError>,
    event: HandshakeEvent,
    action: HandshakeAction,
) -> bool {
    match pending {
        Err(earlier) => action == HandshakeAction::Fail(earlier),
        Ok(key) => match event {
            HandshakeEvent::Failed(e) => action == HandshakeAction::Fail(DeviceError::Transport(e)),
            _ => match resolve(devices, key@) {
                Some((name, attributes)) => action is Ready && action->Ready_0@
                    == ProtocolModel::fresh(name, attributes),
                None => action == HandshakeAction::Fail(
                    DeviceError::Handshake(HandshakeError::UnknownDevice),
                ),
            },
        },
    }
}

/// Whether `next` and `action` are the step that a handshake over `devices`
/// takes from `state` on `event`.
pub open spec fn is_step(
    devices: Seq<DeviceDefinition>,
    state: HandshakeState,
    event: HandshakeEvent,
    next: HandshakeState,
    action: HandshakeAction,
) -> bool {
    match (state, event) {
        (HandshakeState::Subscribing, HandshakeEvent::Completed) => {
            &&& next is Requesting
            &&& action is Write
            &&& action->Write_0@ == command_write(identify_frame())
        },
        (HandshakeState::Subscribing, HandshakeEvent::Failed(e)) => {
            &&& next is Finished
            &&& action == HandshakeAction::Fail(DeviceError::Transport(e))
        },
        (HandshakeState::Requesting, HandshakeEvent::Completed) => {
            &&& next is AwaitingIdentity
            &&& action is AwaitEvent
        },
        (HandshakeState::Requesting, HandshakeEvent::Failed(e)) => {
            &&& next == HandshakeState::Closing(Err(DeviceError::Transport(e)))
            &&& action == HandshakeAction::Unsubscribe(Endpoint::Rx)
        },
        (HandshakeState::AwaitingIdentity, HandshakeEvent::Notification(_, response)) => {
            &&& next matches HandshakeState::Closing(Ok(key))
            &&& key@ == identity_key(response@)
            &&& action == HandshakeAction::Unsubscribe(Endpoint::Rx)
        },
        (HandshakeState::AwaitingIdentity, HandshakeEvent::Removed) => {
            &&& next == HandshakeState::Closing(
                Err(DeviceError::Handshake(HandshakeError::DeviceDisconnected)),
            )
            &&& action == HandshakeAction::Unsubscribe(Endpoint::Rx)
        },
        (HandshakeState::AwaitingIdentity, HandshakeEvent::NoResponse) => {
            &&& next == HandshakeState::Closing(
                Err(DeviceError::Handshake(HandshakeError::NoResponse)),
            )
            &&& action == HandshakeAction::Unsubscribe(Endpoint::Rx)
        },
        (HandshakeState::Closing(pending), _) => {
            &&& (event is Completed || event is Failed)
            &&& next is Finished
            &&& closes_with(devices, pending, event, action)
        },
        _ => false,
    }
}

/// Starts handshakes for the devices of one configuration.
#[derive(Debug)]
pub struct LovenseProtocolCreator {
    config: DeviceProtocolConfiguration,
}

impl LovenseProtocolCreator {
    /// The configuration that identities are resolved against.
    pub closed spec fn view(&self) -> Seq<DeviceDefinition> {
        self.config@
    }

    /// A creator that resolves identities against `config`.
    pub fn new(config: DeviceProtocolConfiguration) -> (creator: LovenseProtocolCreator)
        ensures
            creator@ == config@,
    {
        LovenseProtocolCreator { config }
    }

    /// Opens a handshake: the first thing to do is to subscribe to the
    /// notification endpoint.
    pub fn begin(&self) -> (step: (HandshakeState, HandshakeAction))
        ensures
            step.0 is Subscribing,
            step.1 == HandshakeAction::Subscribe(Endpoint::Rx),
    {
        (HandshakeState::Subscribing, HandshakeAction::Subscribe(Endpoint::Rx))
    }

    /// Ends a closing handshake, once the unsubscription is through: an earlier
    /// failure is reported as it was; else a failed unsubscription; else the
    /// identity is resolved, and an unknown one fails the handshake.
    pub fn conclude(&self, pending: Result<Vec<u8>, DeviceError>, event: HandshakeEvent) -> (action:
        HandshakeAction)
        ensures
            closes_with(self@, pending, event, action),
    {
        match pending {
            Err(earlier) => HandshakeAction::Fail(earlier),
            Ok(key) => match event {
                HandshakeEvent::Failed(e) => HandshakeAction::Fail(DeviceError::Transport(e)),
                _ => match self.config.get_attributes(&key) {
                    Some((name, attributes)) => HandshakeAction::Ready(
                        Lovense::new(name, attributes),
                    ),
                    None => HandshakeAction::Fail(
                        DeviceError::Handshake(HandshakeError::UnknownDevice),
                    ),
                },
            },
        }
    }

    /// Takes one step: from where the handshake stands and what the caller
    /// reports, to where it stands next and what to do next.
    ///
    /// `None` is returned exactly where `event` answers nothing that `state`
    /// waits for.
    pub fn advance(&self, state: HandshakeState, event: HandshakeEvent) -> (step: Option<
        (HandshakeState, HandshakeAction),
    >)
        ensures
            step is Some <==> event_fits(state, event),
            step matches Some((next, action)) ==> is_step(self@, state, event, next, action),
    {
        match state {
            HandshakeState::Subscribing => match event {
                HandshakeEvent::Completed => Some(
                    (
                        HandshakeState::Requesting,
                        HandshakeAction::Write(DeviceWrite::command(identify_bytes())),
                    ),
                ),
                HandshakeEvent::Failed(e) => Some(
                    (HandshakeState::Finished, HandshakeAction::Fail(DeviceError::Transport(e))),
                ),
                _ => None,
            },
            HandshakeState::Requesting => match event {
                HandshakeEvent::Completed => Some(
                    (HandshakeState::AwaitingIdentity, HandshakeAction::AwaitEvent),
                ),
                HandshakeEvent::Failed(e) => Some(
                    (
                        HandshakeState::Closing(Err(DeviceError::Transport(e))),
                        HandshakeAction::Unsubscribe(Endpoint::Rx),
                    ),
                ),
                _ => None,
            },
            HandshakeState::AwaitingIdentity => match event {
                HandshakeEvent::Notification(_, response) => Some(
                    (
                        HandshakeState::Closing(Ok(parse_identity(&response))),
                        HandshakeAction::Unsubscribe(Endpoint::Rx),
                    ),
                ),
                HandshakeEvent::Removed => Some(
                    (
                        HandshakeState::Closing(
                            Err(DeviceError::Handshake(HandshakeError::DeviceDisconnected)),
                        ),
                        HandshakeAction::Unsubscribe(Endpoint::Rx),
                    ),
                ),
                HandshakeEvent::NoResponse => Some(
                    (
                        HandshakeState::Closing(
                            Err(DeviceError::Handshake(HandshakeError::NoResponse)),
                        ),
                        HandshakeAction::Unsubscribe(Endpoint::Rx),
                    ),
                ),
                _ => None,
            },
            HandshakeState::Closing(pending) => match event {
                HandshakeEvent::Completed | HandshakeEvent::Failed(_) => {
                    let action = self.conclude(pending, event);
                    Some((HandshakeState::Finished, action))
                },
                _ => None,
            },
            HandshakeState::Finished => None,
        }
    }
}

/// Every step answers an event that fits the state. The unsubscription is
/// asked for exactly on the step that starts closing, which is every step
/// taken once the request was written or failed to be; closing leads to the
/// end; and the end is reached exactly with a translator or a failure.
pub proof fn law_steps_follow_the_state(
    devices: Seq<DeviceDefinition>,
    state: HandshakeState,
    event: HandshakeEvent,
    next: HandshakeState,
    action: HandshakeAction,
)
    requires
        is_step(devices, state, event, next, action),
    ensures
        event_fits(state, event),
        action is Unsubscribe <==> next is Closing,
        action is Unsubscribe ==> action == HandshakeAction::Unsubscribe(Endpoint::Rx),
        next is Closing <==> (state is AwaitingIdentity || (state is Requesting && event
            is Failed)),
        state is Closing ==> next is Finished,
        next is Finished <==> (action is Ready || action is Fail),
{
}

/// A device that is removed, or stays silent, while its answer is awaited
/// never yields a translator: once the unsubscription is through, the
/// handshake fails with that reason, whatever the unsubscription came to.
pub proof fn law_no_answer_fails(
    devices: Seq<DeviceDefinition>,
    event: HandshakeEvent,
    closing: HandshakeState,
    unsubscribe: HandshakeAction,
    closed: HandshakeEvent,
    end: HandshakeState,
    outcome: HandshakeAction,
)
    requires
        event is Removed || event is NoResponse,
        is_step(devices, HandshakeState::AwaitingIdentity, event, closing, unsubscribe),
        is_step(devices, closing, closed, end, outcome),
    ensures
        outcome == HandshakeAction::Fail(
            DeviceError::Handshake(
                if event is Removed {
                    HandshakeError::DeviceDisconnected
                } else {
                    HandshakeError::NoResponse
                },
            ),
        ),
{
}

/// A device that answers is identified exactly when the configuration knows
/// the first field of its answer and the unsubscription succeeds; the
/// translator it yields starts with nothing sent.
pub proof fn law_answer_is_resolved(
    devices: Seq<DeviceDefinition>,
    endpoint: Endpoint,
    response: Vec<u8>,
    closing: HandshakeState,
    unsubscribe: HandshakeAction,
    end: HandshakeState,
    outcome: HandshakeAction,
)
    requires
        is_step(
            devices,
            HandshakeState::AwaitingIdentity,
            HandshakeEvent::Notification(endpoint, response),
            closing,
            unsubscribe,
        ),
        is_step(devices, closing, HandshakeEvent::Completed, end, outcome),
    ensures
        match resolve(devices, identity_key(response@)) {
            Some((name, attributes)) => outcome is Ready && outcome->Ready_0@
                == ProtocolModel::fresh(name, attributes),
            None => outcome == HandshakeAction::Fail(
                DeviceError::Handshake(HandshakeError::UnknownDevice),
            ),
        },
{
}

/// Whether `steps`, each an event with the state and the action it led to, are
/// consecutive steps of a handshake over `devices` that stands at `start`.
pub open spec fn is_run(
    devices: Seq<DeviceDefinition>,
    start: HandshakeState,
    steps: Seq<(HandshakeEvent, HandshakeState, HandshakeAction)>,
) -> bool
    decreases steps.len(),
{
    steps.len() == 0 || (is_step(devices, start, steps[0].0, steps[0].1, steps[0].2) && is_run(
        devices,
        steps[0].1,
        steps.skip(1),
    ))
}

/// How many of `steps` ask for an unsubscription.
pub open spec fn unsubscriptions(
    steps: Seq<(HandshakeEvent, HandshakeState, HandshakeAction)>,
) -> nat
    decreases steps.len(),
{
    if steps.len() == 0 {
        0
    } else {
        (if steps[0].2 is Unsubscribe {
            1nat
        } else {
            0nat
        }) + unsubscriptions(steps.skip(1))
    }
}

/// What a run asks for, by the state it starts from: none after the end, no
/// unsubscription while closing, exactly one once the answer is awaited.
pub proof fn lemma_run_from(
    devices: Seq<DeviceDefinition>,
    start: HandshakeState,
    steps: Seq<(HandshakeEvent, HandshakeState, HandshakeAction)>,
)
    requires
        is_run(devices, start, steps),
    ensures
        unsubscriptions(steps) <= 1,
        start is Finished ==> steps.len() == 0,
        start is Closing ==> unsubscriptions(steps) == 0 && steps.len() <= 1,
        start is AwaitingIdentity ==> steps.len() <= 2 && (steps.len() > 0 ==> unsubscriptions(
            steps,
        ) == 1),
        start is Requesting ==> steps.len() <= 3,
        start is Subscribing ==> steps.len() <= 4,
        (start is Requesting || start is Subscribing) && steps.len() > 0 && steps.last().1
            is Finished && !(start is Subscribing && steps[0].0 is Failed) ==> unsubscriptions(
            steps,
        ) == 1,
    decreases steps.len(),
{
    if steps.len() > 0 {
        let rest = steps.skip(1);
        lemma_run_from(devices, steps[0].1, rest);
        if rest.len() > 0 {
            assert(rest.last() == steps.last());
        }
    }
}

/// However a handshake runs from its beginning, it asks for at most four
/// steps and for at most one unsubscription; and a handshake that ran to its
/// end after the subscription succeeded asked for exactly one, whichever way
/// it ended.
pub proof fn law_unsubscribes_exactly_once(
    devices: Seq<DeviceDefinition>,
    steps: Seq<(HandshakeEvent, HandshakeState, HandshakeAction)>,
)
    requires
        is_run(devices, HandshakeState::Subscribing, steps),
    ensures
        steps.len() <= 4,
        unsubscriptions(steps) <= 1,
        steps.len() > 0 && steps[0].0 is Completed && steps.last().1 is Finished
            ==> unsubscriptions(steps) == 1,
{
    lemma_run_from(devices, HandshakeState::Subscribing, steps);
}

} // verus!
