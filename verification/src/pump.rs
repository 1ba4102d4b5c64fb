//! The ingestion pump: the sole writer. It reads the upstream stream one
//! payload at a time, parses each payload as a structured document, reads
//! the routing field, resolves it in the registry, and publishes the
//! serialized document — as a data frame — to the matching topic.
//! Malformed or unroutable payloads are dropped and change nothing; an
//! upstream fault only makes the pump sleep briefly and reconnect.

use vstd::prelude::*;

use crate::envelope::canonical_text;
use crate::envelope::doc_route;
use crate::envelope::doc_text;
use crate::envelope::extract_route;
use crate::envelope::json_document;
use crate::frame::data_frame;
use crate::frame::data_frame_view;
use crate::registry::Registry;

verus! {

/// What one pump step did with one upstream payload.
pub enum PumpOutcome {
    /// The payload was routed and published to the topic at this index.
    Published(usize),
    /// The payload was not one well-formed document; dropped.
    Malformed,
    /// The document carries no textual routing field; dropped.
    NoRouting,
    /// The routing key is not in the registry; dropped.
    UnknownKey,
}

/// Every topic of the registry is still open and can take one more frame.
pub open spec fn can_publish_everywhere(m: crate::registry::RegistryModel) -> bool {
    forall|i: int|
        0 <= i < m.topics.len() ==> !(#[trigger] m.topics[i]).closed && m.topics[i].total()
            < u64::MAX
}

impl Registry {
    /// Routes one already-parsed envelope: `key` is the routing key read
    /// from it, `body` its serialized text. A known key has the data frame
    /// carrying `body` published to exactly its topic; an unknown key
    /// changes nothing and is reported as such.
    pub fn route_envelope(&mut self, key: &String, body: &String) -> (r: PumpOutcome)
        requires
            old(self).wf(),
            can_publish_everywhere(old(self)@),
        ensures
            final(self).wf(),
            final(self)@.keys == old(self)@.keys,
            final(self)@.capacity == old(self)@.capacity,
            r is Published <==> old(self)@.has_key(key@),
            r is Published || r is UnknownKey,
            r is UnknownKey ==> final(self)@.topics == old(self)@.topics,
            r matches PumpOutcome::Published(i) ==> i < old(self)@.keys.len()
                && i < old(self)@.topics.len()
                && old(self)@.keys[i as int] == key@ && final(self)@.topics
                == old(self)@.topics.update(
                i as int,
                old(self)@.topics[i as int].publish(data_frame_view(body@)),
            ),
    {
        match self.resolve(key) {
            Some(i) => {
                let frame = data_frame(body.as_str());
                self.publish_to(i, frame);
                PumpOutcome::Published(i)
            },
            None => PumpOutcome::UnknownKey,
        }
    }

    /// One pump step on one upstream payload: parse it as a structured
    /// document, read the field named `routing_field`, resolve that key,
    /// and publish the canonically serialized document to the matching
    /// topic. A payload that is not one well-formed document, carries no
    /// textual routing field, or routes to no known key is dropped:
    /// nothing is published anywhere and no fault is raised.
    pub fn pump_step(&mut self, payload: &str, routing_field: &str) -> (r: PumpOutcome)
        requires
            old(self).wf(),
            can_publish_everywhere(old(self)@),
        ensures
            final(self).wf(),
            final(self)@.keys == old(self)@.keys,
            final(self)@.capacity == old(self)@.capacity,
            !json_document(payload@) ==> r is Malformed,
            json_document(payload@) && doc_route(payload@, routing_field@) is None ==> r
                is NoRouting,
            json_document(payload@) ==> (doc_route(payload@, routing_field@) matches Some(k)
                && !old(self)@.has_key(k) ==> r is UnknownKey),
            json_document(payload@) ==> (doc_route(payload@, routing_field@) matches Some(k)
                && old(self)@.has_key(k) ==> r is Published),
            !(r is Published) ==> final(self)@.topics == old(self)@.topics,
            r matches PumpOutcome::Published(i) ==> i < old(self)@.keys.len()
                && i < old(self)@.topics.len()
                && json_document(payload@)
                && doc_route(payload@, routing_field@) == Some(old(self)@.keys[i as int])
                && final(self)@.topics == old(self)@.topics.update(
                i as int,
                old(self)@.topics[i as int].publish(data_frame_view(doc_text(payload@))),
            ),
    {
        let body = match canonical_text(payload) {
            Some(t) => t,
            None => {
                return PumpOutcome::Malformed;
            },
        };
        let key = match extract_route(payload, routing_field) {
            Some(k) => k,
            None => {
                return PumpOutcome::NoRouting;
            },
        };
        self.route_envelope(&key, &body)
    }
}

/// The pump's connection state: it is connecting to the upstream stream,
/// consuming it, or waiting briefly before reconnecting. There is no
/// terminal failure state: the pump runs until the process stops.
pub enum PumpState {
    Connecting,
    Consuming,
    Reconnecting,
}

/// What the pump observes between two decisions.
pub enum PumpEvent {
    /// The upstream subscription was established.
    Connected,
    /// The upstream subscription could not be established.
    ConnectFailed,
    /// One payload arrived from upstream.
    PayloadArrived,
    /// Reading from upstream failed.
    ReadFailed,
}

/// What the pump's driver is to do next.
pub enum PumpAction {
    /// Try to subscribe to the upstream stream.
    Connect,
    /// Wait for the next upstream payload.
    AwaitPayload,
    /// Hand the payload that arrived to `pump_step`, then wait again.
    ProcessPayload,
    /// Sleep for the fixed retry delay, then report back.
    SleepThenRetry,
}

/// The pump's transition function: from every state, a connection gained
/// means consuming, a fault means a bounded sleep and a fresh connection
/// attempt, and a payload is processed in place. Every state and event
/// has a next step: the pump never terminates on a fault.
pub open spec fn spec_pump_transition(state: PumpState, event: PumpEvent) -> (PumpState,
    PumpAction) {
    match state {
        PumpState::Connecting => match event {
            PumpEvent::Connected => (PumpState::Consuming, PumpAction::AwaitPayload),
            PumpEvent::ConnectFailed => (PumpState::Reconnecting, PumpAction::SleepThenRetry),
            PumpEvent::PayloadArrived => (PumpState::Connecting, PumpAction::Connect),
            PumpEvent::ReadFailed => (PumpState::Reconnecting, PumpAction::SleepThenRetry),
        },
        PumpState::Consuming => match event {
            PumpEvent::Connected => (PumpState::Consuming, PumpAction::AwaitPayload),
            PumpEvent::ConnectFailed => (PumpState::Reconnecting, PumpAction::SleepThenRetry),
            PumpEvent::PayloadArrived => (PumpState::Consuming, PumpAction::ProcessPayload),
            PumpEvent::ReadFailed => (PumpState::Reconnecting, PumpAction::SleepThenRetry),
        },
        PumpState::Reconnecting => (PumpState::Connecting, PumpAction::Connect),
    }
}

/// Decides the pump's next state and action, exactly as
/// `spec_pump_transition` says. The driver performs the action (connect,
/// wait, sleep) and reports the resulting event back.
pub fn pump_transition(state: PumpState, event: PumpEvent) -> (r: (PumpState, PumpAction))
    ensures
        r == spec_pump_transition(state, event),
{
    match state {
        PumpState::Connecting => match event {
            PumpEvent::Connected => (PumpState::Consuming, PumpAction::AwaitPayload),
            PumpEvent::ConnectFailed => (PumpState::Reconnecting, PumpAction::SleepThenRetry),
            PumpEvent::PayloadArrived => (PumpState::Connecting, PumpAction::Connect),
            PumpEvent::ReadFailed => (PumpState::Reconnecting, PumpAction::SleepThenRetry),
        },
        PumpState::Consuming => match event {
            PumpEvent::Connected => (PumpState::Consuming, PumpAction::AwaitPayload),
            PumpEvent::ConnectFailed => (PumpState::Reconnecting, PumpAction::SleepThenRetry),
            PumpEvent::PayloadArrived => (PumpState::Consuming, PumpAction::ProcessPayload),
            PumpEvent::ReadFailed => (PumpState::Reconnecting, PumpAction::SleepThenRetry),
        },
        PumpState::Reconnecting => (PumpState::Connecting, PumpAction::Connect),
    }
}

} // verus!
