//! The values that cross the stream and the hand-off.

use vstd::prelude::*;

verus! {

/// One event as the server delivers it.
#[derive(Clone, Debug, PartialEq, Eq)]
pub struct Event {
    /// The token that identifies the event.
    pub message_identifier: String,
    /// The event's content, which this crate never reads.
    pub payload: Vec<u8>,
    /// The position that the server assigned to the event.
    pub position: i64,
}

/// One inbound frame: it carries an event, or nothing but control data.
#[derive(Clone, Debug, PartialEq, Eq)]
pub struct Frame {
    /// The event, if the frame carries one.
    pub event: Option<Event>,
}

/// The signal that one event was received.
#[derive(Clone, Debug, PartialEq, Eq)]
pub struct Acknowledgment {
    /// The identifier of the event that was received.
    pub message_identifier: String,
}

impl View for Acknowledgment {
    type V = Seq<char>;

    /// An acknowledgment is its event's identifier.
    open spec fn view(&self) -> Seq<char> {
        self.message_identifier@
    }
}

/// The outbound message that grants the server permits.
#[derive(Clone, Debug, PartialEq, Eq)]
pub struct CreditRequest {
    /// Where the server starts streaming when this request opens a stream.
    pub start_position: i64,
    /// How many more events the server may deliver.
    pub granted_permits: i64,
    /// The client on whose behalf the stream runs.
    pub client_id: String,
    /// The label of the component that consumes the stream.
    pub component_name: String,
    /// The label of the processor that consumes the stream.
    pub processor_name: String,
    /// Pass-through configuration, always empty here.
    pub exclusion_list: Vec<String>,
    /// Pass-through configuration, always `false` here.
    pub force_leader_read: bool,
}

/// The text of the component label that every request carries.
pub open spec fn component_label() -> Seq<char> {
    "Dendrite"@
}

/// The text of the processor label that every request carries.
pub open spec fn processor_label() -> Seq<char> {
    "Event Processor"@
}

/// `request` grants `permits` permits on behalf of `client_id`, names
/// `start_position`, carries the two fixed labels, excludes nothing and does
/// not force a read from the leader.
pub open spec fn is_grant(
    request: CreditRequest,
    client_id: Seq<char>,
    start_position: int,
    permits: int,
) -> bool {
    &&& request.start_position == start_position
    &&& request.granted_permits == permits
    &&& request.client_id@ == client_id
    &&& request.component_name@ == component_label()
    &&& request.processor_name@ == processor_label()
    &&& request.exclusion_list@.len() == 0
    &&& !request.force_leader_read
}

impl CreditRequest {
    /// The request that grants `permits` permits on behalf of `client_id`.
    pub fn grant(client_id: &String, start_position: i64, permits: i64) -> (request: CreditRequest)
        ensures
            is_grant(request, client_id@, start_position as int, permits as int),
    {
        CreditRequest {
            start_position,
            granted_permits: permits,
            client_id: client_id.clone(),
            component_name: "Dendrite".to_owned(),
            processor_name: "Event Processor".to_owned(),
            exclusion_list: Vec::new(),
            force_leader_read: false,
        }
    }
}

impl Frame {
    /// The acknowledgment that this frame calls for: one that names the
    /// frame's event, and none for a frame without an event.
    pub fn acknowledgment(&self) -> (ack: Option<Acknowledgment>)
        ensures
            ack is Some <==> self.event is Some,
            ack is Some ==> ack->Some_0@ == self.event->Some_0.message_identifier@,
    {
        match &self.event {
            Some(event) => Some(Acknowledgment { message_identifier: event.message_identifier.clone() }),
            None => None,
        }
    }
}

} // verus!
