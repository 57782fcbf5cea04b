//! The inbound half of the stream: what to do with each read.

use vstd::prelude::*;
use crate::error::SessionError;
use crate::error::TransportFault;
use crate::message::Acknowledgment;
use crate::message::Frame;

verus! {

/// What one read from the inbound stream brought.
#[derive(Clone, Debug, PartialEq, Eq)]
pub enum ReadOutcome {
    /// A frame arrived.
    Message(Frame),
    /// The peer closed the stream.
    EndOfStream,
    /// The read failed.
    Failure,
}

/// What the caller does after a read.
#[derive(Clone, Debug, PartialEq, Eq)]
pub enum ConsumerAction {
    /// Hand this acknowledgment to the queue, waiting for room if need be,
    /// then read on.
    Submit(Acknowledgment),
    /// Nothing to hand over: read on.
    Skip,
    /// Stop, close the sending side of the queue, and report this error.
    Terminate(SessionError),
}

impl ReadOutcome {
    /// Whether the read brought a frame with an event in it.
    pub open spec fn carries_event(&self) -> bool {
        self matches ReadOutcome::Message(frame) && frame.event is Some
    }

    /// The identifier of the event that the read brought.
    pub open spec fn event_id(&self) -> Seq<char>
        recommends
            self.carries_event(),
    {
        self->Message_0.event->Some_0.message_identifier@
    }

    /// Whether the read brought a frame with an event in it.
    pub fn has_event(&self) -> (has: bool)
        ensures
            has == self.carries_event(),
    {
        match self {
            ReadOutcome::Message(frame) => frame.event.is_some(),
            _ => false,
        }
    }
}

/// The action that a consumer which has not failed takes on a read: an
/// acknowledgment for a frame with an event, nothing for a frame without
/// one, and the end of the session for a closed or failed stream.
pub open spec fn reaction(outcome: ReadOutcome, action: ConsumerAction) -> bool {
    match outcome {
        ReadOutcome::Message(frame) => if frame.event is Some {
            action matches ConsumerAction::Submit(ack) && ack@
                == frame.event->Some_0.message_identifier@
        } else {
            action == ConsumerAction::Skip
        },
        ReadOutcome::EndOfStream => action == ConsumerAction::Terminate(
            SessionError::Transport(TransportFault::PeerClosed),
        ),
        ReadOutcome::Failure => action == ConsumerAction::Terminate(
            SessionError::Transport(TransportFault::ReadFailed),
        ),
    }
}

/// Decides, read by read, what the inbound half of the stream does.
pub struct StreamConsumer {
    client_id: String,
    failure: Option<SessionError>,
}

impl StreamConsumer {
    /// The client on whose behalf the stream runs.
    pub closed spec fn client(&self) -> Seq<char> {
        self.client_id@
    }

    /// The error that ended the session, if it has ended.
    pub closed spec fn failure(&self) -> Option<SessionError> {
        self.failure
    }

    /// A consumer for `client_id` that has read nothing yet.
    pub fn new(client_id: String) -> (made: StreamConsumer)
        ensures
            made.client() == client_id@,
            made.failure() is None,
    {
        StreamConsumer { client_id, failure: None }
    }

    /// The client on whose behalf the stream runs.
    pub fn client_id(&self) -> (id: &String)
        ensures
            id@ == self.client(),
    {
        &self.client_id
    }

    /// The error that ended the session, if it has ended.
    pub fn error(&self) -> (failure: Option<SessionError>)
        ensures
            failure == self.failure(),
    {
        self.failure
    }

    /// Decides what follows a read. A consumer that has failed answers with
    /// the error it failed with, whatever was read. Otherwise a frame with an
    /// event calls for its acknowledgment, a frame without one for nothing,
    /// and a closed or failed stream ends the session for good.
    pub fn on_read(&mut self, outcome: ReadOutcome) -> (action: ConsumerAction)
        ensures
            final(self).client() == old(self).client(),
            old(self).failure() is Some ==> action == ConsumerAction::Terminate(
                old(self).failure()->Some_0,
            ) && final(self).failure() == old(self).failure(),
            old(self).failure() is None ==> reaction(outcome, action),
            old(self).failure() is None && !(action is Terminate) ==> final(self).failure() is None,
            old(self).failure() is None && action is Terminate ==> final(self).failure() == Some(
                action->Terminate_0,
            ),
    {
        if let Some(error) = self.failure {
            return ConsumerAction::Terminate(error);
        }
        match outcome {
            ReadOutcome::Message(frame) => match frame.acknowledgment() {
                Some(ack) => ConsumerAction::Submit(ack),
                None => ConsumerAction::Skip,
            },
            ReadOutcome::EndOfStream => {
                let error = SessionError::Transport(TransportFault::PeerClosed);
                self.failure = Some(error);
                ConsumerAction::Terminate(error)
            },
            ReadOutcome::Failure => {
                let error = SessionError::Transport(TransportFault::ReadFailed);
                self.failure = Some(error);
                ConsumerAction::Terminate(error)
            },
        }
    }

    /// Records that the stream could not be opened. A consumer that has
    /// not failed fails with `Transport(OpenFailed)`; one that has keeps its
    /// error. The result is the error that the session ends with.
    pub fn on_open_failed(&mut self) -> (error: SessionError)
        ensures
            final(self).client() == old(self).client(),
            final(self).failure() == Some(error),
            old(self).failure() is Some ==> error == old(self).failure()->Some_0,
            old(self).failure() is None ==> error == SessionError::Transport(
                TransportFault::OpenFailed,
            ),
    {
        match self.failure {
            Some(error) => error,
            None => {
                let error = SessionError::Transport(TransportFault::OpenFailed);
                self.failure = Some(error);
                error
            },
        }
    }

    /// Records that the queue turned an acknowledgment down because its
    /// other side is gone. A consumer that has not failed fails with
    /// `ChannelClosed`; one that has keeps its error. The result is the
    /// error that the session ends with.
    pub fn on_submit_rejected(&mut self) -> (error: SessionError)
        ensures
            final(self).client() == old(self).client(),
            final(self).failure() == Some(error),
            old(self).failure() is Some ==> error == old(self).failure()->Some_0,
            old(self).failure() is None ==> error == SessionError::ChannelClosed,
    {
        match self.failure {
            Some(error) => error,
            None => {
                self.failure = Some(SessionError::ChannelClosed);
                SessionError::ChannelClosed
            },
        }
    }
}

} // verus!
