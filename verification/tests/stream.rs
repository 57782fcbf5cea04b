use credit_flow::consumer::ConsumerAction;
use credit_flow::consumer::ReadOutcome;
use credit_flow::error::SessionError;
use credit_flow::consumer::StreamConsumer;
use credit_flow::error::TransportFault;
use credit_flow::coordinator::Phase;
use credit_flow::error::ConfigError;
use credit_flow::handoff::Delivery;
use credit_flow::handoff::HandoffQueue;
use credit_flow::handoff::Submission;
use credit_flow::message::Acknowledgment;
use credit_flow::message::Event;
use credit_flow::message::Frame;
use credit_flow::session::Drain;
use credit_flow::session::Reception;
use credit_flow::session::Session;

fn tagged(id: &str) -> Acknowledgment {
    Acknowledgment { message_identifier: id.to_string() }
}

fn event_read(id: &str) -> ReadOutcome {
    ReadOutcome::Message(Frame {
        event: Some(Event { message_identifier: id.to_string(), payload: vec![0xAB], position: 1 }),
    })
}

fn control_read() -> ReadOutcome {
    ReadOutcome::Message(Frame { event: None })
}

fn started(batch: i64, capacity: usize) -> Session {
    let (session, opener) = Session::start("client".to_string(), 0, batch, capacity).unwrap();
    assert_eq!(opener.granted_permits, 2 * batch);
    session
}

#[test]
fn queue_refuses_zero_capacity() {
    assert!(matches!(HandoffQueue::new(0), Err(ConfigError::ZeroCapacity)));
    assert!(HandoffQueue::new(1).is_ok());
}

#[test]
fn queue_delivers_in_submission_order() {
    let mut queue = HandoffQueue::new(10).unwrap();
    for id in ["a", "b", "c", "d"] {
        assert_eq!(queue.try_submit(tagged(id)), Submission::Accepted);
    }
    assert_eq!(queue.len(), 4);
    for id in ["a", "b", "c", "d"] {
        assert_eq!(queue.take(), Delivery::Item(tagged(id)));
    }
    assert_eq!(queue.take(), Delivery::Empty);
    assert_eq!(queue.len(), 0);
}

#[test]
fn queue_hands_back_what_it_cannot_hold() {
    let mut queue = HandoffQueue::new(2).unwrap();
    assert_eq!(queue.capacity(), 2);
    assert_eq!(queue.try_submit(tagged("a")), Submission::Accepted);
    assert!(!queue.is_full());
    assert_eq!(queue.try_submit(tagged("b")), Submission::Accepted);
    assert!(queue.is_full());
    assert_eq!(queue.try_submit(tagged("c")), Submission::Full(tagged("c")));
    assert_eq!(queue.len(), 2);
    assert_eq!(queue.take(), Delivery::Item(tagged("a")));
    assert_eq!(queue.try_submit(tagged("c")), Submission::Accepted);
    assert_eq!(queue.take(), Delivery::Item(tagged("b")));
    assert_eq!(queue.take(), Delivery::Item(tagged("c")));
}

#[test]
fn queue_drains_after_sender_closes() {
    let mut queue = HandoffQueue::new(3).unwrap();
    assert_eq!(queue.try_submit(tagged("a")), Submission::Accepted);
    assert!(queue.is_connected());
    queue.close_sender();
    assert!(!queue.is_connected());
    assert_eq!(queue.try_submit(tagged("b")), Submission::Disconnected(tagged("b")));
    assert_eq!(queue.take(), Delivery::Item(tagged("a")));
    assert_eq!(queue.take(), Delivery::Closed);
    assert_eq!(queue.take(), Delivery::Closed);
}

#[test]
fn queue_rejects_submission_when_receiver_is_gone() {
    let mut queue = HandoffQueue::new(3).unwrap();
    queue.close_receiver();
    assert_eq!(queue.try_submit(tagged("a")), Submission::Disconnected(tagged("a")));
    assert_eq!(queue.len(), 0);
}

#[test]
fn consumer_acknowledges_events_and_skips_control_frames() {
    let mut consumer = StreamConsumer::new("viewer".to_string());
    assert_eq!(consumer.client_id(), "viewer");
    assert_eq!(consumer.on_read(event_read("m-1")), ConsumerAction::Submit(tagged("m-1")));
    assert_eq!(consumer.on_read(control_read()), ConsumerAction::Skip);
    assert_eq!(consumer.on_read(event_read("m-2")), ConsumerAction::Submit(tagged("m-2")));
    assert_eq!(consumer.error(), None);
}

#[test]
fn consumer_fails_for_good_on_read_failure() {
    let mut consumer = StreamConsumer::new("viewer".to_string());
    let error = SessionError::Transport(TransportFault::ReadFailed);
    assert_eq!(consumer.on_read(ReadOutcome::Failure), ConsumerAction::Terminate(error));
    assert_eq!(consumer.error(), Some(error));
    assert_eq!(consumer.on_read(event_read("late")), ConsumerAction::Terminate(error));
    assert_eq!(consumer.on_read(ReadOutcome::EndOfStream), ConsumerAction::Terminate(error));
    assert_eq!(consumer.on_submit_rejected(), error);
}

#[test]
fn consumer_fails_when_peer_closes() {
    let mut consumer = StreamConsumer::new("viewer".to_string());
    let error = SessionError::Transport(TransportFault::PeerClosed);
    assert_eq!(consumer.on_read(ReadOutcome::EndOfStream), ConsumerAction::Terminate(error));
    assert_eq!(consumer.error(), Some(error));
}

#[test]
fn consumer_fails_with_channel_closed_on_rejected_submission() {
    let mut consumer = StreamConsumer::new("viewer".to_string());
    assert_eq!(consumer.on_submit_rejected(), SessionError::ChannelClosed);
    assert_eq!(consumer.error(), Some(SessionError::ChannelClosed));
    assert_eq!(
        consumer.on_read(event_read("late")),
        ConsumerAction::Terminate(SessionError::ChannelClosed)
    );
}

#[test]
fn read_outcome_tells_events_from_the_rest() {
    assert!(event_read("x").has_event());
    assert!(!control_read().has_event());
    assert!(!ReadOutcome::EndOfStream.has_event());
    assert!(!ReadOutcome::Failure.has_event());
}

#[test]
fn session_refuses_bad_configuration() {
    assert!(matches!(
        Session::start("c".to_string(), 0, 0, 10),
        Err(ConfigError::InvalidBatchSize)
    ));
    assert!(matches!(
        Session::start("c".to_string(), -5, 3, 10),
        Err(ConfigError::NegativeStartPosition)
    ));
    assert!(matches!(Session::start("c".to_string(), 0, 3, 0), Err(ConfigError::ZeroCapacity)));
    assert!(matches!(
        Session::start("c".to_string(), -5, 0, 0),
        Err(ConfigError::InvalidBatchSize)
    ));
}

#[test]
fn session_opens_with_double_batch() {
    let (session, opener) = Session::start("viewer".to_string(), 12, 3, 10).unwrap();
    assert_eq!(opener.granted_permits, 6);
    assert_eq!(opener.start_position, 12);
    assert_eq!(opener.client_id, "viewer");
    assert_eq!(session.outstanding_permits(), 6);
    assert_eq!(session.batch_size(), 3);
    assert_eq!(session.queue_capacity(), 10);
    assert_eq!(session.backlog(), 0);
    assert_eq!(session.current_phase(), Phase::Streaming);
    assert_eq!(session.error(), None);
}

#[test]
fn scenario_batch_three_emits_six_three_three() {
    let (mut session, opener) = Session::start("client".to_string(), 0, 3, 10).unwrap();
    let mut grants = vec![opener.granted_permits];
    assert_eq!(session.outstanding_permits(), 6);
    for id in ["1", "2", "3"] {
        assert_eq!(session.receive(event_read(id)), Reception::Forwarded);
    }
    assert_eq!(session.drain(), Drain::Consumed(tagged("1"), None));
    assert_eq!(session.drain(), Drain::Consumed(tagged("2"), None));
    match session.drain() {
        Drain::Consumed(ack, Some(request)) => {
            assert_eq!(ack, tagged("3"));
            grants.push(request.granted_permits);
        },
        other => panic!("expected a refill, got {:?}", other),
    }
    assert_eq!(session.outstanding_permits(), 6);
    for id in ["4", "5", "6"] {
        assert_eq!(session.receive(event_read(id)), Reception::Forwarded);
    }
    for request in session.drain_all() {
        grants.push(request.granted_permits);
    }
    assert_eq!(session.outstanding_permits(), 6);
    assert_eq!(grants, vec![6, 3, 3]);
}

#[test]
fn coordinator_observes_events_in_arrival_order() {
    let mut session = started(4, 3);
    let tags: Vec<String> = (0..25).map(|n| format!("tag-{}", n)).collect();
    let mut observed: Vec<String> = Vec::new();
    for tag in &tags {
        let mut read = event_read(tag);
        loop {
            match session.receive(read) {
                Reception::Forwarded => break,
                Reception::Suspended(back) => {
                    read = back;
                    match session.drain() {
                        Drain::Consumed(ack, _) => observed.push(ack.message_identifier),
                        other => panic!("a full queue must deliver, got {:?}", other),
                    }
                },
                other => panic!("unexpected {:?}", other),
            }
        }
        assert_eq!(session.receive(control_read()), Reception::Ignored);
    }
    loop {
        match session.drain() {
            Drain::Consumed(ack, _) => observed.push(ack.message_identifier),
            Drain::Pending => break,
            Drain::Finished => panic!("the inbound half still runs"),
        }
    }
    assert_eq!(observed, tags);
}

#[test]
fn submission_suspends_at_the_bound_and_resumes_when_space_frees() {
    let mut session = started(3, 2);
    assert_eq!(session.receive(event_read("a")), Reception::Forwarded);
    assert_eq!(session.receive(event_read("b")), Reception::Forwarded);
    assert_eq!(session.backlog(), 2);
    for _ in 0..5 {
        assert_eq!(session.receive(event_read("c")), Reception::Suspended(event_read("c")));
        assert_eq!(session.backlog(), 2);
    }
    assert_eq!(session.receive(control_read()), Reception::Ignored);
    assert_eq!(session.drain(), Drain::Consumed(tagged("a"), None));
    assert_eq!(session.backlog(), 1);
    assert_eq!(session.receive(event_read("c")), Reception::Forwarded);
    assert_eq!(session.backlog(), 2);
    assert!(session.backlog() <= session.queue_capacity());
}

#[test]
fn outbound_sequence_ends_after_draining_what_was_queued() {
    let mut session = started(2, 10);
    for id in ["a", "b", "c"] {
        assert_eq!(session.receive(event_read(id)), Reception::Forwarded);
    }
    let error = SessionError::Transport(TransportFault::PeerClosed);
    assert_eq!(session.receive(ReadOutcome::EndOfStream), Reception::Terminated(error));
    assert_eq!(session.backlog(), 3);
    assert_eq!(session.current_phase(), Phase::Streaming);
    assert_eq!(session.drain(), Drain::Consumed(tagged("a"), None));
    match session.drain() {
        Drain::Consumed(ack, Some(request)) => {
            assert_eq!(ack, tagged("b"));
            assert_eq!(request.granted_permits, 2);
        },
        other => panic!("expected a refill, got {:?}", other),
    }
    assert_eq!(session.drain(), Drain::Consumed(tagged("c"), None));
    assert_eq!(session.drain(), Drain::Finished);
    assert_eq!(session.current_phase(), Phase::Closed);
    assert_eq!(session.drain(), Drain::Finished);
    assert!(session.drain_all().is_empty());
    assert_eq!(session.receive(event_read("late")), Reception::Terminated(error));
    assert_eq!(session.backlog(), 0);
}

#[test]
fn read_failure_after_two_events_delivers_exactly_two() {
    let (mut session, opener) = Session::start("client".to_string(), 0, 3, 10).unwrap();
    assert_eq!(opener.granted_permits, 6);
    assert_eq!(session.receive(event_read("first")), Reception::Forwarded);
    assert_eq!(session.receive(event_read("second")), Reception::Forwarded);
    let error = SessionError::Transport(TransportFault::ReadFailed);
    assert_eq!(session.receive(ReadOutcome::Failure), Reception::Terminated(error));
    assert_eq!(session.error(), Some(error));
    let mut delivered: Vec<Acknowledgment> = Vec::new();
    let mut requests = 0;
    loop {
        match session.drain() {
            Drain::Consumed(ack, request) => {
                delivered.push(ack);
                if request.is_some() {
                    requests += 1;
                }
            },
            Drain::Pending => panic!("the inbound half has ended"),
            Drain::Finished => break,
        }
    }
    assert_eq!(delivered, vec![tagged("first"), tagged("second")]);
    assert_eq!(requests, 0);
    assert_eq!(session.outstanding_permits(), 4);
    assert_eq!(session.current_phase(), Phase::Closed);
    assert_eq!(session.receive(event_read("third")), Reception::Terminated(error));
    assert_eq!(session.drain(), Drain::Finished);
}

#[test]
fn drain_all_returns_due_requests_in_order() {
    let mut session = started(2, 10);
    for n in 0..7 {
        assert_eq!(session.receive(event_read(&format!("e{}", n))), Reception::Forwarded);
    }
    let requests = session.drain_all();
    let grants: Vec<i64> = requests.iter().map(|r| r.granted_permits).collect();
    assert_eq!(grants, vec![2, 2, 2]);
    assert_eq!(session.backlog(), 0);
    assert_eq!(session.outstanding_permits(), 3);
    assert_eq!(session.current_phase(), Phase::Streaming);
    assert_eq!(session.drain(), Drain::Pending);
}

#[test]
fn idle_session_stays_pending() {
    let mut session = started(3, 1);
    assert_eq!(session.drain(), Drain::Pending);
    assert_eq!(session.drain(), Drain::Pending);
    assert_eq!(session.outstanding_permits(), 6);
    assert_eq!(session.current_phase(), Phase::Streaming);
}

#[test]
fn consumer_fails_when_stream_cannot_be_opened() {
    let mut consumer = StreamConsumer::new("viewer".to_string());
    let error = SessionError::Transport(TransportFault::OpenFailed);
    assert_eq!(consumer.on_open_failed(), error);
    assert_eq!(consumer.error(), Some(error));
    assert_eq!(consumer.on_read(event_read("late")), ConsumerAction::Terminate(error));
    assert_eq!(consumer.on_submit_rejected(), error);
}

#[test]
fn defaults_are_a_batch_of_three_and_a_backlog_of_ten() {
    assert_eq!(credit_flow::credit::DEFAULT_BATCH_SIZE, 3);
    assert_eq!(credit_flow::handoff::DEFAULT_CAPACITY, 10);
    let (session, opener) = Session::start(
        "client".to_string(),
        0,
        credit_flow::credit::DEFAULT_BATCH_SIZE,
        credit_flow::handoff::DEFAULT_CAPACITY,
    )
    .unwrap();
    assert_eq!(opener.granted_permits, 6);
    assert_eq!(session.queue_capacity(), 10);
}
