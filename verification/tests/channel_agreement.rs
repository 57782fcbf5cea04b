use credit_flow::handoff::Delivery;
use credit_flow::handoff::HandoffQueue;
use credit_flow::handoff::Submission;
use credit_flow::message::Acknowledgment;
use tokio::sync::mpsc::channel;
use tokio::sync::mpsc::error::TryRecvError;
use tokio::sync::mpsc::error::TrySendError;
use tokio::sync::mpsc::Receiver;
use tokio::sync::mpsc::Sender;

fn numbered(n: usize) -> Acknowledgment {
    Acknowledgment { message_identifier: format!("message-{}", n) }
}

fn channel_submit(tx: &Sender<Acknowledgment>, ack: Acknowledgment) -> Submission {
    match tx.try_send(ack) {
        Ok(()) => Submission::Accepted,
        Err(TrySendError::Full(back)) => Submission::Full(back),
        Err(TrySendError::Closed(back)) => Submission::Disconnected(back),
    }
}

fn channel_take(rx: &mut Receiver<Acknowledgment>) -> Delivery {
    match rx.try_recv() {
        Ok(ack) => Delivery::Item(ack),
        Err(TryRecvError::Empty) => Delivery::Empty,
        Err(TryRecvError::Disconnected) => Delivery::Closed,
    }
}

#[test]
fn queue_agrees_with_channel_when_filled_and_drained() {
    for capacity in [1usize, 2, 3, 10] {
        let (tx, mut rx) = channel::<Acknowledgment>(capacity);
        let mut queue = HandoffQueue::new(capacity).unwrap();
        assert_eq!(queue.capacity(), tx.max_capacity());
        for n in 0..capacity + 3 {
            assert_eq!(queue.try_submit(numbered(n)), channel_submit(&tx, numbered(n)));
            assert_eq!(queue.len(), rx.len());
        }
        for _ in 0..capacity + 3 {
            assert_eq!(queue.take(), channel_take(&mut rx));
            assert_eq!(queue.len(), rx.len());
        }
    }
}

#[test]
fn queue_agrees_with_channel_when_steps_interleave() {
    let (tx, mut rx) = channel::<Acknowledgment>(3);
    let mut queue = HandoffQueue::new(3).unwrap();
    let mut next = 0usize;
    for round in 0..40usize {
        let submissions = round % 5;
        let takes = (round * 7 + 1) % 4;
        for _ in 0..submissions {
            assert_eq!(queue.try_submit(numbered(next)), channel_submit(&tx, numbered(next)));
            next += 1;
        }
        for _ in 0..takes {
            assert_eq!(queue.take(), channel_take(&mut rx));
        }
        assert_eq!(queue.len(), rx.len());
        assert!(queue.len() <= queue.capacity());
    }
}

#[test]
fn queue_agrees_with_channel_after_sender_is_gone() {
    let (tx, mut rx) = channel::<Acknowledgment>(4);
    let mut queue = HandoffQueue::new(4).unwrap();
    for n in 0..2 {
        assert_eq!(queue.try_submit(numbered(n)), channel_submit(&tx, numbered(n)));
    }
    drop(tx);
    queue.close_sender();
    for _ in 0..4 {
        assert_eq!(queue.take(), channel_take(&mut rx));
    }
    assert_eq!(queue.take(), Delivery::Closed);
}

#[test]
fn queue_agrees_with_channel_after_receiver_is_gone() {
    let (tx, rx) = channel::<Acknowledgment>(4);
    let mut queue = HandoffQueue::new(4).unwrap();
    assert_eq!(queue.try_submit(numbered(0)), channel_submit(&tx, numbered(0)));
    drop(rx);
    queue.close_receiver();
    assert_eq!(queue.try_submit(numbered(1)), channel_submit(&tx, numbered(1)));
    assert_eq!(queue.try_submit(numbered(1)), Submission::Disconnected(numbered(1)));
}
