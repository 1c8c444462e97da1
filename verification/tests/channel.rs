use lib::channel::{channel, ChannelInner, RecvStep, SendStep};
use lib::thread::{ParkHandle, RecvError, SendError, Thread, TryRecvError, TrySendError};

fn parked(name: &str) -> ParkHandle {
    ParkHandle::new_for(Thread::new(String::from(name)))
}

#[test]
fn values_come_out_in_order() {
    let mut ch: ChannelInner<u32> = channel(2);
    assert_eq!(ch.capacity(), 2);
    assert!(ch.can_send() && !ch.can_recv());
    assert!(matches!(ch.try_send(1), (Ok(()), None)));
    assert!(!ch.can_send() && ch.can_recv());
    assert!(matches!(ch.try_send(2), (Ok(()), None)));
    assert!(matches!(ch.try_send(3), (Err(TrySendError::Full(3)), None)));
    assert!(matches!(ch.try_recv(), (Ok(1), None)));
    assert!(matches!(ch.try_send(4), (Ok(()), None)));
    assert!(matches!(ch.try_recv(), (Ok(2), None)));
    assert!(matches!(ch.try_recv(), (Ok(4), None)));
    assert!(matches!(ch.try_recv(), (Err(TryRecvError::Empty), None)));
}

#[test]
fn disconnection() {
    let mut ch: ChannelInner<u32> = ChannelInner::new(4);
    ch.add_sender();
    assert_eq!(ch.tx_cnt, 2);
    assert!(matches!(ch.try_send(7), (Ok(()), None)));
    assert!(!ch.remove_sender());
    assert!(!ch.remove_sender());
    assert!(!ch.has_sender());
    // Buffered values are still received once the senders are gone.
    assert!(matches!(ch.try_recv(), (Ok(7), None)));
    assert!(matches!(ch.try_recv(), (Err(TryRecvError::Disconnected), None)));
    assert!(matches!(ch.recv_step(), RecvStep::Done(Err(RecvError), None)));
    // The last handle of both sides frees the channel.
    assert!(ch.remove_receiver());

    let mut ch: ChannelInner<u32> = ChannelInner::new(1);
    assert!(!ch.remove_receiver());
    assert!(!ch.has_receiver());
    assert!(matches!(ch.try_send(9), (Err(TrySendError::Disconnected(9)), None)));
    assert!(matches!(ch.send_step(9), SendStep::Done(Err(SendError(9)), None)));
    ch.add_receiver();
    assert!(ch.has_receiver());
}

#[test]
fn blocking_rounds_park_and_wake() {
    let mut ch: ChannelInner<u32> = ChannelInner::new(1);
    assert!(matches!(ch.send_step(1), SendStep::Done(Ok(()), None)));
    // Full: the sender parks.
    match ch.send_step(2) {
        SendStep::Park(v) => assert_eq!(v, 2),
        _ => panic!("expected to park"),
    }
    ch.park_sender(parked("tx"));
    // Taking the value wakes the parked sender.
    match ch.recv_step() {
        RecvStep::Done(Ok(1), Some(h)) => assert_eq!(h.th.name, "tx"),
        _ => panic!("expected the value and the sender to wake"),
    }
    assert!(ch.tx_waiter.is_empty());
    // Empty with a sender left: the receiver parks, and a send wakes it.
    assert!(matches!(ch.recv_step(), RecvStep::Park));
    ch.park_receiver(parked("rx"));
    match ch.send_step(3) {
        SendStep::Done(Ok(()), Some(h)) => assert_eq!(h.th.name, "rx"),
        _ => panic!("expected the receiver to wake"),
    }
    assert!(matches!(ch.push(4), (Err(4), None)));
    assert!(matches!(ch.pop(), (Some(3), None)));
    assert!(matches!(ch.pop(), (None, None)));
}

#[test]
fn rendezvous_hands_each_value_to_a_receive() {
    let mut ch: ChannelInner<u32> = channel(0);
    assert_eq!(ch.capacity(), 0);
    // No receiver waits: the sender waits for one.
    match ch.send_step(5) {
        SendStep::Park(v) => assert_eq!(v, 5),
        _ => panic!("expected to park"),
    }
    assert!(matches!(ch.try_send(6), (Err(TrySendError::Full(6)), None)));
    ch.park_sender(parked("early"));
    // A receiver comes: it parks and wakes the waiting sender.
    match ch.recv_step() {
        RecvStep::ParkAndWake(h) => assert_eq!(h.th.name, "early"),
        _ => panic!("expected the receiver to park and wake the sender"),
    }
    ch.park_receiver(parked("rx"));
    // The sender tries again: its value goes to the receiver, which wakes.
    match ch.send_step(5) {
        SendStep::Handoff(Some(h)) => assert_eq!(h.th.name, "rx"),
        _ => panic!("expected a hand-over"),
    }
    // Another sender queues behind while the hand-over is pending.
    assert!(matches!(ch.send_step(7), SendStep::Park(7)));
    ch.park_sender(parked("late"));
    ch.park_giver(parked("giver"));
    // The receive takes the value and wakes the sender that handed it over.
    match ch.recv_step() {
        RecvStep::Done(Ok(5), Some(h)) => assert_eq!(h.th.name, "giver"),
        _ => panic!("expected the handed value"),
    }
    assert_eq!(ch.tx_waiter.len(), 1);
    assert!(matches!(ch.try_recv(), (Err(TryRecvError::Empty), None)));
}
