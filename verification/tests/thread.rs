use lib::thread::{
    finish_switch_next, finish_switch_prev, InterruptHandlers, JoinHandle, ParkHandle,
    PollingResponse, PrevDisposition, Thread, ThreadBuilder, ThreadState,
};

#[test]
fn exit_code_round_trips() {
    let mut th = Thread::new(String::from("worker"));
    let h = JoinHandle::new_for(&th);
    assert_eq!(h.join(), None);
    assert_eq!(h.try_get_running_cpu(), None);
    th.exit(-3);
    assert_eq!(th.state, ThreadState::Exited(-3));
    assert_eq!(JoinHandle::new_for(&th).join(), Some(-3));
    th.exit(7);
    assert_eq!(JoinHandle::new_for(&th).join(), Some(7));
    th.running_cpu = 2;
    assert_eq!(JoinHandle::new_for(&th).try_get_running_cpu(), Some(2));
}

#[test]
fn context_switch_dispositions() {
    assert_eq!(finish_switch_prev(ThreadState::Exited(0)), PrevDisposition::Free);
    assert_eq!(finish_switch_prev(ThreadState::Running), PrevDisposition::Requeue);
    assert_eq!(finish_switch_prev(ThreadState::Parked), PrevDisposition::Keep);
    assert_eq!(finish_switch_prev(ThreadState::Idle), PrevDisposition::Keep);
    assert_eq!(finish_switch_next(ThreadState::Idle), ThreadState::Idle);
    assert_eq!(finish_switch_next(ThreadState::Runnable), ThreadState::Running);
}

#[test]
fn park_and_unpark() {
    let mut b = ThreadBuilder::new(String::from("t"));
    b.th.state = ThreadState::Parked;
    let th = ParkHandle::new_for(b.th).unpark();
    assert_eq!(th.state, ThreadState::Runnable);
    assert_eq!(th.name, "t");
}

#[test]
fn polling_response_and_handlers() {
    let mut r: PollingResponse<u32> = PollingResponse::new();
    assert!(!r.finished);
    r.put(42);
    assert_eq!(r.poll(), 42);
    let mut hs: InterruptHandlers<u32> = InterruptHandlers::new();
    hs.register(33, 7);
    assert_eq!(*hs.do_handle_interrupt(1), 7);
    assert!(hs.slots[0].is_none());
}

#[test]
fn park_a_thread_once() {
    let th = Thread::new(String::from("worker"));
    let h = lib::thread::park_thread(th).ok().unwrap();
    assert_eq!(h.th.state, ThreadState::Parked);
    assert_eq!(h.th.name, "worker");
    // Parking it again gives it back unchanged.
    let again = lib::thread::park_thread(h.th).err().unwrap();
    assert_eq!(again.state, ThreadState::Parked);
    assert_eq!(again.name, "worker");
}
