//! Threads: states, exit codes, and the decisions taken on a context
//! switch; channel errors and one-shot responses.
use vstd::prelude::*;

verus! {

/// Size of a thread stack.
pub const STACK_SIZE: usize = 0x10_0000;
/// Marker stored at the bottom of every thread stack.
pub const THREAD_MAGIC: u64 = 0xdead_beef_cafe_babe;
/// Bit of the exit status that says the thread exited.
pub const EXITED: u64 = 0x8000_0000_0000_0000;

/// States of a thread.
#[derive(Copy, Clone, Debug, PartialEq, Eq, Structural)]
pub enum ThreadState {
    Runnable,
    Running,
    Exited(i32),
    Idle,
    Parked,
}

/// A thread: saved stack pointer, name, state, the core it runs on (-1
/// when none) and its exit status.
pub struct Thread {
    pub sp: usize,
    pub name: String,
    pub state: ThreadState,
    pub running_cpu: i32,
    pub exit_status: u64,
}

/// The exit status that records exit code `code`.
pub open spec fn exit_status_of(code: i32) -> u64 {
    EXITED | (code as u64)
}

impl Thread {
    /// A runnable thread named `name`, on no core.
    pub fn new(name: String) -> (r: Thread)
        ensures
            r.name@ == name@,
            r.sp == 0,
            r.state == ThreadState::Runnable,
            r.running_cpu == -1,
            r.exit_status == 0,
    {
        Thread { sp: 0, name, state: ThreadState::Runnable, running_cpu: -1, exit_status: 0 }
    }

    /// Record that the thread exits with `exit_code` (the scheduler then
    /// switches away from it).
    pub fn exit(&mut self, exit_code: i32)
        ensures
            final(self).exit_status == exit_status_of(exit_code),
            final(self).state == ThreadState::Exited(exit_code),
            final(self).sp == old(self).sp && final(self).running_cpu == old(self).running_cpu,
            final(self).name == old(self).name,
    {
        self.exit_status = EXITED | (exit_code as u64);
        self.state = ThreadState::Exited(exit_code);
    }
}

/// A handle to wait for a thread's exit: its exit status and core as last
/// observed.
#[derive(Copy, Clone, Debug)]
pub struct JoinHandle {
    pub exit_status: u64,
    pub running_cpu: i32,
}

impl JoinHandle {
    /// A handle for `th`.
    pub fn new_for(th: &Thread) -> (r: JoinHandle)
        ensures
            r.exit_status == th.exit_status && r.running_cpu == th.running_cpu,
    {
        JoinHandle { exit_status: th.exit_status, running_cpu: th.running_cpu }
    }

    /// The exit code, once the status says the thread exited.
    pub fn join(&self) -> (r: Option<i32>)
        ensures
            r is Some <==> self.exit_status >= EXITED,
            r is Some ==> r->0 == self.exit_status as i32,
    {
        if self.exit_status >= EXITED {
            Some(self.exit_status as i32)
        } else {
            None
        }
    }

    /// The core the thread runs on, if any.
    pub fn try_get_running_cpu(&self) -> (r: Option<usize>)
        ensures
            r is Some <==> self.running_cpu >= 0,
            r is Some ==> r->0 == self.running_cpu,
    {
        if self.running_cpu < 0 {
            None
        } else {
            Some(self.running_cpu as usize)
        }
    }
}

/// Joining a thread, or a virtual machine, that exited with `code` gives
/// back `code`.
pub proof fn lemma_exit_join(code: i32)
    ensures
        exit_status_of(code) >= EXITED,
        exit_status_of(code) as i32 == code,
{
    assert((0x8000_0000_0000_0000u64 | (code as u64)) >= 0x8000_0000_0000_0000u64
        && (0x8000_0000_0000_0000u64 | (code as u64)) as i32 == code) by (bit_vector);
}

/// A parked thread.
pub struct ParkHandle {
    pub th: Thread,
}

impl ParkHandle {
    /// Park `th`.
    pub fn new_for(th: Thread) -> (r: ParkHandle)
        ensures
            r.th == th,
    {
        ParkHandle { th }
    }

    /// Make the thread runnable again; the caller queues it once it has
    /// left every core.
    pub fn unpark(self) -> (r: Thread)
        requires
            self.th.running_cpu == -1,
        ensures
            r.state == ThreadState::Runnable,
            r.sp == self.th.sp && r.running_cpu == self.th.running_cpu,
            r.exit_status == self.th.exit_status && r.name == self.th.name,
    {
        let mut th = self.th;
        th.state = ThreadState::Runnable;
        th
    }
}

/// What happens to the thread that was switched away from.
#[derive(Copy, Clone, Debug, PartialEq, Eq, Structural)]
pub enum PrevDisposition {
    /// It exited: free it.
    Free,
    /// It stays where it is (idle or parked).
    Keep,
    /// It was running: it becomes runnable and goes back to the queue.
    Requeue,
}

/// The disposition of the previous thread after a context switch, by its
/// state; a runnable thread is never switched away from.
pub fn finish_switch_prev(state: ThreadState) -> (r: PrevDisposition)
    requires
        state != ThreadState::Runnable,
    ensures
        state is Exited ==> r == PrevDisposition::Free,
        (state == ThreadState::Idle || state == ThreadState::Parked) ==> r == PrevDisposition::Keep,
        state == ThreadState::Running ==> r == PrevDisposition::Requeue,
{
    match state {
        ThreadState::Exited(_) => PrevDisposition::Free,
        ThreadState::Idle => PrevDisposition::Keep,
        ThreadState::Running => PrevDisposition::Requeue,
        ThreadState::Parked => PrevDisposition::Keep,
        ThreadState::Runnable => PrevDisposition::Keep,
    }
}

/// The state of the thread switched to: running, unless it is the idle
/// thread.
pub fn finish_switch_next(state: ThreadState) -> (r: ThreadState)
    ensures
        state == ThreadState::Idle ==> r == ThreadState::Idle,
        state != ThreadState::Idle ==> r == ThreadState::Running,
{
    if state != ThreadState::Idle {
        ThreadState::Running
    } else {
        state
    }
}

/// Park `th`: it becomes parked and the handle that wakes it is returned;
/// a thread already parked cannot be parked again and comes back.
pub fn park_thread(th: Thread) -> (r: Result<ParkHandle, Thread>)
    ensures
        th.state == ThreadState::Parked ==> (r matches Err(t) && t == th),
        th.state != ThreadState::Parked ==> (r matches Ok(h) && h.th.state == ThreadState::Parked
            && h.th.sp == th.sp && h.th.name == th.name && h.th.running_cpu == th.running_cpu
            && h.th.exit_status == th.exit_status),
{
    if matches!(th.state, ThreadState::Parked) {
        return Err(th);
    }
    let mut th = th;
    th.state = ThreadState::Parked;
    Ok(ParkHandle { th })
}

/// A thread being set up before it is spawned.
pub struct ThreadBuilder {
    pub th: Thread,
}

impl ThreadBuilder {
    /// A builder of a thread named `name`.
    pub fn new(name: String) -> (r: ThreadBuilder)
        ensures
            r.th.name@ == name@,
            r.th.state == ThreadState::Runnable,
            r.th.running_cpu == -1,
            r.th.exit_status == 0,
    {
        ThreadBuilder { th: Thread::new(name) }
    }
}

/// A send failed because the receiving side is gone; the value comes back.
pub struct SendError<T>(pub T);

/// A receive failed because the sending side is gone.
#[derive(Copy, Clone, Debug, PartialEq, Eq, Structural)]
pub struct RecvError;

/// Why a non-blocking send failed; the value comes back.
pub enum TrySendError<T> {
    /// The buffer is full.
    Full(T),
    /// The receiving side is gone.
    Disconnected(T),
}

/// Why a non-blocking receive failed.
#[derive(Copy, Clone, Debug, PartialEq, Eq, Structural)]
pub enum TryRecvError {
    /// Nothing to receive yet.
    Empty,
    /// The sending side is gone.
    Disconnected,
}

/// A one-shot response: empty until it is put, then finished.
pub struct PollingResponse<T> {
    pub finished: bool,
    pub t: Option<T>,
}

impl<T> PollingResponse<T> {
    /// An empty response.
    pub fn new() -> (r: PollingResponse<T>)
        ensures
            !r.finished && r.t is None,
    {
        PollingResponse { finished: false, t: None }
    }

    /// Put the response.
    pub fn put(&mut self, t: T)
        ensures
            final(self).finished,
            final(self).t == Some(t),
    {
        self.t = Some(t);
        self.finished = true;
    }

    /// Take the response; the caller waits until it is finished.
    pub fn poll(self) -> (r: T)
        requires
            self.finished,
            self.t is Some,
        ensures
            Some(r) == self.t,
    {
        self.t.unwrap()
    }
}

/// Handlers of the user-defined vectors (32 and up), one slot each.
pub struct InterruptHandlers<H> {
    pub slots: Vec<Option<H>>,
}

/// Number of user-defined vectors.
pub const HANDLER_SLOTS: usize = 224;

impl<H> InterruptHandlers<H> {
    /// No handler registered.
    pub fn new() -> (r: InterruptHandlers<H>)
        ensures
            r.slots.len() == HANDLER_SLOTS,
            forall|i: int| 0 <= i < HANDLER_SLOTS ==> r.slots@[i] is None,
    {
        let mut slots: Vec<Option<H>> = Vec::new();
        while slots.len() < HANDLER_SLOTS
            invariant
                slots.len() <= HANDLER_SLOTS,
                forall|i: int| 0 <= i < slots.len() ==> slots@[i] is None,
            decreases HANDLER_SLOTS - slots.len(),
        {
            slots.push(None);
        }
        InterruptHandlers { slots }
    }

    /// Register `handler` for vector `vec`.
    pub fn register(&mut self, vec: usize, handler: H)
        requires
            old(self).slots.len() == HANDLER_SLOTS,
            32 <= vec < 32 + HANDLER_SLOTS,
        ensures
            final(self).slots@ == old(self).slots@.update(vec - 32, Some(handler)),
    {
        self.slots.set(vec - 32, Some(handler));
    }

    /// The handler of user-defined interrupt `idx` (vector 32 + `idx`).
    pub fn do_handle_interrupt(&self, idx: usize) -> (r: &H)
        requires
            idx < self.slots.len(),
            self.slots@[idx as int] is Some,
        ensures
            Some(*r) == self.slots@[idx as int],
    {
        self.slots[idx].as_ref().unwrap()
    }
}

} // verus!
