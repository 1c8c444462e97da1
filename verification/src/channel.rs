//! The shared state of a bounded multi-producer, multi-consumer FIFO
//! channel: the buffered values, how many senders and receivers remain,
//! and the threads parked waiting for room or for a value.
use vstd::prelude::*;
use std::collections::VecDeque;
use crate::thread::{ParkHandle, RecvError, SendError, TryRecvError, TrySendError};

verus! {

/// What a blocking send does next.
pub enum SendStep<T> {
    /// The send is over; the receiver to wake, if one waited.
    Done(Result<(), SendError<T>>, Option<ParkHandle>),
    /// The buffer is full: park the sending thread, then try again with the
    /// value.
    Park(T),
    /// A channel without buffer handed the value to a waiting receiver:
    /// wake that receiver, then park the sending thread until the value is
    /// taken; the send then succeeds.
    Handoff(Option<ParkHandle>),
}

/// What a blocking receive does next.
pub enum RecvStep<T> {
    /// The receive is over; the sender to wake, if one waited.
    Done(Result<T, RecvError>, Option<ParkHandle>),
    /// Nothing to receive yet: park the receiving thread, then try again.
    Park,
    /// Nothing to receive yet on a channel without buffer: park the
    /// receiving thread, wake this waiting sender so that it hands its value
    /// over, then try again.
    ParkAndWake(ParkHandle),
}

/// The state a channel's senders and receivers share.
pub struct ChannelInner<T> {
    pub q: VecDeque<T>,
    pub cap: usize,
    pub tx_cnt: usize,
    pub rx_cnt: usize,
    pub tx_waiter: Vec<ParkHandle>,
    pub rx_waiter: Vec<ParkHandle>,
}

/// The last of `v`, if any.
pub open spec fn last_of(v: Seq<ParkHandle>) -> Option<ParkHandle> {
    if v.len() == 0 {
        None
    } else {
        Some(v.last())
    }
}

/// `v` without its last element, if any.
pub open spec fn without_last(v: Seq<ParkHandle>) -> Seq<ParkHandle> {
    if v.len() == 0 {
        v
    } else {
        v.drop_last()
    }
}

impl<T> ChannelInner<T> {
    /// The buffer never holds more than its capacity; a channel without
    /// buffer holds at most the one value being handed over.
    pub open spec fn wf(&self) -> bool {
        self.q@.len() <= self.cap || (self.cap == 0 && self.q@.len() <= 1)
    }

    /// A channel of capacity `bound`, with one sender and one receiver; with
    /// `bound` zero each send waits until a receive takes its value.
    pub fn new(bound: usize) -> (r: Self)
        ensures
            r.wf(),
            r.q@ == Seq::<T>::empty(),
            r.cap == bound,
            r.tx_cnt == 1 && r.rx_cnt == 1,
            r.tx_waiter@ == Seq::<ParkHandle>::empty() && r.rx_waiter@ == Seq::<ParkHandle>::empty(),
    {
        ChannelInner {
            q: VecDeque::new(),
            cap: bound,
            tx_cnt: 1,
            rx_cnt: 1,
            tx_waiter: Vec::new(),
            rx_waiter: Vec::new(),
        }
    }

    /// Whether a receiver remains.
    pub fn has_receiver(&self) -> (r: bool)
        ensures
            r == (self.rx_cnt != 0),
    {
        self.rx_cnt != 0
    }

    /// Whether a sender remains.
    pub fn has_sender(&self) -> (r: bool)
        ensures
            r == (self.tx_cnt != 0),
    {
        self.tx_cnt != 0
    }

    /// The capacity of the buffer.
    pub fn capacity(&self) -> (r: usize)
        ensures
            r == self.cap,
    {
        self.cap
    }

    /// Whether a send can go through now: the buffer is empty and a
    /// receiver remains.
    pub fn can_send(&self) -> (r: bool)
        ensures
            r == (self.q@.len() == 0 && self.rx_cnt != 0),
    {
        self.q.len() == 0 && self.has_receiver()
    }

    /// Whether a receive can go through now: the buffer holds a value and
    /// a sender remains.
    pub fn can_recv(&self) -> (r: bool)
        ensures
            r == (self.q@.len() != 0 && self.tx_cnt != 0),
    {
        self.q.len() != 0 && self.has_sender()
    }

    /// Append `value` to the buffer unless it is full, in which case the
    /// value comes back. On success the receiver that parked last is taken
    /// out of the waiters, to be woken.
    pub fn push(&mut self, value: T) -> (r: (Result<(), T>, Option<ParkHandle>))
        requires
            old(self).wf(),
        ensures
            final(self).wf(),
            final(self).cap == old(self).cap,
            final(self).tx_cnt == old(self).tx_cnt && final(self).rx_cnt == old(self).rx_cnt,
            final(self).tx_waiter@ == old(self).tx_waiter@,
            old(self).q@.len() < old(self).cap ==> {
                &&& r.0 == Ok::<(), T>(())
                &&& final(self).q@ == old(self).q@.push(value)
                &&& r.1 == last_of(old(self).rx_waiter@)
                &&& final(self).rx_waiter@ == without_last(old(self).rx_waiter@)
            },
            old(self).q@.len() >= old(self).cap ==> {
                &&& r.0 == Err::<(), T>(value)
                &&& r.1 is None
                &&& final(self).q@ == old(self).q@
                &&& final(self).rx_waiter@ == old(self).rx_waiter@
            },
    {
        if self.q.len() < self.cap {
            self.q.push_back(value);
            let waiter = self.rx_waiter.pop();
            (Ok(()), waiter)
        } else {
            (Err(value), None)
        }
    }

    /// Take the oldest value of the buffer, if any. On success the sender
    /// that parked last is taken out of the waiters, to be woken.
    pub fn pop(&mut self) -> (r: (Option<T>, Option<ParkHandle>))
        requires
            old(self).wf(),
        ensures
            final(self).wf(),
            final(self).cap == old(self).cap,
            final(self).tx_cnt == old(self).tx_cnt && final(self).rx_cnt == old(self).rx_cnt,
            final(self).rx_waiter@ == old(self).rx_waiter@,
            old(self).q@.len() > 0 ==> {
                &&& r.0 == Some(old(self).q@[0])
                &&& final(self).q@ == old(self).q@.drop_first()
                &&& r.1 == last_of(old(self).tx_waiter@)
                &&& final(self).tx_waiter@ == without_last(old(self).tx_waiter@)
            },
            old(self).q@.len() == 0 ==> {
                &&& r.0 is None
                &&& r.1 is None
                &&& final(self).q@ == old(self).q@
                &&& final(self).tx_waiter@ == old(self).tx_waiter@
            },
    {
        match self.q.pop_front() {
            Some(v) => {
                let waiter = self.tx_waiter.pop();
                proof {
                    assert(old(self).q@.subrange(1, old(self).q@.len() as int) =~= old(self).q@.drop_first());
                }
                (Some(v), waiter)
            },
            None => (None, None),
        }
    }

    /// On a channel without buffer, put `t` in the hand-over slot and take
    /// the receiver that parked last out of the waiters, to be woken.
    fn hand_over(&mut self, t: T) -> (r: Option<ParkHandle>)
        requires
            old(self).cap == 0,
            old(self).q@.len() == 0,
        ensures
            final(self).wf(),
            final(self).q@ == seq![t],
            r == last_of(old(self).rx_waiter@),
            final(self).rx_waiter@ == without_last(old(self).rx_waiter@),
            final(self).cap == old(self).cap,
            final(self).tx_cnt == old(self).tx_cnt && final(self).rx_cnt == old(self).rx_cnt,
            final(self).tx_waiter@ == old(self).tx_waiter@,
    {
        self.q.push_back(t);
        self.rx_waiter.pop()
    }

    /// Send `t` without blocking: with no receiver left it comes back as
    /// disconnected, with a full buffer it comes back as full.
    pub fn try_send(&mut self, t: T) -> (r: (Result<(), TrySendError<T>>, Option<ParkHandle>))
        requires
            old(self).wf(),
        ensures
            final(self).wf(),
            final(self).cap == old(self).cap,
            final(self).tx_cnt == old(self).tx_cnt && final(self).rx_cnt == old(self).rx_cnt,
            final(self).tx_waiter@ == old(self).tx_waiter@,
            old(self).rx_cnt == 0 ==> r.0 == Err::<(), TrySendError<T>>(TrySendError::Disconnected(t))
                && r.1 is None && final(self).q@ == old(self).q@
                && final(self).rx_waiter@ == old(self).rx_waiter@,
            old(self).rx_cnt != 0 && old(self).q@.len() >= old(self).cap && !(old(self).cap == 0
                && old(self).q@.len() == 0 && old(self).rx_waiter@.len() > 0) ==> r.0 == Err::<
                (),
                TrySendError<T>,
            >(TrySendError::Full(t)) && r.1 is None && final(self).q@ == old(self).q@
                && final(self).rx_waiter@ == old(self).rx_waiter@,
            old(self).rx_cnt != 0 && old(self).cap == 0 && old(self).q@.len() == 0
                && old(self).rx_waiter@.len() > 0 ==> r.0 == Ok::<(), TrySendError<T>>(())
                && final(self).q@ == seq![t] && r.1 == last_of(old(self).rx_waiter@)
                && final(self).rx_waiter@ == without_last(old(self).rx_waiter@),
            old(self).rx_cnt != 0 && old(self).q@.len() < old(self).cap ==> r.0 == Ok::<
                (),
                TrySendError<T>,
            >(()) && final(self).q@ == old(self).q@.push(t) && r.1 == last_of(old(self).rx_waiter@)
                && final(self).rx_waiter@ == without_last(old(self).rx_waiter@),
    {
        if !self.has_receiver() {
            (Err(TrySendError::Disconnected(t)), None)
        } else if self.cap == 0 {
            if self.q.len() == 0 && self.rx_waiter.len() > 0 {
                (Ok(()), self.hand_over(t))
            } else {
                (Err(TrySendError::Full(t)), None)
            }
        } else {
            match self.push(t) {
                (Err(t), w) => (Err(TrySendError::Full(t)), w),
                (Ok(()), w) => (Ok(()), w),
            }
        }
    }

    /// Receive without blocking: the oldest value, or why there is none.
    /// Values buffered before the senders left are still received.
    pub fn try_recv(&mut self) -> (r: (Result<T, TryRecvError>, Option<ParkHandle>))
        requires
            old(self).wf(),
        ensures
            final(self).wf(),
            final(self).cap == old(self).cap,
            final(self).tx_cnt == old(self).tx_cnt && final(self).rx_cnt == old(self).rx_cnt,
            final(self).rx_waiter@ == old(self).rx_waiter@,
            old(self).q@.len() > 0 ==> r.0 == Ok::<T, TryRecvError>(old(self).q@[0])
                && final(self).q@ == old(self).q@.drop_first() && r.1 == last_of(old(self).tx_waiter@)
                && final(self).tx_waiter@ == without_last(old(self).tx_waiter@),
            old(self).q@.len() == 0 ==> r.1 is None && final(self).q@ == old(self).q@
                && final(self).tx_waiter@ == old(self).tx_waiter@ && r.0 == Err::<T, TryRecvError>(
                if old(self).tx_cnt == 0 {
                    TryRecvError::Disconnected
                } else {
                    TryRecvError::Empty
                },
            ),
    {
        match self.pop() {
            (Some(n), w) => (Ok(n), w),
            (None, _) => {
                if !self.has_sender() {
                    match self.pop() {
                        (Some(n), w) => (Ok(n), w),
                        (None, w) => (Err(TryRecvError::Disconnected), w),
                    }
                } else {
                    (Err(TryRecvError::Empty), None)
                }
            },
        }
    }

    /// One round of a blocking send of `t`: with no receiver left the value
    /// comes back; with room it is buffered; with a full buffer the sender
    /// is to park (see [`Self::park_sender`]) and try again.
    pub fn send_step(&mut self, t: T) -> (r: SendStep<T>)
        requires
            old(self).wf(),
        ensures
            final(self).wf(),
            final(self).cap == old(self).cap,
            final(self).tx_cnt == old(self).tx_cnt && final(self).rx_cnt == old(self).rx_cnt,
            final(self).tx_waiter@ == old(self).tx_waiter@,
            old(self).rx_cnt == 0 ==> r == SendStep::Done(Err(SendError(t)), None)
                && final(self).q@ == old(self).q@ && final(self).rx_waiter@ == old(self).rx_waiter@,
            old(self).rx_cnt != 0 && old(self).q@.len() >= old(self).cap && !(old(self).cap == 0
                && old(self).q@.len() == 0 && old(self).rx_waiter@.len() > 0) ==> r == SendStep::Park(t)
                && final(self).q@ == old(self).q@ && final(self).rx_waiter@ == old(self).rx_waiter@,
            old(self).rx_cnt != 0 && old(self).cap == 0 && old(self).q@.len() == 0
                && old(self).rx_waiter@.len() > 0 ==> r == SendStep::<T>::Handoff(
                last_of(old(self).rx_waiter@),
            ) && final(self).q@ == seq![t] && final(self).rx_waiter@ == without_last(
                old(self).rx_waiter@,
            ),
            old(self).rx_cnt != 0 && old(self).q@.len() < old(self).cap ==> r == SendStep::<T>::Done(
                Ok(()),
                last_of(old(self).rx_waiter@),
            ) && final(self).q@ == old(self).q@.push(t)
                && final(self).rx_waiter@ == without_last(old(self).rx_waiter@),
    {
        if !self.has_receiver() {
            SendStep::Done(Err(SendError(t)), None)
        } else if self.cap == 0 {
            if self.q.len() == 0 && self.rx_waiter.len() > 0 {
                SendStep::Handoff(self.hand_over(t))
            } else {
                SendStep::Park(t)
            }
        } else {
            match self.push(t) {
                (Err(t), _) => SendStep::Park(t),
                (Ok(()), w) => SendStep::Done(Ok(()), w),
            }
        }
    }

    /// A sender parks until a value is taken: `h` wakes it. On a channel
    /// without buffer it queues behind the others, so that the sender whose
    /// value is being handed over is the one the taking receive wakes.
    pub fn park_sender(&mut self, h: ParkHandle)
        ensures
            final(self).tx_waiter@ == (if old(self).cap == 0 {
                seq![h] + old(self).tx_waiter@
            } else {
                old(self).tx_waiter@.push(h)
            }),
            final(self).q@ == old(self).q@ && final(self).cap == old(self).cap,
            final(self).tx_cnt == old(self).tx_cnt && final(self).rx_cnt == old(self).rx_cnt,
            final(self).rx_waiter@ == old(self).rx_waiter@,
    {
        if self.cap == 0 {
            self.tx_waiter.insert(0, h);
            assert(self.tx_waiter@ =~= seq![h] + old(self).tx_waiter@);
        } else {
            self.tx_waiter.push(h);
        }
    }

    /// The sender that handed its value over parks until the value is
    /// taken: `h` wakes it, and the receive that takes the value wakes it.
    pub fn park_giver(&mut self, h: ParkHandle)
        ensures
            final(self).tx_waiter@ == old(self).tx_waiter@.push(h),
            final(self).q@ == old(self).q@ && final(self).cap == old(self).cap,
            final(self).tx_cnt == old(self).tx_cnt && final(self).rx_cnt == old(self).rx_cnt,
            final(self).rx_waiter@ == old(self).rx_waiter@,
    {
        self.tx_waiter.push(h);
    }

    /// One round of a blocking receive: the oldest value if there is one;
    /// with nothing buffered and no sender left an error; otherwise the
    /// receiver is to park (see [`Self::park_receiver`]) and try again.
    pub fn recv_step(&mut self) -> (r: RecvStep<T>)
        requires
            old(self).wf(),
        ensures
            final(self).wf(),
            final(self).cap == old(self).cap,
            final(self).tx_cnt == old(self).tx_cnt && final(self).rx_cnt == old(self).rx_cnt,
            final(self).rx_waiter@ == old(self).rx_waiter@,
            old(self).q@.len() > 0 ==> r == RecvStep::Done(Ok(old(self).q@[0]), last_of(old(self).tx_waiter@))
                && final(self).q@ == old(self).q@.drop_first()
                && final(self).tx_waiter@ == without_last(old(self).tx_waiter@),
            old(self).q@.len() == 0 && !(old(self).tx_cnt != 0 && old(self).cap == 0
                && old(self).tx_waiter@.len() > 0) ==> final(self).q@ == old(self).q@
                && final(self).tx_waiter@ == old(self).tx_waiter@ && r == (if old(self).tx_cnt == 0 {
                RecvStep::<T>::Done(Err(RecvError), None)
            } else {
                RecvStep::<T>::Park
            }),
            old(self).q@.len() == 0 && old(self).tx_cnt != 0 && old(self).cap == 0
                && old(self).tx_waiter@.len() > 0 ==> final(self).q@ == old(self).q@
                && r == RecvStep::<T>::ParkAndWake(old(self).tx_waiter@.last())
                && final(self).tx_waiter@ == old(self).tx_waiter@.drop_last(),
    {
        match self.pop() {
            (Some(n), w) => RecvStep::Done(Ok(n), w),
            (None, _) => {
                if !self.has_sender() {
                    match self.pop() {
                        (Some(n), w) => RecvStep::Done(Ok(n), w),
                        (None, w) => RecvStep::Done(Err(RecvError), w),
                    }
                } else {
                    match self.pop() {
                        (Some(n), w) => RecvStep::Done(Ok(n), w),
                        (None, _) => {
                            if self.cap == 0 {
                                match self.tx_waiter.pop() {
                                    Some(h) => RecvStep::ParkAndWake(h),
                                    None => RecvStep::Park,
                                }
                            } else {
                                RecvStep::Park
                            }
                        },
                    }
                }
            },
        }
    }

    /// A receiver parks until a value comes: `h` wakes it.
    pub fn park_receiver(&mut self, h: ParkHandle)
        ensures
            final(self).rx_waiter@ == old(self).rx_waiter@.push(h),
            final(self).q@ == old(self).q@ && final(self).cap == old(self).cap,
            final(self).tx_cnt == old(self).tx_cnt && final(self).rx_cnt == old(self).rx_cnt,
            final(self).tx_waiter@ == old(self).tx_waiter@,
    {
        self.rx_waiter.push(h);
    }

    /// A sender is cloned.
    pub fn add_sender(&mut self)
        requires
            old(self).tx_cnt <= isize::MAX,
        ensures
            final(self).tx_cnt == old(self).tx_cnt + 1,
            final(self).rx_cnt == old(self).rx_cnt && final(self).cap == old(self).cap,
            final(self).q@ == old(self).q@,
            final(self).tx_waiter@ == old(self).tx_waiter@ && final(self).rx_waiter@ == old(self).rx_waiter@,
    {
        self.tx_cnt = self.tx_cnt + 1;
    }

    /// A receiver is cloned.
    pub fn add_receiver(&mut self)
        requires
            old(self).rx_cnt <= isize::MAX,
        ensures
            final(self).rx_cnt == old(self).rx_cnt + 1,
            final(self).tx_cnt == old(self).tx_cnt && final(self).cap == old(self).cap,
            final(self).q@ == old(self).q@,
            final(self).tx_waiter@ == old(self).tx_waiter@ && final(self).rx_waiter@ == old(self).rx_waiter@,
    {
        self.rx_cnt = self.rx_cnt + 1;
    }

    /// A sender is dropped; whether it was the last handle of either side,
    /// so that the channel is freed.
    pub fn remove_sender(&mut self) -> (r: bool)
        requires
            old(self).tx_cnt > 0,
        ensures
            final(self).tx_cnt == old(self).tx_cnt - 1,
            final(self).rx_cnt == old(self).rx_cnt && final(self).cap == old(self).cap,
            final(self).q@ == old(self).q@,
            final(self).tx_waiter@ == old(self).tx_waiter@ && final(self).rx_waiter@ == old(self).rx_waiter@,
            r == (old(self).tx_cnt == 1 && old(self).rx_cnt == 0),
    {
        let was = self.tx_cnt;
        self.tx_cnt = was - 1;
        was == 1 && self.rx_cnt == 0
    }

    /// A receiver is dropped; whether it was the last handle of either
    /// side, so that the channel is freed.
    pub fn remove_receiver(&mut self) -> (r: bool)
        requires
            old(self).rx_cnt > 0,
        ensures
            final(self).rx_cnt == old(self).rx_cnt - 1,
            final(self).tx_cnt == old(self).tx_cnt && final(self).cap == old(self).cap,
            final(self).q@ == old(self).q@,
            final(self).tx_waiter@ == old(self).tx_waiter@ && final(self).rx_waiter@ == old(self).rx_waiter@,
            r == (old(self).rx_cnt == 1 && old(self).tx_cnt == 0),
    {
        let was = self.rx_cnt;
        self.rx_cnt = was - 1;
        was == 1 && self.tx_cnt == 0
    }
}

/// A creation of a channel of capacity `bound`; with `bound` zero it is a
/// rendezvous channel, where each send waits until a receive takes its value.
pub fn channel<T>(bound: usize) -> (r: ChannelInner<T>)
    ensures
        r.wf(),
        r.q@ == Seq::<T>::empty(),
        r.cap == bound,
        r.tx_cnt == 1 && r.rx_cnt == 1,
        r.tx_waiter@ == Seq::<ParkHandle>::empty() && r.rx_waiter@ == Seq::<ParkHandle>::empty(),
{
    ChannelInner::new(bound)
}

/// The buffer after `vs` were sent, one after the other, into a channel
/// whose buffer was `q`, every send finding room.
pub open spec fn sent_all<T>(q: Seq<T>, vs: Seq<T>) -> Seq<T>
    decreases vs.len(),
{
    if vs.len() == 0 {
        q
    } else {
        sent_all(q.push(vs[0]), vs.drop_first())
    }
}

/// Values come out in the order they went in: sending `vs` after the
/// buffered values `q` leaves them behind `q`, so that receiving takes `q`
/// first and then `vs`, in order.
pub proof fn lemma_fifo<T>(q: Seq<T>, vs: Seq<T>)
    ensures
        sent_all(q, vs) == q + vs,
    decreases vs.len(),
{
    if vs.len() == 0 {
        assert(q + vs =~= q);
    } else {
        lemma_fifo(q.push(vs[0]), vs.drop_first());
        assert(q.push(vs[0]) + vs.drop_first() =~= q + vs);
    }
}

/// On a channel without buffer, a handed-over value goes to the next
/// receive, which also wakes the sender that handed it over: after the
/// hand-over of `t` and that sender's parking with `h`, the buffer holds
/// just `t`, and the sender woken by taking it is `h`.
pub proof fn lemma_rendezvous<T>(handed: ChannelInner<T>, parked: ChannelInner<T>, t: T, h: ParkHandle)
    requires
        handed.q@ == seq![t],
        handed.cap == 0,
        parked.q@ == handed.q@,
        parked.cap == handed.cap,
        parked.tx_waiter@ == handed.tx_waiter@.push(h),
    ensures
        parked.wf(),
        parked.q@.len() > 0 && parked.q@[0] == t,
        last_of(parked.tx_waiter@) == Some(h),
{
}

} // verus!
