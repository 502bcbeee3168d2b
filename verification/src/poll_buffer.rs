//! Coordination state of the demand-gated concurrent long-poll buffer.
//!
//! A [`LongPollBuffer`] manages up to K poller loops that run an injected,
//! long-running poll operation against a server, but only performs as many
//! polls as callers have explicitly requested: each call of `poll` issues one
//! demand permit, and a poller loop begins a poll attempt only after acquiring
//! a permit. Completed results go into a bounded FIFO buffer with a single
//! consumer side; a broadcast shutdown flag, monotonic false-to-true, makes
//! every loop exit promptly.
//!
//! This module holds the buffer's entire coordination state and every decision
//! its loops take, as atomic transitions with contracts. The asynchronous
//! driver outside this crate runs the loops: it suspends where a transition is
//! not yet enabled (no permit, empty buffer, full buffer) and hands each
//! wake-up back to a transition here. Each transition's `ensures` names the
//! `step_*` relation it implements, so the laws at the bottom of this module
//! speak about every behaviour the driver can produce.

use vstd::prelude::*;

verus! {

/// Error produced by one failed poll attempt. The buffer neither retries nor
/// suppresses it: it is forwarded verbatim to the caller whose demand it met.
#[derive(Debug, PartialEq, Eq)]
pub struct PollError {
    /// Opaque description carried over from the poll operation.
    pub message: String,
}

/// Where one poller loop stands between two of its atomic transitions.
#[derive(Debug)]
pub enum WorkerPhase<T> {
    /// At the top of the loop, about to re-check the shutdown flag.
    Idle,
    /// Waiting for a demand permit, racing the shutdown signal.
    Waiting,
    /// A poll attempt is in flight; the loop holds one acquired permit.
    Polling,
    /// The poll attempt finished with this result; the permit is consumed and
    /// the result awaits space in the buffer.
    Delivering(Result<T, PollError>),
    /// The loop has exited.
    Done,
}

/// What a poller loop does next after re-checking the shutdown flag.
#[derive(Debug, PartialEq, Eq)]
pub enum LoopDecision {
    /// Shutdown was signalled: the loop exits cleanly.
    Exit,
    /// No shutdown: wait for one unit of demand.
    AwaitDemand,
}

/// What the consumer side finds when it looks for a buffered result.
#[derive(Debug)]
pub enum RecvOutcome<T> {
    /// The oldest buffered result, removed from the buffer.
    Item(Result<T, PollError>),
    /// No result is buffered and every poller loop has exited: no more results
    /// will ever come, by design rather than by failure.
    Closed,
    /// No result is buffered yet, but some loop is still running: the caller
    /// suspends and looks again after the next delivery or exit.
    MustWait,
}

/// How many of the given poller loops have a poll attempt in flight.
pub open spec fn num_polling<T>(ws: Seq<WorkerPhase<T>>) -> int
    decreases ws.len(),
{
    if ws.len() == 0 {
        0
    } else {
        num_polling(ws.drop_last()) + if ws.last() is Polling {
            1int
        } else {
            0int
        }
    }
}

/// Every poller loop has exited.
pub open spec fn all_exited<T>(ws: Seq<WorkerPhase<T>>) -> bool {
    forall|i: int| 0 <= i < ws.len() ==> ws[i] is Done
}

/// How far a poller loop still is from exiting once shutdown is signalled:
/// every transition it can take after that strictly decreases this rank (see
/// [`LongPollBuffer::lemma_shutdown_terminates`]), and rank zero is exactly
/// the exited state.
pub open spec fn worker_rank<T>(p: WorkerPhase<T>) -> nat {
    match p {
        WorkerPhase::Done => 0,
        WorkerPhase::Idle => 1,
        WorkerPhase::Delivering(_) => 2,
        WorkerPhase::Polling => 3,
        WorkerPhase::Waiting => 4,
    }
}

pub proof fn lemma_num_polling_bounds<T>(ws: Seq<WorkerPhase<T>>)
    ensures
        0 <= num_polling(ws) <= ws.len(),
    decreases ws.len(),
{
    if ws.len() > 0 {
        lemma_num_polling_bounds(ws.drop_last());
    }
}

pub proof fn lemma_num_polling_none<T>(ws: Seq<WorkerPhase<T>>)
    requires
        forall|i: int| 0 <= i < ws.len() ==> !(ws[i] is Polling),
    ensures
        num_polling(ws) == 0,
    decreases ws.len(),
{
    if ws.len() > 0 {
        lemma_num_polling_none(ws.drop_last());
    }
}

pub proof fn lemma_num_polling_update<T>(ws: Seq<WorkerPhase<T>>, i: int, p: WorkerPhase<T>)
    requires
        0 <= i < ws.len(),
    ensures
        num_polling(ws.update(i, p)) == num_polling(ws) - (if ws[i] is Polling {
            1int
        } else {
            0int
        }) + (if p is Polling {
            1int
        } else {
            0int
        }),
    decreases ws.len(),
{
    let ws2 = ws.update(i, p);
    if i == ws.len() - 1 {
        assert(ws2.drop_last() =~= ws.drop_last());
    } else {
        assert(ws2.drop_last() =~= ws.drop_last().update(i, p));
        lemma_num_polling_update(ws.drop_last(), i, p);
    }
}

pub proof fn lemma_num_polling_positive<T>(ws: Seq<WorkerPhase<T>>, i: int)
    requires
        0 <= i < ws.len(),
        ws[i] is Polling,
    ensures
        num_polling(ws) >= 1,
    decreases ws.len(),
{
    if i == ws.len() - 1 {
        lemma_num_polling_bounds(ws.drop_last());
    } else {
        lemma_num_polling_positive(ws.drop_last(), i);
    }
}

/// The coordination state of one long-poll buffer: its demand accounting, the
/// bounded result buffer, the shutdown flag, and the phase of each poller
/// loop. The counters record the whole history the contracts speak about.
pub struct LongPollBuffer<T> {
    /// The broadcast shutdown flag; set once, never reset.
    pub shutdown: bool,
    /// Demand permits issued but not yet taken by a poll attempt.
    pub permits: u64,
    /// How many permits callers have issued in total.
    pub permits_issued: u64,
    /// How many permits were consumed by a completed poll attempt.
    pub permits_consumed: u64,
    /// How many poll attempts have ever begun.
    pub polls_started: u64,
    /// How many in-flight waits on a poll attempt the shutdown race abandoned.
    pub polls_abandoned: u64,
    /// Capacity of the result buffer.
    pub capacity: usize,
    /// Completed results awaiting pickup, oldest first.
    pub buffer: std::collections::VecDeque<Result<T, PollError>>,
    /// The phase of each of the K poller loops.
    pub workers: Vec<WorkerPhase<T>>,
    /// Whether the consumer side of the buffer is still attached; once it is
    /// dropped, deliveries are discarded without error.
    pub receiver_open: bool,
}

impl<T> LongPollBuffer<T> {
    /// Demand accounting, which every transition preserves:
    /// each issued permit is still available, held by an in-flight poll
    /// attempt, or consumed by a completed one; each begun poll attempt is in
    /// flight, completed, or had its wait abandoned by the shutdown race; no
    /// wait is abandoned before shutdown is signalled; and the buffer never
    /// exceeds its capacity.
    pub open spec fn inv(&self) -> bool {
        &&& self.buffer@.len() <= self.capacity
        &&& self.permits + num_polling(self.workers@) + self.permits_consumed
            == self.permits_issued
        &&& self.polls_started == num_polling(self.workers@) + self.permits_consumed
            + self.polls_abandoned
        &&& (!self.shutdown ==> self.polls_abandoned == 0)
    }

    /// The fields only [`Self::close_receiver`] may change.
    pub open spec fn same_config(pre: Self, post: Self) -> bool {
        &&& post.capacity == pre.capacity
        &&& post.receiver_open == pre.receiver_open
    }

    /// The five demand counters, unchanged.
    pub open spec fn same_counters(pre: Self, post: Self) -> bool {
        &&& post.permits == pre.permits
        &&& post.permits_issued == pre.permits_issued
        &&& post.permits_consumed == pre.permits_consumed
        &&& post.polls_started == pre.polls_started
        &&& post.polls_abandoned == pre.polls_abandoned
    }

    /// One caller issued one unit of demand.
    pub open spec fn step_request_poll(pre: Self, post: Self) -> bool {
        &&& pre.permits_issued < u64::MAX
        &&& post.permits == pre.permits + 1
        &&& post.permits_issued == pre.permits_issued + 1
        &&& post.permits_consumed == pre.permits_consumed
        &&& post.polls_started == pre.polls_started
        &&& post.polls_abandoned == pre.polls_abandoned
        &&& post.shutdown == pre.shutdown
        &&& post.buffer@ == pre.buffer@
        &&& post.workers@ == pre.workers@
        &&& Self::same_config(pre, post)
    }

    /// Loop `w` saw the shutdown flag at the top of its loop and exited.
    pub open spec fn step_observe_shutdown_exit(pre: Self, post: Self, w: int) -> bool {
        &&& 0 <= w < pre.workers@.len()
        &&& pre.shutdown
        &&& pre.workers@[w] is Idle
        &&& post.workers@ == pre.workers@.update(w, WorkerPhase::Done)
        &&& post.shutdown == pre.shutdown
        &&& post.buffer@ == pre.buffer@
        &&& Self::same_counters(pre, post)
        &&& Self::same_config(pre, post)
    }

    /// Loop `w` found the shutdown flag unset and turned to wait for demand.
    pub open spec fn step_begin_waiting(pre: Self, post: Self, w: int) -> bool {
        &&& 0 <= w < pre.workers@.len()
        &&& !pre.shutdown
        &&& pre.workers@[w] is Idle
        &&& post.workers@ == pre.workers@.update(w, WorkerPhase::Waiting)
        &&& post.shutdown == pre.shutdown
        &&& post.buffer@ == pre.buffer@
        &&& Self::same_counters(pre, post)
        &&& Self::same_config(pre, post)
    }

    /// Loop `w` acquired one available permit and began a poll attempt.
    pub open spec fn step_acquire(pre: Self, post: Self, w: int) -> bool {
        &&& 0 <= w < pre.workers@.len()
        &&& pre.workers@[w] is Waiting
        &&& pre.permits > 0
        &&& pre.polls_started < u64::MAX
        &&& post.workers@ == pre.workers@.update(w, WorkerPhase::Polling)
        &&& post.permits == pre.permits - 1
        &&& post.polls_started == pre.polls_started + 1
        &&& post.permits_issued == pre.permits_issued
        &&& post.permits_consumed == pre.permits_consumed
        &&& post.polls_abandoned == pre.polls_abandoned
        &&& post.shutdown == pre.shutdown
        &&& post.buffer@ == pre.buffer@
        &&& Self::same_config(pre, post)
    }

    /// The shutdown signal beat a permit to loop `w`'s demand wait; the loop
    /// returns to the top without having taken a permit.
    pub open spec fn step_wait_interrupted(pre: Self, post: Self, w: int) -> bool {
        &&& 0 <= w < pre.workers@.len()
        &&& pre.shutdown
        &&& pre.workers@[w] is Waiting
        &&& post.workers@ == pre.workers@.update(w, WorkerPhase::Idle)
        &&& post.shutdown == pre.shutdown
        &&& post.buffer@ == pre.buffer@
        &&& Self::same_counters(pre, post)
        &&& Self::same_config(pre, post)
    }

    /// The shutdown signal beat loop `w`'s in-flight poll attempt: the wait is
    /// abandoned, any late result is discarded, and the permit it held is
    /// returned for later acquisition, so no unit of demand is silently
    /// dropped.
    pub open spec fn step_abandon_poll(pre: Self, post: Self, w: int) -> bool {
        &&& 0 <= w < pre.workers@.len()
        &&& pre.shutdown
        &&& pre.workers@[w] is Polling
        &&& post.workers@ == pre.workers@.update(w, WorkerPhase::Idle)
        &&& post.permits == pre.permits + 1
        &&& post.polls_abandoned == pre.polls_abandoned + 1
        &&& post.permits_issued == pre.permits_issued
        &&& post.permits_consumed == pre.permits_consumed
        &&& post.polls_started == pre.polls_started
        &&& post.shutdown == pre.shutdown
        &&& post.buffer@ == pre.buffer@
        &&& Self::same_config(pre, post)
    }

    /// Loop `w`'s poll attempt completed with result `r`; the permit it held
    /// is consumed for good.
    pub open spec fn step_complete_poll(pre: Self, post: Self, w: int, r: Result<
        T,
        PollError,
    >) -> bool {
        &&& 0 <= w < pre.workers@.len()
        &&& pre.workers@[w] is Polling
        &&& post.workers@ == pre.workers@.update(w, WorkerPhase::Delivering(r))
        &&& post.permits_consumed == pre.permits_consumed + 1
        &&& post.permits == pre.permits
        &&& post.permits_issued == pre.permits_issued
        &&& post.polls_started == pre.polls_started
        &&& post.polls_abandoned == pre.polls_abandoned
        &&& post.shutdown == pre.shutdown
        &&& post.buffer@ == pre.buffer@
        &&& Self::same_config(pre, post)
    }

    /// Loop `w` handed its completed result over: appended to the buffer while
    /// the consumer side is attached, discarded without error once it is not.
    pub open spec fn step_deliver(pre: Self, post: Self, w: int) -> bool {
        &&& 0 <= w < pre.workers@.len()
        &&& pre.workers@[w] matches WorkerPhase::Delivering(r)
        &&& (pre.receiver_open ==> pre.buffer@.len() < pre.capacity && post.buffer@
            == pre.buffer@.push(r))
        &&& (!pre.receiver_open ==> post.buffer@ == pre.buffer@)
        &&& post.workers@ == pre.workers@.update(w, WorkerPhase::Idle)
        &&& post.shutdown == pre.shutdown
        &&& Self::same_counters(pre, post)
        &&& Self::same_config(pre, post)
    }

    /// The consumer removed the oldest buffered result `r`.
    pub open spec fn step_take(pre: Self, post: Self, r: Result<T, PollError>) -> bool {
        &&& pre.buffer@.len() > 0
        &&& r == pre.buffer@[0]
        &&& post.buffer@ == pre.buffer@.subrange(1, pre.buffer@.len() as int)
        &&& post.workers@ == pre.workers@
        &&& post.shutdown == pre.shutdown
        &&& Self::same_counters(pre, post)
        &&& Self::same_config(pre, post)
    }

    /// Shutdown was signalled; nothing else changed.
    pub open spec fn step_notify_shutdown(pre: Self, post: Self) -> bool {
        &&& post.shutdown == true
        &&& post.buffer@ == pre.buffer@
        &&& post.workers@ == pre.workers@
        &&& Self::same_counters(pre, post)
        &&& Self::same_config(pre, post)
    }

    /// The consumer side of the buffer was dropped; nothing else changed.
    pub open spec fn step_close_receiver(pre: Self, post: Self) -> bool {
        &&& post.receiver_open == false
        &&& post.capacity == pre.capacity
        &&& post.shutdown == pre.shutdown
        &&& post.buffer@ == pre.buffer@
        &&& post.workers@ == pre.workers@
        &&& Self::same_counters(pre, post)
    }

    /// Any one transition poller loop `w` can take.
    pub open spec fn worker_step(pre: Self, post: Self, w: int) -> bool {
        ||| Self::step_observe_shutdown_exit(pre, post, w)
        ||| Self::step_begin_waiting(pre, post, w)
        ||| Self::step_acquire(pre, post, w)
        ||| Self::step_wait_interrupted(pre, post, w)
        ||| Self::step_abandon_poll(pre, post, w)
        ||| (exists|r: Result<T, PollError>| Self::step_complete_poll(pre, post, w, r))
        ||| Self::step_deliver(pre, post, w)
    }

    /// A fresh buffer for `concurrent_pollers` loops and a result buffer of
    /// capacity `buffer_size`: no demand yet, no poll begun, every loop at the
    /// top of its loop, shutdown not signalled.
    pub fn new(concurrent_pollers: usize, buffer_size: usize) -> (s: Self)
        ensures
            s.inv(),
            !s.shutdown,
            s.permits == 0,
            s.permits_issued == 0,
            s.permits_consumed == 0,
            s.polls_started == 0,
            s.polls_abandoned == 0,
            s.capacity == buffer_size,
            s.buffer@ == Seq::<Result<T, PollError>>::empty(),
            s.workers@.len() == concurrent_pollers,
            forall|i: int| 0 <= i < concurrent_pollers ==> s.workers@[i] is Idle,
            s.receiver_open,
    {
        let mut workers: Vec<WorkerPhase<T>> = Vec::new();
        let mut i: usize = 0;
        while i < concurrent_pollers
            invariant
                i <= concurrent_pollers,
                workers@.len() == i,
                forall|j: int| 0 <= j < i ==> workers@[j] is Idle,
            decreases concurrent_pollers - i,
        {
            workers.push(WorkerPhase::Idle);
            i = i + 1;
        }
        proof {
            assert(forall|j: int| 0 <= j < workers@.len() ==> !(workers@[j] is Polling));
            lemma_num_polling_none(workers@);
        }
        LongPollBuffer {
            shutdown: false,
            permits: 0,
            permits_issued: 0,
            permits_consumed: 0,
            polls_started: 0,
            polls_abandoned: 0,
            capacity: buffer_size,
            buffer: std::collections::VecDeque::new(),
            workers,
            receiver_open: true,
        }
    }

    /// The demand half of `poll`: add exactly one unit of demand, which any
    /// of the poller loops may later take for one poll attempt. The driver
    /// then awaits the receiving half, [`Self::try_receive`].
    pub fn request_poll(&mut self)
        requires
            old(self).inv(),
            old(self).permits_issued < u64::MAX,
        ensures
            final(self).inv(),
            Self::step_request_poll(*old(self), *final(self)),
    {
        proof {
            lemma_num_polling_bounds(self.workers@);
        }
        self.permits = self.permits + 1;
        self.permits_issued = self.permits_issued + 1;
    }

    /// Loop `w` re-checks the shutdown flag at the top of its loop: it exits
    /// exactly when the flag is set, and otherwise turns to wait for demand.
    pub fn worker_loop_top(&mut self, w: usize) -> (d: LoopDecision)
        requires
            old(self).inv(),
            w < old(self).workers@.len(),
            old(self).workers@[w as int] is Idle,
        ensures
            final(self).inv(),
            d is Exit <==> old(self).shutdown,
            d is Exit ==> Self::step_observe_shutdown_exit(*old(self), *final(self), w as int),
            d is AwaitDemand ==> Self::step_begin_waiting(*old(self), *final(self), w as int),
    {
        proof {
            lemma_num_polling_update(
                self.workers@,
                w as int,
                if self.shutdown {
                    WorkerPhase::Done
                } else {
                    WorkerPhase::Waiting
                },
            );
        }
        if self.shutdown {
            let _ = vec_replace(&mut self.workers, w, WorkerPhase::Done);
            LoopDecision::Exit
        } else {
            let _ = vec_replace(&mut self.workers, w, WorkerPhase::Waiting);
            LoopDecision::AwaitDemand
        }
    }

    /// Loop `w` takes one available permit and begins a poll attempt: this is
    /// the only transition that starts a poll, so no poll is ever begun
    /// without a caller having asked for one.
    pub fn worker_acquire(&mut self, w: usize)
        requires
            old(self).inv(),
            w < old(self).workers@.len(),
            old(self).workers@[w as int] is Waiting,
            old(self).permits > 0,
            old(self).polls_started < u64::MAX,
        ensures
            final(self).inv(),
            Self::step_acquire(*old(self), *final(self), w as int),
    {
        proof {
            lemma_num_polling_update(self.workers@, w as int, WorkerPhase::Polling);
        }
        self.permits = self.permits - 1;
        self.polls_started = self.polls_started + 1;
        let _ = vec_replace(&mut self.workers, w, WorkerPhase::Polling);
    }

    /// The shutdown signal reached loop `w` while it was waiting for demand:
    /// it returns to the top of its loop without a permit.
    pub fn worker_wait_interrupted(&mut self, w: usize)
        requires
            old(self).inv(),
            w < old(self).workers@.len(),
            old(self).workers@[w as int] is Waiting,
            old(self).shutdown,
        ensures
            final(self).inv(),
            Self::step_wait_interrupted(*old(self), *final(self), w as int),
    {
        proof {
            lemma_num_polling_update(self.workers@, w as int, WorkerPhase::Idle);
        }
        let _ = vec_replace(&mut self.workers, w, WorkerPhase::Idle);
    }

    /// The shutdown signal reached loop `w` while its poll attempt was in
    /// flight: the wait is abandoned (the attempt itself is not preempted; its
    /// late result is discarded) and the permit it held is returned for later
    /// acquisition rather than silently dropped.
    pub fn worker_abandon_poll(&mut self, w: usize)
        requires
            old(self).inv(),
            w < old(self).workers@.len(),
            old(self).workers@[w as int] is Polling,
            old(self).shutdown,
        ensures
            final(self).inv(),
            Self::step_abandon_poll(*old(self), *final(self), w as int),
    {
        proof {
            lemma_num_polling_positive(self.workers@, w as int);
            lemma_num_polling_bounds(self.workers@);
            lemma_num_polling_update(self.workers@, w as int, WorkerPhase::Idle);
        }
        self.permits = self.permits + 1;
        self.polls_abandoned = self.polls_abandoned + 1;
        let _ = vec_replace(&mut self.workers, w, WorkerPhase::Idle);
    }

    /// Loop `w`'s poll attempt completed with result `r`: the permit it held
    /// is consumed for good, and the result - success or failure, verbatim -
    /// now awaits space in the buffer.
    pub fn worker_complete_poll(&mut self, w: usize, r: Result<T, PollError>)
        requires
            old(self).inv(),
            w < old(self).workers@.len(),
            old(self).workers@[w as int] is Polling,
        ensures
            final(self).inv(),
            Self::step_complete_poll(*old(self), *final(self), w as int, r),
    {
        proof {
            lemma_num_polling_positive(self.workers@, w as int);
            lemma_num_polling_update(self.workers@, w as int, WorkerPhase::Delivering(r));
        }
        self.permits_consumed = self.permits_consumed + 1;
        let _ = vec_replace(&mut self.workers, w, WorkerPhase::Delivering(r));
    }

    /// Loop `w` hands its completed result over and returns to the top of its
    /// loop: appended at the tail of the buffer while the consumer side is
    /// attached, discarded without error once it is not. The driver calls this
    /// only when the buffer has space, as a bounded send suspends on full.
    pub fn worker_deliver(&mut self, w: usize)
        requires
            old(self).inv(),
            w < old(self).workers@.len(),
            old(self).workers@[w as int] is Delivering,
            old(self).receiver_open ==> old(self).buffer@.len() < old(self).capacity,
        ensures
            final(self).inv(),
            Self::step_deliver(*old(self), *final(self), w as int),
    {
        proof {
            lemma_num_polling_update(self.workers@, w as int, WorkerPhase::Idle);
        }
        let ph = vec_replace(&mut self.workers, w, WorkerPhase::Idle);
        match ph {
            WorkerPhase::Delivering(r) => {
                if self.receiver_open {
                    self.buffer.push_back(r);
                }
            },
            _ => {
                proof {
                    assert(false);
                }
            },
        }
    }

    /// The receiving half of `poll`: remove and return the oldest buffered
    /// result. When nothing is buffered, says whether more results may still
    /// come (the driver suspends) or never will because every poller loop has
    /// exited (`poll` then returns nothing, distinguishing "no more data, by
    /// design" from failure).
    pub fn try_receive(&mut self) -> (out: RecvOutcome<T>)
        requires
            old(self).inv(),
        ensures
            final(self).inv(),
            match out {
                RecvOutcome::Item(r) => Self::step_take(*old(self), *final(self), r),
                RecvOutcome::Closed => old(self).buffer@.len() == 0 && all_exited(
                    old(self).workers@,
                ) && *final(self) == *old(self),
                RecvOutcome::MustWait => old(self).buffer@.len() == 0 && !all_exited(
                    old(self).workers@,
                ) && *final(self) == *old(self),
            },
    {
        if self.buffer.len() != 0 {
            let r = self.buffer.pop_front().unwrap();
            RecvOutcome::Item(r)
        } else if self.workers_all_done() {
            RecvOutcome::Closed
        } else {
            RecvOutcome::MustWait
        }
    }

    /// Whether every poller loop has exited.
    pub fn workers_all_done(&self) -> (b: bool)
        ensures
            b == all_exited(self.workers@),
    {
        let n = self.workers.len();
        let mut i: usize = 0;
        while i < n
            invariant
                i <= n,
                n == self.workers@.len(),
                forall|j: int| 0 <= j < i ==> self.workers@[j] is Done,
            decreases n - i,
        {
            match &self.workers[i] {
                WorkerPhase::Done => {},
                _ => {
                    return false;
                },
            }
            i = i + 1;
        }
        true
    }

    /// Signal shutdown: idempotent and non-blocking; the flag is monotonic
    /// and nothing else changes. Does not wait for the loops to stop - the
    /// driver's own shutdown joins them, after which
    /// [`Self::lemma_shutdown_terminates`] says every loop has exited.
    pub fn notify_shutdown(&mut self)
        requires
            old(self).inv(),
        ensures
            final(self).inv(),
            Self::step_notify_shutdown(*old(self), *final(self)),
    {
        self.shutdown = true;
    }

    /// The consumer side of the buffer is dropped: from here on a delivery is
    /// a no-op failure that the delivering loop swallows.
    pub fn close_receiver(&mut self)
        requires
            old(self).inv(),
        ensures
            final(self).inv(),
            Self::step_close_receiver(*old(self), *final(self)),
    {
        self.receiver_open = false;
    }

    /// Demand gating: in every reachable state, the number of poll attempts
    /// in flight never exceeds the number of poller loops, the issued demand
    /// splits exactly into available permits, in-flight attempts and consumed
    /// permits, and - as long as shutdown was never signalled - the number of
    /// poll attempts ever begun never exceeds the demand ever issued.
    pub proof fn lemma_demand_gating(s: Self)
        requires
            s.inv(),
        ensures
            num_polling(s.workers@) <= s.workers@.len(),
            s.permits + num_polling(s.workers@) + s.permits_consumed == s.permits_issued,
            !s.shutdown ==> s.polls_started <= s.permits_issued,
    {
        lemma_num_polling_bounds(s.workers@);
    }

    /// Serial polling: as long as shutdown was never signalled, the poll
    /// attempts ever begun and the permits still unmet add up exactly to the
    /// demand ever issued. So a caller that issues its `poll` calls strictly
    /// sequentially, each fully awaited (leaving no unmet permit), gets
    /// exactly one underlying poll attempt per call, however many loops are
    /// configured.
    pub proof fn lemma_serial_polling(s: Self)
        requires
            s.inv(),
            !s.shutdown,
        ensures
            s.polls_started + s.permits == s.permits_issued,
    {
    }

    /// Shutdown terminates cleanly: once the shutdown flag is set it stays
    /// set, and every transition a poller loop can still take strictly
    /// decreases that loop's [`worker_rank`]. The rank is at most four and is
    /// zero exactly in the exited state, which admits no further transition
    /// (see [`Self::lemma_exited_is_final`] and
    /// [`Self::lemma_exited_buffer_is_quiescent`]): each loop therefore exits within
    /// at most four more of its transitions, and a `poll` issued afterwards is
    /// answered with [`RecvOutcome::Closed`] once the buffered results are
    /// exhausted, rather than hanging or failing.
    pub proof fn lemma_shutdown_terminates(pre: Self, post: Self, w: int)
        requires
            pre.shutdown,
            Self::worker_step(pre, post, w),
        ensures
            post.shutdown,
            0 <= w < post.workers@.len(),
            worker_rank(post.workers@[w]) < worker_rank(pre.workers@[w]),
            worker_rank(pre.workers@[w]) <= 4,
    {
    }

    /// An exited poller loop takes no further transition.
    pub proof fn lemma_exited_is_final(pre: Self, post: Self, w: int)
        requires
            Self::worker_step(pre, post, w),
        ensures
            !(pre.workers@[w] is Done),
    {
    }

    /// What the driver's join hands back once shutdown has resolved: with
    /// every poller loop exited, no poller-loop transition exists any more
    /// and no poll attempt is in flight, so no new poll can ever begin and no
    /// further result can ever be produced.
    pub proof fn lemma_exited_buffer_is_quiescent(pre: Self, post: Self, w: int)
        requires
            all_exited(pre.workers@),
        ensures
            !Self::worker_step(pre, post, w),
            num_polling(pre.workers@) == 0,
    {
        assert(forall|i: int|
            0 <= i < pre.workers@.len() ==> !(pre.workers@[i] is Polling));
        lemma_num_polling_none(pre.workers@);
    }

    /// The demand accounting of [`Self::inv`] is closed under every poller-loop
    /// transition: with [`Self::lemma_demand_gating`] it therefore holds at
    /// any instant of any run, however the loops interleave.
    pub proof fn lemma_worker_step_preserves_inv(pre: Self, post: Self, w: int)
        requires
            pre.inv(),
            Self::worker_step(pre, post, w),
        ensures
            post.inv(),
    {
        if Self::step_observe_shutdown_exit(pre, post, w) {
            lemma_num_polling_update(pre.workers@, w, WorkerPhase::Done);
        } else if Self::step_begin_waiting(pre, post, w) {
            lemma_num_polling_update(pre.workers@, w, WorkerPhase::Waiting);
        } else if Self::step_acquire(pre, post, w) {
            lemma_num_polling_update(pre.workers@, w, WorkerPhase::Polling);
        } else if Self::step_wait_interrupted(pre, post, w) {
            lemma_num_polling_update(pre.workers@, w, WorkerPhase::Idle);
        } else if Self::step_abandon_poll(pre, post, w) {
            lemma_num_polling_update(pre.workers@, w, WorkerPhase::Idle);
        } else if exists|r: Result<T, PollError>| Self::step_complete_poll(pre, post, w, r) {
            let r = choose|r: Result<T, PollError>| Self::step_complete_poll(pre, post, w, r);
            lemma_num_polling_update(pre.workers@, w, WorkerPhase::Delivering(r));
        } else {
            lemma_num_polling_update(pre.workers@, w, WorkerPhase::Idle);
        }
    }
}

/// Replace element `i` of `v` by `x`, returning the old element.
fn vec_replace<A>(v: &mut Vec<A>, i: usize, x: A) -> (r: A)
    requires
        i < old(v).len(),
    ensures
        r == old(v)@[i as int],
        final(v)@ == old(v)@.update(i as int, x),
{
    let slot = &mut v[i];
    let mut tmp = x;
    core::mem::swap(slot, &mut tmp);
    tmp
}

} // verus!
