use std::collections::VecDeque;
use vstd::prelude::*;

use crate::label::Label;

verus! {

/// Why a batch produced no labels. Each request of the batch receives it.
#[derive(Debug, Clone, Copy, PartialEq, Eq, Structural)]
pub enum InferenceError {
    /// The batch's tensors could not be combined into one.
    Stack,
    /// The inference engine failed.
    Engine,
    /// The engine's output did not hold one result per request.
    Output,
}

/// The abstract state of a scheduler.
pub struct SchedulerState<T> {
    /// Admitted requests not yet collected, oldest first.
    pub queue: Seq<T>,
    /// Requests collected in the open window, in admission order.
    pub batch: Seq<T>,
    /// When the open collection window started, if one is open.
    pub window_start: Option<u64>,
    pub batch_size: nat,
    pub max_wait: nat,
}

/// What one poll of the scheduler asks its worker to do.
pub enum Polled<T> {
    /// Run inference on this batch now.
    Ready(Seq<T>),
    /// Wait for an arrival or for this instant, then poll again.
    Pending(u64),
}

/// What one poll of the scheduler asks its worker to do.
pub enum Poll<T> {
    /// Run inference on this batch now: it is non-empty and holds at most
    /// `batch_size` requests, in admission order.
    Ready(Vec<T>),
    /// Wait for an arrival or for this instant (the window's deadline), then
    /// poll again.
    Pending(u64),
}

impl<T> View for Poll<T> {
    type V = Polled<T>;

    open spec fn view(&self) -> Polled<T> {
        match self {
            Poll::Ready(b) => Polled::Ready(b@),
            Poll::Pending(d) => Polled::Pending(*d),
        }
    }
}

/// Time passed since `start`, never negative.
pub open spec fn elapsed(start: u64, now: u64) -> nat {
    if now >= start {
        (now - start) as nat
    } else {
        0
    }
}

/// Requests admitted and not yet handed out: the open batch, then the queue.
pub open spec fn pending<T>(s: SchedulerState<T>) -> Seq<T> {
    s.batch + s.queue
}

/// Requests a poll hands out.
pub open spec fn delivered<T>(p: Polled<T>) -> Seq<T> {
    match p {
        Polled::Ready(b) => b,
        Polled::Pending(_) => Seq::empty(),
    }
}

/// A scheduler with nothing admitted and no window open.
pub open spec fn fresh<T>(batch_size: nat, max_wait: nat) -> SchedulerState<T> {
    SchedulerState {
        queue: Seq::empty(),
        batch: Seq::empty(),
        window_start: None,
        batch_size,
        max_wait,
    }
}

/// Well-formed state: the batch is below capacity (a full batch is handed out
/// at once), requests are collected only inside an open window, and the
/// window's deadline is a representable instant.
pub open spec fn state_wf<T>(s: SchedulerState<T>) -> bool {
    &&& s.batch_size >= 1
    &&& s.max_wait >= 1
    &&& s.batch.len() < s.batch_size
    &&& s.window_start is None ==> s.batch.len() == 0
    &&& s.window_start matches Some(start) ==> start + s.max_wait <= u64::MAX
}

/// The request `item` appended at the tail of the queue.
pub open spec fn submitted<T>(s: SchedulerState<T>, item: T) -> SchedulerState<T> {
    SchedulerState { queue: s.queue.push(item), ..s }
}

/// A window is (re)opened at `now` when none is open, or when the open one
/// has run out without collecting anything.
pub open spec fn opened<T>(s: SchedulerState<T>, now: u64) -> SchedulerState<T> {
    match s.window_start {
        None => SchedulerState { window_start: Some(now), ..s },
        Some(start) => if s.batch.len() == 0 && elapsed(start, now) >= s.max_wait {
            SchedulerState { window_start: Some(now), ..s }
        } else {
            s
        },
    }
}

/// Inside the window, as many requests as fit move from the head of the queue
/// to the tail of the batch.
pub open spec fn drained<T>(s: SchedulerState<T>, now: u64) -> SchedulerState<T> {
    let start = s.window_start->Some_0;
    if elapsed(start, now) < s.max_wait {
        let room = (s.batch_size - s.batch.len()) as nat;
        let k = if room < s.queue.len() {
            room
        } else {
            s.queue.len()
        };
        SchedulerState {
            batch: s.batch + s.queue.take(k as int),
            queue: s.queue.skip(k as int),
            ..s
        }
    } else {
        s
    }
}

/// One poll at `now`: open a window if needed, collect what fits, then hand
/// the batch out if it is full or the window's deadline has passed; else
/// report the deadline.
pub open spec fn poll_step<T>(s: SchedulerState<T>, now: u64) -> (SchedulerState<T>, Polled<T>) {
    let d = drained(opened(s, now), now);
    let start = d.window_start->Some_0;
    if d.batch.len() == d.batch_size || elapsed(start, now) >= d.max_wait {
        (SchedulerState { batch: Seq::empty(), window_start: None, ..d }, Polled::Ready(d.batch))
    } else {
        (d, Polled::Pending((start + d.max_wait) as u64))
    }
}

/// The dynamic batching scheduler: a FIFO admission queue and the batch that
/// the current collection window is filling.
pub struct Scheduler<T> {
    queue: VecDeque<T>,
    batch: Vec<T>,
    window_start: Option<u64>,
    batch_size: usize,
    max_wait: u64,
}

impl<T> View for Scheduler<T> {
    type V = SchedulerState<T>;

    closed spec fn view(&self) -> SchedulerState<T> {
        SchedulerState {
            queue: self.queue@,
            batch: self.batch@,
            window_start: self.window_start,
            batch_size: self.batch_size as nat,
            max_wait: self.max_wait as nat,
        }
    }
}

impl<T> Scheduler<T> {
    pub open spec fn wf(&self) -> bool {
        state_wf(self@)
    }

    /// A scheduler that hands out batches of at most `batch_size` requests and
    /// keeps a collection window open for at most `max_wait` time units.
    pub fn new(batch_size: usize, max_wait: u64) -> (r: Scheduler<T>)
        requires
            batch_size >= 1,
            max_wait >= 1,
        ensures
            r.wf(),
            r@ == fresh::<T>(batch_size as nat, max_wait as nat),
    {
        Scheduler { queue: VecDeque::new(), batch: Vec::new(), window_start: None, batch_size, max_wait }
    }

    pub fn batch_size(&self) -> (r: usize)
        ensures
            r == self@.batch_size,
    {
        self.batch_size
    }

    pub fn max_wait(&self) -> (r: u64)
        ensures
            r == self@.max_wait,
    {
        self.max_wait
    }

    /// Number of admitted requests that no window has collected yet.
    pub fn queued_count(&self) -> (r: usize)
        ensures
            r == self@.queue.len(),
    {
        self.queue.len()
    }

    /// Admits a request at the tail of the queue.
    pub fn submit(&mut self, item: T)
        requires
            old(self).wf(),
        ensures
            final(self).wf(),
            final(self)@ == submitted(old(self)@, item),
    {
        self.queue.push_back(item);
    }

    /// One step of the worker's loop at time `now`; see `poll_step`.
    pub fn poll(&mut self, now: u64) -> (r: Poll<T>)
        requires
            old(self).wf(),
            now as int + old(self)@.max_wait <= u64::MAX,
        ensures
            final(self).wf(),
            (final(self)@, r@) == poll_step(old(self)@, now),
    {
        let ghost s0 = self@;
        let restart = match self.window_start {
            None => true,
            Some(start) => self.batch.len() == 0 && elapsed_since(start, now) >= self.max_wait,
        };
        if restart {
            self.window_start = Some(now);
        }
        let ghost s1 = self@;
        assert(s1 == opened(s0, now));
        let start: u64 = match self.window_start {
            Some(start) => start,
            None => now,
        };
        let waited = elapsed_since(start, now);
        if waited < self.max_wait {
            let room: usize = self.batch_size - self.batch.len();
            let take: usize = if room < self.queue.len() {
                room
            } else {
                self.queue.len()
            };
            let ghost q0 = self.queue@;
            let ghost b0 = self.batch@;
            let mut n: usize = 0;
            while n < take
                invariant
                    take <= q0.len(),
                    n <= take,
                    self.queue@ == q0.skip(n as int),
                    self.batch@ == b0 + q0.take(n as int),
                    self.window_start == s1.window_start,
                    self.batch_size == s1.batch_size,
                    self.max_wait == s1.max_wait,
                decreases take - n,
            {
                match self.queue.pop_front() {
                    Some(item) => {
                        self.batch.push(item);
                    },
                    None => {},
                }
                proof {
                    assert(q0.skip(n as int).subrange(1, q0.skip(n as int).len() as int) =~= q0.skip(
                        n + 1,
                    ));
                    assert(b0 + q0.take(n + 1) =~= (b0 + q0.take(n as int)).push(q0[n as int]));
                }
                n = n + 1;
            }
        }
        assert(self@ == drained(s1, now));
        if self.batch.len() == self.batch_size || waited >= self.max_wait {
            let mut out: Vec<T> = Vec::new();
            std::mem::swap(&mut out, &mut self.batch);
            self.window_start = None;
            assert(self@ == poll_step(s0, now).0);
            Poll::Ready(out)
        } else {
            Poll::Pending(start + self.max_wait)
        }
    }
}

/// Time passed since `start`, never negative.
fn elapsed_since(start: u64, now: u64) -> (r: u64)
    ensures
        r == elapsed(start, now),
{
    if now >= start {
        now - start
    } else {
        0
    }
}

/// The outcome that the request at position `i` of a batch of `n` receives
/// when the batch's inference gave `labels`.
pub open spec fn outcome_of(labels: Result<Seq<Label>, InferenceError>, n: nat, i: int) -> Result<
    Label,
    InferenceError,
> {
    match labels {
        Ok(ls) => if ls.len() == n {
            Ok(ls[i])
        } else {
            Err(InferenceError::Output)
        },
        Err(e) => Err(e),
    }
}

/// The view of an inference result.
pub open spec fn labels_view(labels: &Result<Vec<Label>, InferenceError>) -> Result<
    Seq<Label>,
    InferenceError,
> {
    match labels {
        Ok(ls) => Ok(ls@),
        Err(e) => Err(*e),
    }
}

/// Pairs every request of a batch with its terminal outcome, in batch order:
/// its label when inference gave one label per request, else the batch's
/// error.
pub fn dispatch<T>(batch: Vec<T>, labels: Result<Vec<Label>, InferenceError>) -> (r: Vec<
    (T, Result<Label, InferenceError>),
>)
    ensures
        r@.len() == batch@.len(),
        forall|i: int|
            0 <= i < r@.len() ==> r@[i].0 == batch@[i] && r@[i].1 == outcome_of(
                labels_view(&labels),
                batch@.len(),
                i,
            ),
{
    let n: usize = batch.len();
    let mut rest = batch;
    let mut out: Vec<(T, Result<Label, InferenceError>)> = Vec::new();
    let mut i: usize = 0;
    while i < n
        invariant
            n == batch@.len(),
            i <= n,
            rest@ == batch@.skip(i as int),
            out@.len() == i,
            forall|j: int|
                0 <= j < i ==> out@[j].0 == batch@[j] && out@[j].1 == outcome_of(
                    labels_view(&labels),
                    n as nat,
                    j,
                ),
        decreases n - i,
    {
        let item = rest.remove(0);
        let outcome = match &labels {
            Ok(ls) => if ls.len() == n {
                Ok(ls[i])
            } else {
                Err(InferenceError::Output)
            },
            Err(e) => Err(*e),
        };
        out.push((item, outcome));
        proof {
            assert(batch@.skip(i as int).subrange(1, (n - i) as int) =~= batch@.skip(i + 1));
        }
        i = i + 1;
    }
    out
}

} // verus!
