use vstd::prelude::*;

use crate::label::Label;
use crate::scheduler::{
    delivered, drained, elapsed, fresh, opened, outcome_of, pending, poll_step, state_wf, submitted,
    InferenceError, Polled, SchedulerState,
};

verus! {

/// A poll neither loses nor duplicates nor reorders requests: what was pending
/// before is exactly what it hands out followed by what is still pending, and
/// a handed-out batch is non-empty and holds at most `batch_size` requests.
/// Admission appends the request once at the tail.
pub proof fn lemma_exactly_once<T>(s: SchedulerState<T>, now: u64, item: T)
    requires
        state_wf(s),
        now as int + s.max_wait <= u64::MAX,
    ensures
        pending(s) == delivered(poll_step(s, now).1) + pending(poll_step(s, now).0),
        state_wf(poll_step(s, now).0),
        poll_step(s, now).1 matches Polled::Ready(b) ==> 0 < b.len() <= s.batch_size,
        pending(submitted(s, item)) == pending(s).push(item),
        state_wf(submitted(s, item)),
{
    let (s2, p) = poll_step(s, now);
    let o = opened(s, now);
    let d = drained(o, now);
    let room = (d.batch_size - o.batch.len()) as nat;
    assert(pending(o) == pending(s));
    if elapsed(o.window_start->Some_0, now) < o.max_wait {
        let k = if room < o.queue.len() {
            room
        } else {
            o.queue.len()
        };
        assert(o.queue =~= o.queue.take(k as int) + o.queue.skip(k as int));
        assert(pending(d) =~= pending(o));
    }
    match p {
        Polled::Ready(b) => {
            assert(pending(s) =~= b + pending(s2));
        },
        Polled::Pending(_) => {
            assert(pending(s) =~= Seq::<T>::empty() + pending(s2));
        },
    }
    assert(pending(submitted(s, item)) =~= pending(s).push(item));
}

/// A poll that hands out a batch starting with `first`.
pub open spec fn hands_out_first<T>(p: Polled<T>, first: T) -> bool {
    p matches Polled::Ready(b) && b.len() > 0 && b[0] == first
}

/// No request waits forever: whenever something is pending, a poll hands out
/// a batch that starts with the oldest pending request, or reports a deadline
/// at or after which the next poll does so. With the order kept, every
/// request is handed out after finitely many such polls.
pub proof fn lemma_progress<T>(s: SchedulerState<T>, t1: u64, t2: u64)
    requires
        state_wf(s),
        pending(s).len() > 0,
        t1 as int + s.max_wait <= u64::MAX,
        t2 as int + s.max_wait <= u64::MAX,
    ensures
        ({
            let (s1, p1) = poll_step(s, t1);
            ||| hands_out_first(p1, pending(s)[0])
            ||| (p1 matches Polled::Pending(deadline) && (t2 >= deadline ==> hands_out_first(
                poll_step(s1, t2).1,
                pending(s)[0],
            )))
        }),
{
    lemma_exactly_once(s, t1, pending(s)[0]);
    let (s1, p1) = poll_step(s, t1);
    let o = opened(s, t1);
    let d = drained(o, t1);
    if elapsed(o.window_start->Some_0, t1) < o.max_wait && o.batch.len() == 0 {
        assert(d.batch.len() > 0);
        assert(d.batch[0] == o.queue[0]);
    }
    assert(d.batch.len() > 0);
    assert(d.batch[0] == pending(s)[0]);
    match p1 {
        Polled::Ready(b) => {},
        Polled::Pending(deadline) => {
            assert(s1 == d);
            if t2 >= deadline {
                assert(opened(s1, t2) == s1);
                assert(drained(s1, t2) == s1);
            }
        },
    }
}

/// One thing that happens to a scheduler: a request is submitted, or the
/// worker polls at some instant.
pub enum Event<T> {
    Submit(T),
    Tick(u64),
}

/// The scheduler's state after `events`, and every request handed out on
/// the way, in the order handed out.
pub open spec fn run<T>(s: SchedulerState<T>, events: Seq<Event<T>>) -> (SchedulerState<T>, Seq<T>)
    decreases events.len(),
{
    if events.len() == 0 {
        (s, Seq::empty())
    } else {
        let (s1, out) = run(s, events.drop_last());
        match events.last() {
            Event::Submit(item) => (submitted(s1, item), out),
            Event::Tick(now) => {
                let (s2, p) = poll_step(s1, now);
                (s2, out + delivered(p))
            },
        }
    }
}

/// The requests submitted among `events`, in order.
pub open spec fn arrivals<T>(events: Seq<Event<T>>) -> Seq<T>
    decreases events.len(),
{
    if events.len() == 0 {
        Seq::empty()
    } else {
        match events.last() {
            Event::Submit(item) => arrivals(events.drop_last()).push(item),
            Event::Tick(_) => arrivals(events.drop_last()),
        }
    }
}

/// Every poll of `events` happens at an instant whose deadline is
/// representable.
pub open spec fn ticks_in_range<T>(events: Seq<Event<T>>, max_wait: nat) -> bool {
    forall|i: int|
        0 <= i < events.len() ==> (#[trigger] events[i] matches Event::Tick(now) ==> now as int
            + max_wait <= u64::MAX)
}

/// Over any run of submissions and polls, each request is handed out at most
/// once and in submission order, and none is lost: what was handed out,
/// followed by what is still pending, is exactly what was pending at the
/// start followed by everything submitted.
pub proof fn lemma_run_delivers_exactly_once<T>(s: SchedulerState<T>, events: Seq<Event<T>>)
    requires
        state_wf(s),
        ticks_in_range(events, s.max_wait),
    ensures
        run(s, events).1 + pending(run(s, events).0) == pending(s) + arrivals(events),
        state_wf(run(s, events).0),
        run(s, events).0.max_wait == s.max_wait,
        run(s, events).0.batch_size == s.batch_size,
    decreases events.len(),
{
    if events.len() > 0 {
        let prefix = events.drop_last();
        assert(ticks_in_range(prefix, s.max_wait)) by {
            assert forall|i: int| 0 <= i < prefix.len() implies (#[trigger] prefix[i] matches Event::Tick(
                now,
            ) ==> now as int + s.max_wait <= u64::MAX) by {
                assert(i < events.len());
                assert(prefix[i] == events[i]);
            }
        }
        lemma_run_delivers_exactly_once(s, prefix);
        let (s1, out) = run(s, prefix);
        assert(events.last() == events[events.len() - 1]);
        match events.last() {
            Event::Submit(item) => {
                assert(pending(submitted(s1, item)) =~= pending(s1).push(item));
                assert(arrivals(events) == arrivals(prefix).push(item));
                assert(out + pending(s1).push(item) =~= (out + pending(s1)).push(item));
                assert((pending(s) + arrivals(prefix)).push(item) =~= pending(s) + arrivals(
                    prefix,
                ).push(item));
            },
            Event::Tick(now) => {
                lemma_exactly_once(s1, now, arbitrary());
                let (s2, p) = poll_step(s1, now);
                assert(out + delivered(p) + pending(s2) =~= out + pending(s1));
                assert(arrivals(events) == arrivals(prefix));
            },
        }
    }
}

/// With batches of one, requests submitted in order are handed out one per
/// poll in that same order, whatever the poll times.
pub proof fn lemma_singleton_batches_in_order<T>(
    max_wait: nat,
    r1: T,
    r2: T,
    r3: T,
    t1: u64,
    t2: u64,
    t3: u64,
)
    requires
        max_wait >= 1,
        t1 as int + max_wait <= u64::MAX,
        t2 as int + max_wait <= u64::MAX,
        t3 as int + max_wait <= u64::MAX,
    ensures
        ({
            let s0 = submitted(submitted(submitted(fresh::<T>(1, max_wait), r1), r2), r3);
            let (s1, p1) = poll_step(s0, t1);
            let (s2, p2) = poll_step(s1, t2);
            let (_, p3) = poll_step(s2, t3);
            &&& p1 == Polled::Ready(seq![r1])
            &&& p2 == Polled::Ready(seq![r2])
            &&& p3 == Polled::Ready(seq![r3])
        }),
{
    let s0 = submitted(submitted(submitted(fresh::<T>(1, max_wait), r1), r2), r3);
    assert(s0.queue =~= seq![r1, r2, r3]);
    let (s1, p1) = poll_step(s0, t1);
    assert(seq![r1, r2, r3].take(1) =~= seq![r1]);
    assert(seq![r1, r2, r3].skip(1) =~= seq![r2, r3]);
    assert(Seq::<T>::empty() + seq![r1] =~= seq![r1]);
    assert(s1.queue =~= seq![r2, r3]);
    let (s2, p2) = poll_step(s1, t2);
    assert(seq![r2, r3].take(1) =~= seq![r2]);
    assert(seq![r2, r3].skip(1) =~= seq![r3]);
    assert(Seq::<T>::empty() + seq![r2] =~= seq![r2]);
    assert(s2.queue =~= seq![r3]);
    assert(seq![r3].take(1) =~= seq![r3]);
    assert(Seq::<T>::empty() + seq![r3] =~= seq![r3]);
}

/// When more than `batch_size` requests wait and no window is open, the next
/// poll hands out exactly the first `batch_size` of them; when at most
/// `batch_size` remain after that, the following batch holds exactly those,
/// handed out at once if it is full or once its window's deadline has passed.
pub proof fn lemma_batch_capping<T>(
    items: Seq<T>,
    batch_size: nat,
    max_wait: nat,
    t1: u64,
    t2: u64,
    t3: u64,
)
    requires
        batch_size >= 1,
        max_wait >= 1,
        batch_size < items.len() <= 2 * batch_size,
        t1 as int + max_wait <= u64::MAX,
        t2 as int + max_wait <= u64::MAX,
        t3 as int + max_wait <= u64::MAX,
        t3 >= t2 + max_wait,
    ensures
        ({
            let s0 = SchedulerState { queue: items, ..fresh::<T>(batch_size, max_wait) };
            let (s1, p1) = poll_step(s0, t1);
            let (s2, p2) = poll_step(s1, t2);
            let (_, p3) = poll_step(s2, t3);
            &&& p1 == Polled::Ready(items.take(batch_size as int))
            &&& s1.queue == items.skip(batch_size as int)
            &&& (p2 == Polled::Ready(items.skip(batch_size as int)) || (p2 is Pending && p3
                == Polled::Ready(items.skip(batch_size as int))))
        }),
{
    let s0 = SchedulerState { queue: items, ..fresh::<T>(batch_size, max_wait) };
    let (s1, p1) = poll_step(s0, t1);
    assert(Seq::<T>::empty() + items.take(batch_size as int) =~= items.take(batch_size as int));
    let rest = items.skip(batch_size as int);
    let (s2, p2) = poll_step(s1, t2);
    assert(rest.take(rest.len() as int) =~= rest);
    assert(rest.skip(rest.len() as int) =~= Seq::<T>::empty());
    assert(Seq::<T>::empty() + rest =~= rest);
    if p2 is Pending {
        assert(s2.batch == rest);
        assert(rest.len() > 0);
    }
}

/// A partial batch is never starved: when fewer than `batch_size` requests
/// wait and none has been collected yet, a poll collects them all and reports
/// its window's deadline, and with no further arrivals a poll at or after that
/// deadline hands them all out.
pub proof fn lemma_timeout_flush<T>(s: SchedulerState<T>, t1: u64, t2: u64)
    requires
        state_wf(s),
        s.batch.len() == 0,
        0 < s.queue.len() < s.batch_size,
        t1 as int + s.max_wait <= u64::MAX,
        t2 as int + s.max_wait <= u64::MAX,
    ensures
        ({
            let (s1, p1) = poll_step(s, t1);
            p1 matches Polled::Pending(deadline) && (t2 >= deadline ==> poll_step(s1, t2).1
                == Polled::Ready(s.queue))
        }),
{
    let (s1, p1) = poll_step(s, t1);
    let o = opened(s, t1);
    assert(o.queue.take(o.queue.len() as int) =~= o.queue);
    assert(o.queue.skip(o.queue.len() as int) =~= Seq::<T>::empty());
    assert(Seq::<T>::empty() + o.queue =~= o.queue);
    assert(s1.batch =~= s.queue);
}

/// A failed batch affects only its own requests: each of them receives the
/// batch's error, while a later batch whose inference gave one label per
/// request delivers each request its own label.
pub proof fn lemma_failure_isolation(
    failed_len: nat,
    error: InferenceError,
    labels: Seq<Label>,
)
    ensures
        forall|i: int| 0 <= i < failed_len ==> outcome_of(Err(error), failed_len, i) == Err::<Label, InferenceError>(error),
        forall|i: int|
            0 <= i < labels.len() ==> outcome_of(Ok(labels), labels.len(), i) == Ok::<Label, InferenceError>(labels[i]),
{
}

} // verus!
