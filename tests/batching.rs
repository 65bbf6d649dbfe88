use audio_labeller::{dispatch, InferenceError, Label, Poll, Scheduler};

fn ready(p: Poll<u32>) -> Vec<u32> {
    match p {
        Poll::Ready(b) => b,
        Poll::Pending(d) => panic!("expected a batch, got a deadline {}", d),
    }
}

#[test]
fn singleton_batches_keep_submission_order() {
    let mut s = Scheduler::new(1, 100);
    s.submit(1);
    s.submit(2);
    s.submit(3);
    assert_eq!(ready(s.poll(0)), vec![1]);
    assert_eq!(ready(s.poll(0)), vec![2]);
    assert_eq!(ready(s.poll(5)), vec![3]);
    assert!(matches!(s.poll(6), Poll::Pending(106)));
}

#[test]
fn batches_are_capped_at_batch_size() {
    let mut s = Scheduler::new(3, 10_000);
    for i in 0..5 {
        s.submit(i);
    }
    assert_eq!(ready(s.poll(0)), vec![0, 1, 2]);
    assert_eq!(s.queued_count(), 2);
    assert!(matches!(s.poll(1), Poll::Pending(10_001)));
    assert_eq!(ready(s.poll(10_001)), vec![3, 4]);
}

#[test]
fn partial_batch_is_flushed_after_the_window() {
    let mut s = Scheduler::new(8, 100);
    s.submit(7);
    s.submit(8);
    assert!(matches!(s.poll(50), Poll::Pending(150)));
    assert!(matches!(s.poll(149), Poll::Pending(150)));
    assert_eq!(ready(s.poll(150)), vec![7, 8]);
}

#[test]
fn arrivals_during_the_window_join_the_batch() {
    let mut s = Scheduler::new(3, 100);
    s.submit(1);
    assert!(matches!(s.poll(0), Poll::Pending(100)));
    s.submit(2);
    assert!(matches!(s.poll(40), Poll::Pending(100)));
    s.submit(3);
    s.submit(4);
    assert_eq!(ready(s.poll(60)), vec![1, 2, 3]);
    assert_eq!(s.queued_count(), 1);
}

#[test]
fn empty_window_restarts_without_a_batch() {
    let mut s: Scheduler<u32> = Scheduler::new(2, 100);
    assert!(matches!(s.poll(0), Poll::Pending(100)));
    assert!(matches!(s.poll(100), Poll::Pending(200)));
    s.submit(9);
    assert!(matches!(s.poll(150), Poll::Pending(200)));
    assert_eq!(ready(s.poll(200)), vec![9]);
}

#[test]
fn every_request_gets_exactly_one_outcome() {
    let out = dispatch(vec![10, 11, 12], Ok(vec![Label::Music, Label::Speech, Label::Noise]));
    assert_eq!(
        out,
        vec![(10, Ok(Label::Music)), (11, Ok(Label::Speech)), (12, Ok(Label::Noise))]
    );
}

#[test]
fn failed_batch_gives_every_request_the_error() {
    let out = dispatch(vec![1, 2], Err(InferenceError::Engine));
    assert_eq!(out, vec![(1, Err(InferenceError::Engine)), (2, Err(InferenceError::Engine))]);
}

#[test]
fn label_count_mismatch_is_an_error_for_all() {
    let out = dispatch(vec![1, 2], Ok(vec![Label::Speech]));
    assert_eq!(out, vec![(1, Err(InferenceError::Output)), (2, Err(InferenceError::Output))]);
}

#[test]
fn failure_does_not_stop_the_next_batch() {
    let mut s = Scheduler::new(2, 100);
    s.submit(1);
    s.submit(2);
    let first = ready(s.poll(0));
    let failed = dispatch(first, Err(InferenceError::Stack));
    assert!(failed.iter().all(|(_, o)| o.is_err()));
    s.submit(3);
    s.submit(4);
    let second = ready(s.poll(10));
    let done = dispatch(second, Ok(vec![Label::Speech, Label::Music]));
    assert_eq!(done, vec![(3, Ok(Label::Speech)), (4, Ok(Label::Music))]);
}
