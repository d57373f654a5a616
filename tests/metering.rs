use gas_meter::meter::{Meter, MeterError, Poll, Step};
use gas_meter::shutdown::{join_outcome, JoinToken};

fn drain_until_empty(m: &mut Meter, queue: &mut Vec<u64>) {
    let mut i: usize = 0;
    while i < queue.len() {
        assert_eq!(m.drain_step(Poll::Value(queue[i])), Ok(Step::Continue));
        i += 1;
    }
    queue.clear();
    assert_eq!(m.drain_step(Poll::Empty), Ok(Step::Continue));
}

#[test]
fn one_producer_three_values_total_one_thousand() {
    let mut m = Meter::new();
    let mut queue = vec![100, 250, 650];
    drain_until_empty(&mut m, &mut queue);
    assert_eq!(m.elapsed(), 1000);
}

#[test]
fn reset_between_submissions_keeps_only_later_events() {
    let mut m = Meter::new();
    drain_until_empty(&mut m, &mut vec![100]);
    m.reset();
    drain_until_empty(&mut m, &mut vec![5]);
    assert_eq!(m.elapsed(), 5);
}

#[test]
fn two_producers_five_hundred_ones_each() {
    let a = vec![1u64; 500];
    let b = vec![1u64; 500];
    // Three interleavings of the two producers' streams.
    let mut orders: Vec<Vec<u64>> = Vec::new();
    let mut alternating = Vec::new();
    for i in 0..500usize {
        alternating.push(a[i]);
        alternating.push(b[i]);
    }
    orders.push(alternating);
    orders.push([a.clone(), b.clone()].concat());
    orders.push([b.clone(), a.clone()].concat());
    for order in orders {
        let mut m = Meter::new();
        let mut queue = order;
        drain_until_empty(&mut m, &mut queue);
        assert_eq!(m.elapsed(), 1000);
    }
}

#[test]
fn second_shutdown_finds_no_join_handle() {
    let mut token = JoinToken::new(7u32);
    assert!(!token.is_spent());
    assert_eq!(token.take(), Some(7));
    assert!(token.is_spent());
    assert_eq!(token.take(), None);
    assert!(token.is_spent());
}

#[test]
fn new_meter_is_zero_and_open() {
    let m = Meter::new();
    assert_eq!(m.elapsed(), 0);
    assert!(!m.close);
}

#[test]
fn reset_with_no_further_events_reads_zero() {
    let mut m = Meter::new();
    drain_until_empty(&mut m, &mut vec![42, 8]);
    assert_eq!(m.elapsed(), 50);
    m.reset();
    assert_eq!(m.drain_step(Poll::Empty), Ok(Step::Continue));
    assert_eq!(m.elapsed(), 0);
}

#[test]
fn reset_keeps_close_flag() {
    let mut m = Meter { close: true, elapsed: 9 };
    m.reset();
    assert!(m.close);
    assert_eq!(m.elapsed(), 0);
}

#[test]
fn elapsed_repeated_reads_agree() {
    let mut m = Meter::new();
    drain_until_empty(&mut m, &mut vec![3, 4]);
    let first = m.elapsed();
    assert_eq!(m.drain_step(Poll::Empty), Ok(Step::Continue));
    let second = m.elapsed();
    let third = m.elapsed();
    assert_eq!(first, 7);
    assert_eq!(first, second);
    assert_eq!(second, third);
}

#[test]
fn close_is_honoured_only_after_the_queue_is_empty() {
    let mut m = Meter::new();
    assert_eq!(m.drain_step(Poll::Value(10)), Ok(Step::Continue));
    m.request_close();
    assert!(m.close);
    assert_eq!(m.elapsed(), 0);
    // A value still queued is folded in before the loop may stop.
    assert_eq!(m.drain_step(Poll::Value(6)), Ok(Step::Continue));
    assert_eq!(m.elapsed(), 6);
    assert!(m.close);
    assert_eq!(m.drain_step(Poll::Empty), Ok(Step::Stop));
}

#[test]
fn disconnected_channel_stops_without_close() {
    let mut m = Meter::new();
    assert_eq!(m.drain_step(Poll::Value(2)), Ok(Step::Continue));
    assert_eq!(m.drain_step(Poll::Disconnected), Ok(Step::Stop));
    assert_eq!(m.elapsed(), 2);
    assert!(!m.close);
}

#[test]
fn total_may_reach_the_largest_value() {
    let mut m = Meter::new();
    assert_eq!(m.drain_step(Poll::Value(u64::MAX - 1)), Ok(Step::Continue));
    assert_eq!(m.drain_step(Poll::Value(1)), Ok(Step::Continue));
    assert_eq!(m.elapsed(), u64::MAX);
}

#[test]
fn overflowing_value_is_reported_and_total_kept() {
    let mut m = Meter::new();
    assert_eq!(m.drain_step(Poll::Value(u64::MAX)), Ok(Step::Continue));
    assert_eq!(m.drain_step(Poll::Value(1)), Err(MeterError::Overflow));
    assert_eq!(m.elapsed(), u64::MAX);
}

#[test]
fn join_outcome_maps_every_ending() {
    assert_eq!(join_outcome(Some(Ok(()))), Ok(()));
    assert_eq!(join_outcome(None), Err(MeterError::WorkerJoinFailed));
    assert_eq!(
        join_outcome(Some(Err(MeterError::LockPoisoned))),
        Err(MeterError::WorkerJoinFailed)
    );
    assert_eq!(
        join_outcome(Some(Err(MeterError::Overflow))),
        Err(MeterError::WorkerJoinFailed)
    );
}
