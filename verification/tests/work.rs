use burninator::work::{busy_work, spin_step, Progress, Spin, NANOS_PER_SECOND, STALL_LIMIT};
use std::time::{Duration, Instant};

#[test]
fn a_second_has_a_billion_nanoseconds() {
    assert_eq!(NANOS_PER_SECOND, 1_000_000_000);
    assert_eq!(STALL_LIMIT, u64::MAX);
}

#[test]
fn reading_at_the_target_ends_the_work() {
    let progress = Progress { seen: 5, stalled: 2 };
    assert_eq!(spin_step(100, progress, 100), Spin::Done(100));
    assert_eq!(spin_step(100, progress, 101), Spin::Done(101));
    assert_eq!(spin_step(0, Progress { seen: 0, stalled: 0 }, 0), Spin::Done(0));
}

#[test]
fn later_reading_is_remembered() {
    let progress = Progress { seen: 5, stalled: 2 };
    assert_eq!(
        spin_step(100, progress, 6),
        Spin::Busy(Progress { seen: 6, stalled: 0 })
    );
    assert_eq!(
        spin_step(100, progress, 99),
        Spin::Busy(Progress { seen: 99, stalled: 0 })
    );
}

#[test]
fn reading_that_brings_nothing_new_is_counted() {
    let progress = Progress { seen: 5, stalled: 2 };
    assert_eq!(
        spin_step(100, progress, 5),
        Spin::Busy(Progress { seen: 5, stalled: 3 })
    );
    assert_eq!(
        spin_step(100, progress, 0),
        Spin::Busy(Progress { seen: 5, stalled: 3 })
    );
}

#[test]
fn clock_that_stands_still_ends_the_work() {
    let progress = Progress { seen: 5, stalled: u64::MAX - 1 };
    assert_eq!(
        spin_step(100, progress, 5),
        Spin::Busy(Progress { seen: 5, stalled: u64::MAX })
    );
    let progress = Progress { seen: 5, stalled: u64::MAX };
    assert_eq!(spin_step(100, progress, 5), Spin::Stuck);
    assert_eq!(
        spin_step(100, progress, 6),
        Spin::Busy(Progress { seen: 6, stalled: 0 })
    );
    assert_eq!(spin_step(100, progress, 100), Spin::Done(100));
}

#[test]
fn no_seconds_of_work_end_at_once() {
    let begin = Instant::now();
    assert!(busy_work(0).is_some());
    assert!(begin.elapsed() < Duration::from_secs(5));
}

#[test]
fn work_lasts_as_long_as_asked() {
    let begin = Instant::now();
    let spent = busy_work(1).unwrap();
    let outside = begin.elapsed();
    assert!(spent >= 1_000_000_000);
    assert!(outside >= Duration::from_secs(1));
    assert!(outside.as_nanos() >= spent);
    assert!(outside < Duration::from_secs(10));
}
