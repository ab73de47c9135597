use cjj_timer::clock::Clock;

#[test]
fn elapsed_is_zero_before_any_start() {
    let c = Clock::new();
    assert_eq!(c.elapsed(0), 0);
    assert_eq!(c.elapsed(5_000), 0);
}

#[test]
fn elapsed_tracks_running_interval() {
    let mut c = Clock::new();
    c.start(10);
    assert_eq!(c.elapsed(10), 0);
    assert_eq!(c.elapsed(15), 5);
    assert_eq!(c.elapsed(25), 15);
}

#[test]
fn elapsed_is_monotonic_and_idempotent() {
    let mut c = Clock::new();
    c.start(100);
    let a = c.elapsed(150);
    let b = c.elapsed(150);
    let later = c.elapsed(200);
    assert_eq!(a, b);
    assert!(later >= a);
    c.stop(200);
    let frozen1 = c.elapsed(250);
    let frozen2 = c.elapsed(1_000_000);
    assert_eq!(frozen1, 100);
    assert_eq!(frozen2, 100);
}

#[test]
fn stop_commits_and_start_resumes() {
    let mut c = Clock::new();
    c.start(0);
    c.stop(30);
    assert_eq!(c.elapsed(50), 30);
    c.start(50);
    assert_eq!(c.elapsed(70), 50);
}

#[test]
fn start_is_a_no_op_while_running() {
    let mut c = Clock::new();
    c.start(10);
    c.start(40);
    assert_eq!(c.elapsed(50), 40);
}

#[test]
fn stop_is_a_no_op_while_stopped() {
    let mut c = Clock::new();
    c.start(0);
    c.stop(20);
    c.stop(80);
    assert_eq!(c.elapsed(100), 20);
}

#[test]
fn arithmetic_saturates_instead_of_failing() {
    let mut c = Clock::new();
    c.start(u64::MAX - 1);
    assert_eq!(c.elapsed(u64::MAX), 1);
    let mut d = Clock {
        total_ms: u64::MAX - 5,
        running_since: Some(0),
    };
    assert_eq!(d.elapsed(100), u64::MAX);
    d.stop(100);
    assert_eq!(d.elapsed(200), u64::MAX);
}
