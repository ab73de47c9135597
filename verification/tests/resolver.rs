use cjj_timer::segments::{resolve_segments, Fighter, Segment};

#[test]
fn double_submission_faster_wins() {
    let log = vec![Segment::Submission(3_000), Segment::Submission(5_000)];
    assert_eq!(resolve_segments(&log), Some(Fighter::A));
}

#[test]
fn double_submission_tie_goes_to_b() {
    let log = vec![Segment::Submission(4_000), Segment::Submission(4_000)];
    assert_eq!(resolve_segments(&log), Some(Fighter::B));
}

#[test]
fn submission_beats_escape() {
    let log = vec![Segment::Escape(10_000), Segment::Submission(4_000)];
    assert_eq!(resolve_segments(&log), Some(Fighter::B));
    let log = vec![Segment::Submission(10_000), Segment::Escape(1_000)];
    assert_eq!(resolve_segments(&log), Some(Fighter::A));
}

#[test]
fn two_escapes_is_no_decision_before_six_rounds() {
    let log = vec![Segment::Escape(5_000), Segment::Escape(6_000)];
    assert_eq!(resolve_segments(&log), None);
    let log = vec![
        Segment::Escape(5_000),
        Segment::Escape(6_000),
        Segment::Escape(7_000),
        Segment::Escape(8_000),
    ];
    assert_eq!(resolve_segments(&log), None);
}

#[test]
fn six_escapes_smaller_cumulative_time_wins() {
    // Fighter A's rounds (even indices) sum to 30 s, Fighter B's to 25 s.
    let log = vec![
        Segment::Escape(10_000),
        Segment::Escape(10_000),
        Segment::Escape(10_000),
        Segment::Escape(10_000),
        Segment::Escape(10_000),
        Segment::Escape(5_000),
    ];
    assert_eq!(resolve_segments(&log), Some(Fighter::B));
}

#[test]
fn six_escapes_equal_sums_continue_to_eight() {
    let log = vec![
        Segment::Escape(10_000),
        Segment::Escape(10_000),
        Segment::Escape(10_000),
        Segment::Escape(10_000),
        Segment::Escape(10_000),
        Segment::Escape(10_000),
    ];
    assert_eq!(resolve_segments(&log), None);
    let mut log = log;
    log.push(Segment::Escape(4_000));
    log.push(Segment::Escape(9_000));
    // A now totals 34 s against B's 39 s: the smaller total wins.
    assert_eq!(resolve_segments(&log), Some(Fighter::A));
}

#[test]
fn only_escape_entries_count_toward_the_sums() {
    // Submissions at earlier indices contribute nothing to either sum.
    let log = vec![
        Segment::Submission(1_000),
        Segment::Escape(2_000),
        Segment::Escape(3_000),
        Segment::Escape(4_000),
        Segment::Escape(9_000),
        Segment::Escape(5_000),
    ];
    // A: 3 + 9 = 12 s; B: 2 + 4 + 5 = 11 s.
    assert_eq!(resolve_segments(&log), Some(Fighter::B));
}

#[test]
fn incomplete_pair_is_no_decision() {
    let log: Vec<Segment> = vec![];
    assert_eq!(resolve_segments(&log), None);
    let log = vec![Segment::Submission(1_000)];
    assert_eq!(resolve_segments(&log), None);
    let log = vec![
        Segment::Submission(1_000),
        Segment::Submission(2_000),
        Segment::Escape(3_000),
    ];
    assert_eq!(resolve_segments(&log), None);
}
