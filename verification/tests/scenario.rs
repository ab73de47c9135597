use cjj_timer::model::{OvertimeState, RegulationState, Transition};
use cjj_timer::segments::{Fighter, Segment};
use cjj_timer::stage::MatchStage;
use cjj_timer::timer::CjjTimer;

/// Twenty seconds of regulation with a ten-second allowance: after twelve
/// seconds separated the fighters engage, two seconds of penalty have
/// accrued, and the display stage reads `Penalty`.
#[test]
fn penalty_accrues_past_the_allowance() {
    let mut t = CjjTimer::new();
    t.set_regulation_secs(20);
    t.set_penalty_free_secs(10);
    t.submit(Transition::StartRegulation, 0);
    t.tick(0);
    assert_eq!(t.regulation_state(), RegulationState::NotEngaged);
    assert_eq!(t.match_stage(4_000), MatchStage::FirstHalfPenaltyFree);
    assert_eq!(t.match_stage(7_000), MatchStage::SecondHalfPenaltyFree);
    t.submit(Transition::Engage, 12_000);
    assert_eq!(t.regulation_state(), RegulationState::Engaged);
    assert_eq!(t.non_engaged_elapsed_ms(12_000), 12_000);
    assert_eq!(t.match_stage(12_000), MatchStage::Penalty);
    assert_eq!(t.current_penalty_ms(12_000), 2_000);
}

/// Time expiry while engaged hands the match into overtime: the penalty is
/// committed, halved into the round allowance, and the forwarded expiry
/// lands the overtime machine in `AdvanceRound`.
#[test]
fn expiry_enters_overtime_and_sizes_the_rounds() {
    let mut t = CjjTimer::new();
    t.set_regulation_secs(20);
    t.set_penalty_free_secs(10);
    t.submit(Transition::StartRegulation, 0);
    t.tick(0);
    t.submit(Transition::Engage, 12_000);
    t.tick(20_000);
    assert_eq!(t.regulation_state(), RegulationState::Overtime);
    assert_eq!(t.overtime_state(), OvertimeState::AdvanceRound);
    assert_eq!(t.regulation_elapsed_ms(20_000), 20_000);
    assert_eq!(t.total_penalty_ms(), 2_000);
    assert_eq!(t.round_target_ms(), 121_000);
    assert_eq!(t.winner(), None);
}

fn into_overtime() -> CjjTimer {
    let mut t = CjjTimer::new();
    t.set_regulation_secs(20);
    t.set_penalty_free_secs(10);
    t.submit(Transition::StartRegulation, 0);
    t.tick(0);
    t.submit(Transition::Engage, 5_000);
    t.tick(20_000);
    assert_eq!(t.regulation_state(), RegulationState::Overtime);
    t
}

/// An escape and then a faster submission in the answering round decide
/// the match for Fighter B.
#[test]
fn overtime_rounds_log_outcomes_and_decide_a_winner() {
    let mut t = into_overtime();
    t.submit(Transition::Engage, 21_000);
    assert_eq!(t.overtime_state(), OvertimeState::Engaged);
    t.submit(Transition::Separate, 25_000);
    assert_eq!(t.overtime_state(), OvertimeState::Escaped);
    assert_eq!(t.segments().as_slice(), &[Segment::Escape(4_000)]);
    assert_eq!(t.winner(), None);
    t.submit(Transition::TimeExpire, 26_000);
    assert_eq!(t.overtime_state(), OvertimeState::AdvanceRound);
    t.submit(Transition::Engage, 27_000);
    t.submit(Transition::Submission, 29_000);
    assert_eq!(
        t.segments().as_slice(),
        &[Segment::Escape(4_000), Segment::Submission(2_000)]
    );
    assert_eq!(t.winner(), Some(Fighter::B));
    assert_eq!(t.overtime_state(), OvertimeState::Decided);
}

/// A round that reaches its target resolves itself as an escape at
/// exactly the target duration.
#[test]
fn engaged_round_auto_resolves_at_the_target() {
    let mut t = into_overtime();
    // Five seconds of non-engagement stay within the allowance, so the
    // round target is the standard two minutes.
    assert_eq!(t.total_penalty_ms(), 0);
    assert_eq!(t.round_target_ms(), 120_000);
    t.submit(Transition::Engage, 21_000);
    t.tick(100_000);
    assert_eq!(t.overtime_state(), OvertimeState::Engaged);
    t.tick(141_000);
    assert_eq!(t.overtime_state(), OvertimeState::AdvanceRound);
    assert_eq!(t.segments().as_slice(), &[Segment::Escape(120_000)]);
}

/// Pausing an overtime round freezes its clock; resuming does not reset
/// the round.
#[test]
fn overtime_pause_freezes_the_round_clock() {
    let mut t = into_overtime();
    t.submit(Transition::Engage, 21_000);
    t.submit(Transition::Pause, 24_000);
    assert_eq!(t.overtime_state(), OvertimeState::Paused);
    assert_eq!(t.overtime_elapsed_ms(30_000), 3_000);
    t.submit(Transition::Engage, 31_000);
    assert_eq!(t.overtime_state(), OvertimeState::Engaged);
    assert_eq!(t.overtime_elapsed_ms(33_000), 5_000);
}

/// The winner is written once: a decision reached on a later pair never
/// overwrites it.
#[test]
fn winner_is_never_overwritten() {
    let mut t = into_overtime();
    t.submit(Transition::Engage, 21_000);
    t.submit(Transition::Separate, 25_000);
    t.submit(Transition::TimeExpire, 26_000);
    t.submit(Transition::Engage, 27_000);
    t.submit(Transition::Submission, 29_000);
    assert_eq!(t.winner(), Some(Fighter::B));
    // Any event in `Decided` falls back to `AdvanceRound`, so rounds can
    // go on; a pair now decided for Fighter A leaves the winner alone.
    t.submit(Transition::TimeExpire, 30_000);
    assert_eq!(t.overtime_state(), OvertimeState::AdvanceRound);
    t.submit(Transition::Engage, 31_000);
    t.submit(Transition::Submission, 32_000);
    t.submit(Transition::TimeExpire, 33_000);
    t.submit(Transition::Engage, 34_000);
    t.submit(Transition::Separate, 36_000);
    assert_eq!(t.segments().len(), 4);
    assert_eq!(t.overtime_state(), OvertimeState::Decided);
    assert_eq!(t.winner(), Some(Fighter::B));
}
