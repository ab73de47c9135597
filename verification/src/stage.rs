//! Penalty accounting: pure functions of the non-engagement total and the
//! configured penalty-free thresholds. The stage classification is used
//! only for display; the penalty duration sizes the overtime rounds.

use vstd::prelude::*;

verus! {

/// How far through the non-engagement budget the fighters are.
#[derive(Clone, Copy, PartialEq, Eq, Structural, Debug)]
pub enum MatchStage {
    FirstHalfPenaltyFree,
    SecondHalfPenaltyFree,
    Penalty,
}

/// The penalty owed after `non_engaged_ms` of non-engagement against a
/// `penalty_free_ms` allowance: `max(0, non_engaged_ms - penalty_free_ms)`.
pub open spec fn spec_penalty(non_engaged_ms: u64, penalty_free_ms: u64) -> u64 {
    if non_engaged_ms > penalty_free_ms {
        (non_engaged_ms - penalty_free_ms) as u64
    } else {
        0
    }
}

/// Which stage a non-engagement total falls in, against the half and full
/// penalty-free thresholds.
pub open spec fn spec_stage(
    non_engaged_ms: u64,
    half_free_ms: u64,
    full_free_ms: u64,
) -> MatchStage {
    if non_engaged_ms < half_free_ms {
        MatchStage::FirstHalfPenaltyFree
    } else if non_engaged_ms < full_free_ms {
        MatchStage::SecondHalfPenaltyFree
    } else {
        MatchStage::Penalty
    }
}

pub fn penalty_ms(non_engaged_ms: u64, penalty_free_ms: u64) -> (r: u64)
    ensures
        r == spec_penalty(non_engaged_ms, penalty_free_ms),
{
    if non_engaged_ms > penalty_free_ms {
        non_engaged_ms - penalty_free_ms
    } else {
        0
    }
}

pub fn stage_of(non_engaged_ms: u64, half_free_ms: u64, full_free_ms: u64) -> (r: MatchStage)
    ensures
        r == spec_stage(non_engaged_ms, half_free_ms, full_free_ms),
{
    if non_engaged_ms < half_free_ms {
        MatchStage::FirstHalfPenaltyFree
    } else if non_engaged_ms < full_free_ms {
        MatchStage::SecondHalfPenaltyFree
    } else {
        MatchStage::Penalty
    }
}

/// No penalty accrues while the non-engagement total is within the
/// penalty-free allowance.
pub proof fn lemma_no_penalty_within_allowance(non_engaged_ms: u64, penalty_free_ms: u64)
    requires
        non_engaged_ms <= penalty_free_ms,
    ensures
        spec_penalty(non_engaged_ms, penalty_free_ms) == 0,
{
}

} // verus!
