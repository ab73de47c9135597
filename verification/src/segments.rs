//! The round-outcome log and the win resolver. Overtime rounds alternate
//! between the fighters: the entry at an even index belongs to Fighter A,
//! at an odd index to Fighter B. The log is append-only; the resolver
//! decides a winner from the latest completed round-pair and, for a pair
//! of escapes, from the cumulative escape times.

use vstd::prelude::*;

verus! {

#[derive(Clone, Copy, PartialEq, Eq, Structural, Debug)]
pub enum Fighter {
    A,
    B,
}

/// The recorded outcome of one overtime round: how the round ended and the
/// elapsed time within that round, in milliseconds, when it did.
#[derive(Clone, Copy, PartialEq, Eq, Structural, Debug)]
pub enum Segment {
    Escape(u64),
    Submission(u64),
}

/// What an entry contributes to a fighter's cumulative escape time:
/// its duration if it is an escape, nothing otherwise.
pub open spec fn escape_contribution(seg: Segment) -> int {
    match seg {
        Segment::Escape(t) => t as int,
        Segment::Submission(_) => 0,
    }
}

/// The sum of the escape durations at indices of the given parity
/// (0 for Fighter A's rounds, 1 for Fighter B's).
pub open spec fn escape_sum(log: Seq<Segment>, parity: int) -> int
    decreases log.len(),
{
    if log.len() == 0 {
        0
    } else {
        escape_sum(log.drop_last(), parity) + if (log.len() - 1) % 2 == parity {
            escape_contribution(log.last())
        } else {
            0
        }
    }
}

/// The decision the resolver reaches on a log, if any. It inspects only a
/// log whose length is even (a completed round-pair) and at least two; the
/// last two entries are Fighter A's and Fighter B's latest rounds.
///
/// - Two submissions: the faster one wins; a tie goes to Fighter B.
/// - A submission against an escape: the submission wins.
/// - Two escapes: no decision before six rounds; from six on, the fighter
///   with the smaller cumulative escape time wins, and equal sums leave
///   the match undecided.
pub open spec fn spec_resolve(log: Seq<Segment>) -> Option<Fighter> {
    if log.len() < 2 || log.len() % 2 != 0 {
        None
    } else {
        match (log[log.len() - 2], log[log.len() - 1]) {
            (Segment::Submission(t1), Segment::Submission(t2)) => if t1 < t2 {
                Some(Fighter::A)
            } else {
                Some(Fighter::B)
            },
            (Segment::Submission(_), Segment::Escape(_)) => Some(Fighter::A),
            (Segment::Escape(_), Segment::Submission(_)) => Some(Fighter::B),
            (Segment::Escape(_), Segment::Escape(_)) => {
                if log.len() < 6 {
                    None
                } else {
                    let sum_a = escape_sum(log, 0);
                    let sum_b = escape_sum(log, 1);
                    if sum_a == sum_b {
                        None
                    } else if sum_a > sum_b {
                        Some(Fighter::B)
                    } else {
                        Some(Fighter::A)
                    }
                }
            },
        }
    }
}

/// Runs the win-resolution algorithm on a log.
pub fn resolve_segments(log: &Vec<Segment>) -> (r: Option<Fighter>)
    ensures
        r == spec_resolve(log@),
{
    if log.len() < 2 || log.len() % 2 != 0 {
        return None;
    }
    let a = log[log.len() - 2];
    let b = log[log.len() - 1];
    match (a, b) {
        (Segment::Submission(t1), Segment::Submission(t2)) => {
            if t1 < t2 {
                Some(Fighter::A)
            } else {
                Some(Fighter::B)
            }
        },
        (Segment::Submission(_), Segment::Escape(_)) => Some(Fighter::A),
        (Segment::Escape(_), Segment::Submission(_)) => Some(Fighter::B),
        (Segment::Escape(_), Segment::Escape(_)) => {
            if log.len() < 6 {
                return None;
            }
            let sum_a = sum_escapes(log, 0);
            let sum_b = sum_escapes(log, 1);
            if sum_a == sum_b {
                None
            } else if sum_a > sum_b {
                Some(Fighter::B)
            } else {
                Some(Fighter::A)
            }
        },
    }
}

/// Sums the escape durations of one fighter's rounds: those at indices of
/// the given parity. The sum is carried in 128 bits, which cannot
/// saturate: a log of at most `usize::MAX` entries of at most `u64::MAX`
/// milliseconds stays below `u128::MAX`.
fn sum_escapes(log: &Vec<Segment>, parity: usize) -> (r: u128)
    requires
        parity == 0 || parity == 1,
    ensures
        r == escape_sum(log@, parity as int),
{
    let mut sum: u128 = 0;
    let mut i: usize = 0;
    while i < log.len()
        invariant
            parity == 0 || parity == 1,
            i <= log.len(),
            sum == escape_sum(log@.subrange(0, i as int), parity as int),
            sum <= (i as int) * (u64::MAX as int),
        decreases log.len() - i,
    {
        proof {
            assert(log@.subrange(0, i + 1).drop_last() =~= log@.subrange(0, i as int));
            assert(log@.subrange(0, i + 1).last() == log@[i as int]);
            assert((i as int + 1) * (u64::MAX as int) == (i as int) * (u64::MAX as int) + (
            u64::MAX as int));
            assert((i as int + 1) * (u64::MAX as int) <= (usize::MAX as int) * (u64::MAX as int))
                by (nonlinear_arith)
                requires
                    i as int + 1 <= usize::MAX as int,
            ;
        }
        match log[i] {
            Segment::Escape(t) => {
                if i % 2 == parity {
                    sum = sum + (t as u128);
                }
            },
            Segment::Submission(_) => {},
        }
        i = i + 1;
    }
    proof {
        assert(log@.subrange(0, log@.len() as int) =~= log@);
    }
    sum
}

} // verus!
