//! Conservation of regulation time: across any run of the machine that
//! stays within a match, the regulation clock reads exactly the
//! wall-clock time spent in the `Engaged` and `NotEngaged` states.
//!
//! The statement excludes runs that leave the match: an invalid event
//! drops to `Configuring` and a submission ends the bout, and in both
//! cases the interval since the last commit is discarded rather than
//! committed, so the totals stop tracking wall time there by design.

use crate::clock::Clock;
use crate::model::{spec_submit, RegulationState, TimerView, Transition};
use vstd::prelude::*;

verus! {

/// A state in which the regulation clock is meant to run.
pub open spec fn counts_regulation(s: RegulationState) -> bool {
    s is NotEngaged || s is Engaged
}

/// A state within a running match: from `Start` through overtime.
pub open spec fn in_match(s: RegulationState) -> bool {
    s is Start || s is NotEngaged || s is Engaged || s is Paused || s is Overtime
}

/// The machine after a sequence of timed event submissions.
pub open spec fn run_events(m: TimerView, evs: Seq<(Transition, u64)>) -> TimerView
    decreases evs.len(),
{
    if evs.len() == 0 {
        m
    } else {
        run_events(spec_submit(m, evs[0].0, evs[0].1), evs.skip(1))
    }
}

/// The wall-clock time spent in counting states along a run: from `prev`,
/// the reading at which `m` was reached, through each event's reading, to
/// the final reading `t_end`.
pub open spec fn active_time(
    m: TimerView,
    prev: u64,
    evs: Seq<(Transition, u64)>,
    t_end: u64,
) -> int
    decreases evs.len(),
{
    if evs.len() == 0 {
        if counts_regulation(m.state) {
            t_end - prev
        } else {
            0
        }
    } else {
        (if counts_regulation(m.state) {
            evs[0].1 - prev
        } else {
            0
        }) + active_time(spec_submit(m, evs[0].0, evs[0].1), evs[0].1, evs.skip(1), t_end)
    }
}

/// The readings never go backwards along the run.
pub open spec fn times_ordered(prev: u64, evs: Seq<(Transition, u64)>, t_end: u64) -> bool
    decreases evs.len(),
{
    if evs.len() == 0 {
        prev <= t_end
    } else {
        prev <= evs[0].1 && times_ordered(evs[0].1, evs.skip(1), t_end)
    }
}

/// Every step of the run lands in a match state.
pub open spec fn stays_in_match(m: TimerView, evs: Seq<(Transition, u64)>) -> bool
    decreases evs.len(),
{
    if evs.len() == 0 {
        true
    } else {
        let m2 = spec_submit(m, evs[0].0, evs[0].1);
        in_match(m2.state) && stays_in_match(m2, evs.skip(1))
    }
}

/// The regulation clock accounts for `active` milliseconds as of reading
/// `now`: while counting it runs and shows `active` at `now`, while
/// paused or in overtime it is frozen at `active`, and in `Start` it is
/// zeroed. The bound `active <= now` keeps the arithmetic below
/// saturation.
pub open spec fn accounts_for(m: TimerView, now: u64, active: int) -> bool {
    &&& 0 <= active <= now
    &&& match m.state {
        RegulationState::Start => m.reg_clock == Clock::spec_zero() && active == 0,
        RegulationState::NotEngaged | RegulationState::Engaged => {
            &&& m.reg_clock.running_since matches Some(since)
            &&& since <= now
            &&& m.reg_clock.total_ms + (now - since) == active
        },
        RegulationState::Paused | RegulationState::Overtime => m.reg_clock.running_since is None
            && m.reg_clock.total_ms == active,
        _ => false,
    }
}

/// One step preserves the accounting: the active total grows by the
/// interval just ended exactly when the machine spent it in a counting
/// state.
pub proof fn lemma_conservation_step(m: TimerView, e: Transition, prev: u64, now: u64, active: int)
    requires
        accounts_for(m, prev, active),
        prev <= now,
        in_match(spec_submit(m, e, now).state),
    ensures
        accounts_for(
            spec_submit(m, e, now),
            now,
            active + if counts_regulation(m.state) {
                now - prev
            } else {
                0
            },
        ),
{
}

/// Conservation along a whole run: starting from a machine whose
/// regulation clock accounts for `active`, after any time-ordered run
/// that stays within the match the clock reads, at the final reading,
/// exactly that total plus the wall-clock time spent in `Engaged` and
/// `NotEngaged`.
pub proof fn lemma_regulation_conservation(
    m: TimerView,
    prev: u64,
    evs: Seq<(Transition, u64)>,
    t_end: u64,
    active: int,
)
    requires
        accounts_for(m, prev, active),
        times_ordered(prev, evs, t_end),
        stays_in_match(m, evs),
    ensures
        run_events(m, evs).reg_clock.spec_elapsed(t_end) == active + active_time(
            m,
            prev,
            evs,
            t_end,
        ),
    decreases evs.len(),
{
    if evs.len() == 0 {
    } else {
        let m2 = spec_submit(m, evs[0].0, evs[0].1);
        lemma_conservation_step(m, evs[0].0, prev, evs[0].1, active);
        lemma_regulation_conservation(
            m2,
            evs[0].1,
            evs.skip(1),
            t_end,
            active + if counts_regulation(m.state) {
                evs[0].1 - prev
            } else {
                0
            },
        );
    }
}

/// The conservation law from the start of regulation: a machine freshly
/// entered into `Start` at reading `t0` commits, across any time-ordered
/// run that stays within the match, exactly the wall-clock time spent
/// engaged or separated.
pub proof fn lemma_conservation_from_start(
    m: TimerView,
    t0: u64,
    evs: Seq<(Transition, u64)>,
    t_end: u64,
)
    requires
        m.state is Start,
        m.reg_clock == Clock::spec_zero(),
        times_ordered(t0, evs, t_end),
        stays_in_match(m, evs),
    ensures
        run_events(m, evs).reg_clock.spec_elapsed(t_end) == active_time(m, t0, evs, t_end),
{
    lemma_regulation_conservation(m, t0, evs, t_end, 0);
}

} // verus!
