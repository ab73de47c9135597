//! The match model: the regulation and overtime state machines as pure
//! functions over a snapshot of the whole timer. The executable machine in
//! `timer` mirrors these functions step for step, and the conservation
//! proofs in `conservation` reason over them.

use crate::clock::Clock;
use crate::segments::{spec_resolve, Fighter, Segment};
use crate::stage::spec_penalty;
use vstd::prelude::*;

verus! {

/// The primary machine's state. `Configuring` is the initial state, in
/// which the durations may still be set; it is also where every invalid
/// (state, event) pair lands.
#[derive(Clone, Copy, PartialEq, Eq, Structural, Debug)]
pub enum RegulationState {
    Configuring,
    Start,
    NotEngaged,
    Engaged,
    Paused,
    Overtime,
    Submission,
    Restarted,
}

/// The nested machine's state, meaningful only while regulation has ended
/// in `Overtime`.
#[derive(Clone, Copy, PartialEq, Eq, Structural, Debug)]
pub enum OvertimeState {
    AdvanceRound,
    Engaged,
    Escaped,
    Submission,
    Paused,
    Decided,
}

/// The events the machines consume.
#[derive(Clone, Copy, PartialEq, Eq, Structural, Debug)]
pub enum Transition {
    StartRegulation,
    Engage,
    Separate,
    Pause,
    Submission,
    TimeExpire,
    Restart,
    Win,
}

pub const DEFAULT_REGULATION_SECS: u64 = 600;

pub const DEFAULT_PENALTY_FREE_SECS: u64 = 90;

pub const STANDARD_OVERTIME_SECS: u64 = 120;

/// A whole-second configuration value in milliseconds, saturating at
/// `u64::MAX`.
pub open spec fn spec_secs_to_ms(secs: u64) -> u64 {
    if secs * 1000 > u64::MAX {
        u64::MAX
    } else {
        (secs * 1000) as u64
    }
}

pub fn secs_to_ms(secs: u64) -> (r: u64)
    ensures
        r == spec_secs_to_ms(secs),
{
    match secs.checked_mul(1000) {
        Some(ms) => ms,
        None => u64::MAX,
    }
}

/// A snapshot of the whole machine: every value the transitions read or
/// write.
#[verifier::ext_equal]
pub struct TimerView {
    pub state: RegulationState,
    pub overtime_state: OvertimeState,
    /// Set once a tick finds the regulation clock exhausted; from then on
    /// any event submitted while engaged or separated reads as
    /// `TimeExpire`.
    pub over_time: bool,
    /// Time spent in the `NotEngaged` and `Engaged` states.
    pub reg_clock: Clock,
    /// Time spent in the `NotEngaged` state alone.
    pub ne_clock: Clock,
    /// Time spent engaged within the current overtime round.
    pub ot_clock: Clock,
    /// The configured regulation length, whole seconds.
    pub cfg_regulation_secs: u64,
    /// The configured non-engagement allowance, whole seconds.
    pub cfg_penalty_free_secs: u64,
    pub regulation_ms: u64,
    pub penalty_free_ms: u64,
    pub half_penalty_free_ms: u64,
    pub standard_overtime_ms: u64,
    pub total_penalty_ms: u64,
    /// Half the total penalty: the amount an overtime round is lengthened.
    pub penalty_divided_ms: u64,
    pub segments: Seq<Segment>,
    pub winner: Option<Fighter>,
}

impl TimerView {
    /// The machine as created: configuring, with the default durations.
    pub open spec fn spec_init() -> TimerView {
        TimerView {
            state: RegulationState::Configuring,
            overtime_state: OvertimeState::AdvanceRound,
            over_time: false,
            reg_clock: Clock::spec_zero(),
            ne_clock: Clock::spec_zero(),
            ot_clock: Clock::spec_zero(),
            cfg_regulation_secs: DEFAULT_REGULATION_SECS,
            cfg_penalty_free_secs: DEFAULT_PENALTY_FREE_SECS,
            regulation_ms: spec_secs_to_ms(DEFAULT_REGULATION_SECS),
            penalty_free_ms: spec_secs_to_ms(DEFAULT_PENALTY_FREE_SECS),
            half_penalty_free_ms: spec_secs_to_ms(DEFAULT_PENALTY_FREE_SECS / 2),
            standard_overtime_ms: spec_secs_to_ms(STANDARD_OVERTIME_SECS),
            total_penalty_ms: 0,
            penalty_divided_ms: 0,
            segments: Seq::empty(),
            winner: None,
        }
    }
}

/// The regulation transition table. `None` marks a pair outside the table.
pub open spec fn regulation_table(s: RegulationState, e: Transition) -> Option<RegulationState> {
    match (s, e) {
        (RegulationState::Configuring, Transition::StartRegulation) => Some(RegulationState::Start),
        (RegulationState::Restarted, Transition::StartRegulation) => Some(RegulationState::Start),
        (RegulationState::Start, Transition::Separate) => Some(RegulationState::NotEngaged),
        (RegulationState::Paused, Transition::Separate) => Some(RegulationState::NotEngaged),
        (RegulationState::Engaged, Transition::Separate) => Some(RegulationState::NotEngaged),
        (RegulationState::NotEngaged, Transition::Engage) => Some(RegulationState::Engaged),
        (RegulationState::Engaged, Transition::Pause) => Some(RegulationState::Paused),
        (RegulationState::NotEngaged, Transition::Pause) => Some(RegulationState::Paused),
        (RegulationState::Engaged, Transition::Submission) => Some(RegulationState::Submission),
        (RegulationState::Engaged, Transition::TimeExpire) => Some(RegulationState::Overtime),
        (RegulationState::NotEngaged, Transition::TimeExpire) => Some(RegulationState::Overtime),
        (RegulationState::Submission, Transition::Restart) => Some(RegulationState::Restarted),
        _ => None,
    }
}

/// The next regulation state: the table row, or `Configuring` for every
/// pair outside the table.
pub open spec fn spec_regulation_next(s: RegulationState, e: Transition) -> RegulationState {
    match regulation_table(s, e) {
        Some(next) => next,
        None => RegulationState::Configuring,
    }
}

/// The overtime transition table. `None` marks a pair outside the table.
pub open spec fn overtime_table(s: OvertimeState, e: Transition) -> Option<OvertimeState> {
    match (s, e) {
        (OvertimeState::AdvanceRound, Transition::Engage) => Some(OvertimeState::Engaged),
        (OvertimeState::Engaged, Transition::Separate) => Some(OvertimeState::Escaped),
        (OvertimeState::Engaged, Transition::Submission) => Some(OvertimeState::Submission),
        (OvertimeState::Engaged, Transition::TimeExpire) => Some(OvertimeState::AdvanceRound),
        (OvertimeState::Engaged, Transition::Win) => Some(OvertimeState::Decided),
        (OvertimeState::Engaged, Transition::Pause) => Some(OvertimeState::Paused),
        (OvertimeState::Paused, Transition::Engage) => Some(OvertimeState::Engaged),
        _ => None,
    }
}

/// The next overtime state: the table row, or `AdvanceRound` for every
/// pair outside the table.
pub open spec fn spec_overtime_next(s: OvertimeState, e: Transition) -> OvertimeState {
    match overtime_table(s, e) {
        Some(next) => next,
        None => OvertimeState::AdvanceRound,
    }
}

/// Event pre-processing: regulation begins by separating the fighters, and
/// once expiry has been recorded, any event submitted while engaged or
/// separated reads as `TimeExpire`.
pub open spec fn spec_force(m: TimerView, e: Transition) -> Transition {
    if m.state is Start {
        Transition::Separate
    } else if m.over_time && (m.state is Engaged || m.state is NotEngaged) {
        Transition::TimeExpire
    } else {
        e
    }
}

/// The clock and accounting side effects of entering `next` at reading
/// `now`, from the state still held in `m.state`. The state field itself
/// is not changed here.
///
/// - `Start`: the expiry flag is cleared, both regulation clocks are
///   zeroed, and the duration fields derived from the configuration are
///   reset from the configured values.
/// - `NotEngaged`: the regulation clock commits and restarts — unless the
///   fighters come out of a pause, whose interval was already committed on
///   pause entry — and the non-engagement clock starts.
/// - `Engaged`: the regulation clock commits and restarts; the
///   non-engagement clock commits and stops.
/// - `Paused`: the regulation clock commits and freezes, as does the
///   non-engagement clock if the fighters were separated.
/// - `Overtime`: the regulation clock commits and freezes, as does the
///   non-engagement clock if the fighters were separated; then the penalty
///   and its half are derived from the non-engagement total.
/// - Everything else changes no clock.
pub open spec fn spec_regulation_effects(
    m: TimerView,
    next: RegulationState,
    now: u64,
) -> TimerView {
    match next {
        RegulationState::Start => TimerView {
            over_time: false,
            reg_clock: Clock::spec_zero(),
            ne_clock: Clock::spec_zero(),
            regulation_ms: spec_secs_to_ms(m.cfg_regulation_secs),
            penalty_free_ms: spec_secs_to_ms(m.cfg_penalty_free_secs),
            half_penalty_free_ms: spec_secs_to_ms(m.cfg_penalty_free_secs / 2),
            total_penalty_ms: 0,
            ..m
        },
        RegulationState::NotEngaged => TimerView {
            reg_clock: if m.state is Paused {
                m.reg_clock.spec_started(now)
            } else {
                m.reg_clock.spec_stopped(now).spec_started(now)
            },
            ne_clock: m.ne_clock.spec_started(now),
            ..m
        },
        RegulationState::Engaged => TimerView {
            reg_clock: m.reg_clock.spec_stopped(now).spec_started(now),
            ne_clock: m.ne_clock.spec_stopped(now),
            ..m
        },
        RegulationState::Paused => TimerView {
            reg_clock: m.reg_clock.spec_stopped(now),
            ne_clock: if m.state is NotEngaged {
                m.ne_clock.spec_stopped(now)
            } else {
                m.ne_clock
            },
            ..m
        },
        RegulationState::Overtime => {
            let ne = if m.state is NotEngaged {
                m.ne_clock.spec_stopped(now)
            } else {
                m.ne_clock
            };
            let penalty = spec_penalty(ne.total_ms, m.penalty_free_ms);
            TimerView {
                reg_clock: m.reg_clock.spec_stopped(now),
                ne_clock: ne,
                total_penalty_ms: if penalty > 0 {
                    penalty
                } else {
                    m.total_penalty_ms
                },
                penalty_divided_ms: if penalty > 0 {
                    penalty / 2
                } else {
                    m.penalty_divided_ms
                },
                ..m
            }
        },
        _ => m,
    }
}

/// One event handed to the overtime machine: the table transition plus its
/// clock side effects. Entering `Engaged` from `AdvanceRound` begins a
/// fresh round, so the round clock is zeroed and started; entering it from
/// `Paused` resumes the running round; entering `Paused` from `Engaged`
/// commits and freezes the round clock.
pub open spec fn spec_drive_overtime(m: TimerView, e: Transition, now: u64) -> TimerView {
    let next = spec_overtime_next(m.overtime_state, e);
    let ot = match next {
        OvertimeState::Engaged => if m.overtime_state is Paused {
            m.ot_clock.spec_started(now)
        } else {
            Clock::spec_zero().spec_started(now)
        },
        OvertimeState::Paused => if m.overtime_state is Engaged {
            m.ot_clock.spec_stopped(now)
        } else {
            m.ot_clock
        },
        _ => m.ot_clock,
    };
    TimerView { overtime_state: next, ot_clock: ot, ..m }
}

/// Appends a round outcome and re-evaluates the winner. The winner is set
/// exactly once: once decided, a decision on a later pair does not
/// overwrite it.
pub open spec fn spec_record(m: TimerView, seg: Segment) -> TimerView {
    let segs = m.segments.push(seg);
    TimerView {
        segments: segs,
        winner: if m.winner is Some {
            m.winner
        } else {
            spec_resolve(segs)
        },
        ..m
    }
}

/// An event submitted while the match is in overtime. A manual escape or
/// submission during an engaged round records the round's elapsed time and
/// consults the resolver: a decision drives the machine with `Win`,
/// otherwise the submitted event stands. Every other event goes to the
/// overtime machine unchanged.
pub open spec fn spec_overtime_submit(m: TimerView, e: Transition, now: u64) -> TimerView {
    if m.overtime_state is Engaged && (e is Separate || e is Submission) {
        let d = m.ot_clock.spec_elapsed(now);
        let seg = if e is Separate {
            Segment::Escape(d)
        } else {
            Segment::Submission(d)
        };
        let m2 = spec_record(m, seg);
        if spec_resolve(m2.segments) is Some {
            spec_drive_overtime(m2, Transition::Win, now)
        } else {
            spec_drive_overtime(m2, e, now)
        }
    } else {
        spec_drive_overtime(m, e, now)
    }
}

/// One event handed to the regulation machine: pre-processing, the table
/// transition, its side effects, and — on entry into overtime — the
/// forwarding of the same event into the overtime machine.
pub open spec fn spec_regulation_step(m: TimerView, e: Transition, now: u64) -> TimerView {
    let forced = spec_force(m, e);
    let next = spec_regulation_next(m.state, forced);
    let m1 = TimerView { state: next, ..spec_regulation_effects(m, next, now) };
    if next is Overtime {
        spec_drive_overtime(m1, forced, now)
    } else {
        m1
    }
}

/// One submitted event: routed into the overtime machine once regulation
/// has ended in overtime, into the regulation machine otherwise.
pub open spec fn spec_submit(m: TimerView, e: Transition, now: u64) -> TimerView {
    if m.state is Overtime {
        spec_overtime_submit(m, e, now)
    } else {
        spec_regulation_step(m, e, now)
    }
}

/// The target length of the current overtime round: the standard round
/// length plus half the regulation penalty.
pub open spec fn spec_round_target_ms(m: TimerView) -> u64 {
    m.standard_overtime_ms.saturating_add(m.penalty_divided_ms)
}

/// One periodic display tick at reading `now`. Regulation begins by
/// separating the fighters; an exhausted regulation clock is recorded in
/// the expiry flag and expires the period; an engaged overtime round that
/// reaches its target auto-resolves as an escape for the defender at
/// exactly the target duration. Otherwise a tick changes nothing: expiry
/// is detected lazily, so the caller must tick at least once a second.
pub open spec fn spec_tick(m: TimerView, now: u64) -> TimerView {
    if m.state is Start {
        spec_submit(m, Transition::Separate, now)
    } else if (m.state is NotEngaged || m.state is Engaged) && m.reg_clock.spec_elapsed(now)
        >= m.regulation_ms {
        spec_submit(TimerView { over_time: true, ..m }, Transition::TimeExpire, now)
    } else if m.state is Overtime && m.overtime_state is Engaged && m.ot_clock.spec_elapsed(now)
        >= spec_round_target_ms(m) {
        let m2 = spec_record(m, Segment::Escape(spec_round_target_ms(m)));
        if spec_resolve(m2.segments) is Some {
            spec_drive_overtime(m2, Transition::Win, now)
        } else {
            spec_drive_overtime(m2, Transition::TimeExpire, now)
        }
    } else {
        m
    }
}

/// Totality of the regulation machine: every (state, event) pair outside
/// the transition table resolves to `Configuring`, so no input can make
/// the machine fail.
pub proof fn lemma_regulation_totality(s: RegulationState, e: Transition)
    requires
        regulation_table(s, e) is None,
    ensures
        spec_regulation_next(s, e) == RegulationState::Configuring,
{
}

/// Totality of the overtime machine: every (state, event) pair outside the
/// table resolves to `AdvanceRound`.
pub proof fn lemma_overtime_totality(s: OvertimeState, e: Transition)
    requires
        overtime_table(s, e) is None,
    ensures
        spec_overtime_next(s, e) == OvertimeState::AdvanceRound,
{
}

} // verus!
