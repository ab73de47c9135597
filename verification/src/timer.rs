//! The executable match timer. `CjjTimer` holds the machine of `model` as
//! plain state; every mutating method's contract ties it to the
//! corresponding spec-level step function, so the whole event-driven
//! behaviour is pinned down by `spec_submit` and `spec_tick`. Readings of
//! the wall clock come from `web_time` behind the two trusted wrappers at
//! the top; everything else is verified.

use crate::clock::Clock;
use crate::model::{
    secs_to_ms, spec_drive_overtime, spec_force, spec_overtime_next, spec_regulation_next,
    spec_regulation_step, spec_round_target_ms, spec_secs_to_ms, spec_submit, spec_tick,
    OvertimeState, RegulationState, TimerView, Transition, DEFAULT_PENALTY_FREE_SECS,
    DEFAULT_REGULATION_SECS, STANDARD_OVERTIME_SECS,
};
use crate::segments::{resolve_segments, spec_resolve, Fighter, Segment};
use crate::stage::{penalty_ms, spec_penalty, spec_stage, stage_of, MatchStage};
use vstd::prelude::*;

verus! {

#[verifier::external_type_specification]
#[verifier::external_body]
pub struct ExInstant(web_time::Instant);

/// Relies on web_time::Instant::now: a reading of the platform's monotonic
/// clock. The value depends on the time of the call, so nothing is assumed
/// of it.
#[verifier::external_body]
fn instant_now() -> web_time::Instant {
    web_time::Instant::now()
}

/// Relies on web_time::Instant::elapsed, with Duration::as_millis
/// converting the result to whole milliseconds since the instant was
/// taken. The value depends on the time of the call, so nothing is assumed
/// of it.
#[verifier::external_body]
fn millis_since(start: &web_time::Instant) -> u64 {
    start.elapsed().as_millis() as u64
}

/// The match timer: the regulation machine, the nested overtime machine,
/// their clocks, and the round log. Callers either pass in their own
/// millisecond readings (`submit`, `tick`) or let the timer read the wall
/// clock relative to its creation (`submit_now`, `tick_now`).
pub struct CjjTimer {
    epoch: web_time::Instant,
    state: RegulationState,
    overtime_state: OvertimeState,
    over_time: bool,
    reg_clock: Clock,
    ne_clock: Clock,
    ot_clock: Clock,
    cfg_regulation_secs: u64,
    cfg_penalty_free_secs: u64,
    regulation_ms: u64,
    penalty_free_ms: u64,
    half_penalty_free_ms: u64,
    standard_overtime_ms: u64,
    total_penalty_ms: u64,
    penalty_divided_ms: u64,
    segments: Vec<Segment>,
    winner: Option<Fighter>,
}

impl View for CjjTimer {
    type V = TimerView;

    closed spec fn view(&self) -> TimerView {
        TimerView {
            state: self.state,
            overtime_state: self.overtime_state,
            over_time: self.over_time,
            reg_clock: self.reg_clock,
            ne_clock: self.ne_clock,
            ot_clock: self.ot_clock,
            cfg_regulation_secs: self.cfg_regulation_secs,
            cfg_penalty_free_secs: self.cfg_penalty_free_secs,
            regulation_ms: self.regulation_ms,
            penalty_free_ms: self.penalty_free_ms,
            half_penalty_free_ms: self.half_penalty_free_ms,
            standard_overtime_ms: self.standard_overtime_ms,
            total_penalty_ms: self.total_penalty_ms,
            penalty_divided_ms: self.penalty_divided_ms,
            segments: self.segments@,
            winner: self.winner,
        }
    }
}

impl CjjTimer {
    /// A fresh machine in `Configuring` with the default durations. The
    /// instant taken here anchors `submit_now` and `tick_now`.
    pub fn new() -> (t: CjjTimer)
        ensures
            t@ == TimerView::spec_init(),
    {
        let t = CjjTimer {
            epoch: instant_now(),
            state: RegulationState::Configuring,
            overtime_state: OvertimeState::AdvanceRound,
            over_time: false,
            reg_clock: Clock::new(),
            ne_clock: Clock::new(),
            ot_clock: Clock::new(),
            cfg_regulation_secs: DEFAULT_REGULATION_SECS,
            cfg_penalty_free_secs: DEFAULT_PENALTY_FREE_SECS,
            regulation_ms: secs_to_ms(DEFAULT_REGULATION_SECS),
            penalty_free_ms: secs_to_ms(DEFAULT_PENALTY_FREE_SECS),
            half_penalty_free_ms: secs_to_ms(DEFAULT_PENALTY_FREE_SECS / 2),
            standard_overtime_ms: secs_to_ms(STANDARD_OVERTIME_SECS),
            total_penalty_ms: 0,
            penalty_divided_ms: 0,
            segments: Vec::new(),
            winner: None,
        };
        proof {
            assert(t@ =~= TimerView::spec_init());
        }
        t
    }

    /// Event pre-processing before the table lookup, as `spec_force` says:
    /// regulation begins by separating the fighters, and recorded expiry
    /// pre-empts any action while engaged or separated.
    pub fn regulation_input(&self, event: Transition) -> (r: Transition)
        ensures
            r == spec_force(self@, event),
    {
        if self.state == RegulationState::Start {
            Transition::Separate
        } else if self.over_time && (self.state == RegulationState::Engaged || self.state
            == RegulationState::NotEngaged) {
            Transition::TimeExpire
        } else {
            event
        }
    }

    /// The regulation table lookup: the listed rows, and `Configuring` for
    /// every other pair.
    pub fn change_regulation_state(&self, event: Transition) -> (r: RegulationState)
        ensures
            r == spec_regulation_next(self@.state, event),
    {
        match (self.state, event) {
            (RegulationState::Configuring, Transition::StartRegulation) => RegulationState::Start,
            (RegulationState::Restarted, Transition::StartRegulation) => RegulationState::Start,
            (RegulationState::Start, Transition::Separate) => RegulationState::NotEngaged,
            (RegulationState::Paused, Transition::Separate) => RegulationState::NotEngaged,
            (RegulationState::Engaged, Transition::Separate) => RegulationState::NotEngaged,
            (RegulationState::NotEngaged, Transition::Engage) => RegulationState::Engaged,
            (RegulationState::Engaged, Transition::Pause) => RegulationState::Paused,
            (RegulationState::NotEngaged, Transition::Pause) => RegulationState::Paused,
            (RegulationState::Engaged, Transition::Submission) => RegulationState::Submission,
            (RegulationState::Engaged, Transition::TimeExpire) => RegulationState::Overtime,
            (RegulationState::NotEngaged, Transition::TimeExpire) => RegulationState::Overtime,
            (RegulationState::Submission, Transition::Restart) => RegulationState::Restarted,
            _ => RegulationState::Configuring,
        }
    }

    /// One event handed to the regulation machine: pre-processing, the
    /// table transition, the clock and penalty side effects, and — on
    /// entry into overtime — the forwarding of the same event into the
    /// overtime machine.
    pub fn change_regulation(&mut self, event: Transition, now: u64)
        ensures
            final(self)@ == spec_regulation_step(old(self)@, event, now),
    {
        let forced = self.regulation_input(event);
        let new_state = self.change_regulation_state(forced);
        match new_state {
            RegulationState::Start => {
                self.over_time = false;
                self.reg_clock = Clock::new();
                self.ne_clock = Clock::new();
                self.regulation_ms = secs_to_ms(self.cfg_regulation_secs);
                self.penalty_free_ms = secs_to_ms(self.cfg_penalty_free_secs);
                self.half_penalty_free_ms = secs_to_ms(self.cfg_penalty_free_secs / 2);
                self.total_penalty_ms = 0;
            },
            RegulationState::NotEngaged => {
                if self.state != RegulationState::Paused {
                    self.reg_clock.stop(now);
                }
                self.reg_clock.start(now);
                self.ne_clock.start(now);
            },
            RegulationState::Engaged => {
                self.reg_clock.stop(now);
                self.reg_clock.start(now);
                self.ne_clock.stop(now);
            },
            RegulationState::Paused => {
                if self.state == RegulationState::NotEngaged {
                    self.ne_clock.stop(now);
                }
                self.reg_clock.stop(now);
            },
            RegulationState::Overtime => {
                self.reg_clock.stop(now);
                if self.state == RegulationState::NotEngaged {
                    self.ne_clock.stop(now);
                }
                let penalty = penalty_ms(self.ne_clock.total_ms, self.penalty_free_ms);
                if penalty > 0 {
                    self.total_penalty_ms = penalty;
                    self.penalty_divided_ms = penalty / 2;
                }
            },
            _ => {},
        }
        self.state = new_state;
        if new_state == RegulationState::Overtime {
            self.change_overtime(forced, now);
        }
    }

    /// The overtime table lookup: the listed rows, and `AdvanceRound` for
    /// every other pair.
    pub fn change_overtime_state(&self, event: Transition) -> (r: OvertimeState)
        ensures
            r == spec_overtime_next(self@.overtime_state, event),
    {
        match (self.overtime_state, event) {
            (OvertimeState::AdvanceRound, Transition::Engage) => OvertimeState::Engaged,
            (OvertimeState::Engaged, Transition::Separate) => OvertimeState::Escaped,
            (OvertimeState::Engaged, Transition::Submission) => OvertimeState::Submission,
            (OvertimeState::Engaged, Transition::TimeExpire) => OvertimeState::AdvanceRound,
            (OvertimeState::Engaged, Transition::Win) => OvertimeState::Decided,
            (OvertimeState::Engaged, Transition::Pause) => OvertimeState::Paused,
            (OvertimeState::Paused, Transition::Engage) => OvertimeState::Engaged,
            _ => OvertimeState::AdvanceRound,
        }
    }

    /// Overtime events go to the table as submitted, with no
    /// pre-processing.
    pub fn overtime_input(&self, event: Transition) -> (r: Transition)
        ensures
            r == event,
    {
        event
    }

    /// One event handed to the overtime machine: the table transition plus
    /// its round-clock side effects.
    pub fn change_overtime(&mut self, event: Transition, now: u64)
        ensures
            final(self)@ == spec_drive_overtime(old(self)@, event, now),
    {
        let forwarded = self.overtime_input(event);
        let new_state = self.change_overtime_state(forwarded);
        match new_state {
            OvertimeState::Engaged => {
                if self.overtime_state != OvertimeState::Paused {
                    self.ot_clock = Clock::new();
                }
                self.ot_clock.start(now);
            },
            OvertimeState::Paused => {
                if self.overtime_state == OvertimeState::Engaged {
                    self.ot_clock.stop(now);
                }
            },
            _ => {},
        }
        self.overtime_state = new_state;
    }

    /// Re-evaluates the winner from the round log, returning whether a
    /// decision has been reached. The winner is written at most once: a
    /// later decision never overwrites it.
    pub fn calculate_win(&mut self) -> (r: bool)
        ensures
            r == (spec_resolve(old(self)@.segments) is Some),
            final(self)@ == (TimerView {
                winner: if old(self)@.winner is Some {
                    old(self)@.winner
                } else {
                    spec_resolve(old(self)@.segments)
                },
                ..old(self)@
            }),
    {
        let decision = resolve_segments(&self.segments);
        let decided = decision.is_some();
        if self.winner.is_none() {
            self.winner = decision;
        }
        decided
    }

    /// Submits one event at reading `now`. Never fails: invalid pairs land
    /// in `Configuring` (regulation) or `AdvanceRound` (overtime). While
    /// the match is in overtime, a manual escape or submission during an
    /// engaged round records the round's elapsed time in the log and, if
    /// the resolver reaches a decision, drives the machine to `Decided`.
    pub fn submit(&mut self, event: Transition, now: u64)
        ensures
            final(self)@ == spec_submit(old(self)@, event, now),
    {
        if self.state == RegulationState::Overtime {
            if self.overtime_state == OvertimeState::Engaged && (event == Transition::Separate
                || event == Transition::Submission) {
                let d = self.ot_clock.elapsed(now);
                let seg = if event == Transition::Separate {
                    Segment::Escape(d)
                } else {
                    Segment::Submission(d)
                };
                self.segments.push(seg);
                let won = self.calculate_win();
                if won {
                    self.change_overtime(Transition::Win, now);
                } else {
                    self.change_overtime(event, now);
                }
            } else {
                self.change_overtime(event, now);
            }
        } else {
            self.change_regulation(event, now);
        }
    }

    /// One periodic display tick at reading `now`: begins regulation by
    /// separating the fighters, expires an exhausted regulation clock, and
    /// auto-resolves an engaged overtime round that has reached its target
    /// as an escape at exactly the target duration. Expiry is detected
    /// lazily here, so callers must tick at least once a second.
    pub fn tick(&mut self, now: u64)
        ensures
            final(self)@ == spec_tick(old(self)@, now),
    {
        if self.state == RegulationState::Start {
            self.submit(Transition::Separate, now);
        } else if self.state == RegulationState::NotEngaged || self.state
            == RegulationState::Engaged {
            if self.reg_clock.elapsed(now) >= self.regulation_ms {
                self.over_time = true;
                self.submit(Transition::TimeExpire, now);
            }
        } else if self.state == RegulationState::Overtime && self.overtime_state
            == OvertimeState::Engaged {
            let target = self.round_target_ms();
            if self.ot_clock.elapsed(now) >= target {
                self.segments.push(Segment::Escape(target));
                let won = self.calculate_win();
                if won {
                    self.change_overtime(Transition::Win, now);
                } else {
                    self.change_overtime(Transition::TimeExpire, now);
                }
            }
        }
    }

    /// Submits an event at the timer's own reading of the wall clock.
    pub fn submit_now(&mut self, event: Transition)
        ensures
            exists|t: u64| final(self)@ == spec_submit(old(self)@, event, t),
    {
        let now = millis_since(&self.epoch);
        self.submit(event, now);
        proof {
            assert(final(self)@ == spec_submit(old(self)@, event, now));
        }
    }

    /// Ticks at the timer's own reading of the wall clock.
    pub fn tick_now(&mut self)
        ensures
            exists|t: u64| final(self)@ == spec_tick(old(self)@, t),
    {
        let now = millis_since(&self.epoch);
        self.tick(now);
        proof {
            assert(final(self)@ == spec_tick(old(self)@, now));
        }
    }

    /// Sets the regulation length, in whole seconds. Configuration is
    /// accepted only while the machine is still configuring; at any other
    /// time the previous value stands.
    pub fn set_regulation_secs(&mut self, secs: u64)
        ensures
            final(self)@ == (if old(self)@.state is Configuring {
                TimerView {
                    cfg_regulation_secs: secs,
                    regulation_ms: spec_secs_to_ms(secs),
                    ..old(self)@
                }
            } else {
                old(self)@
            }),
    {
        if self.state == RegulationState::Configuring {
            self.cfg_regulation_secs = secs;
            self.regulation_ms = secs_to_ms(secs);
        }
    }

    /// Sets the non-engagement allowance, in whole seconds, under the same
    /// rule as `set_regulation_secs`. Its half, which bounds the first
    /// display stage, is derived on entry into `Start`.
    pub fn set_penalty_free_secs(&mut self, secs: u64)
        ensures
            final(self)@ == (if old(self)@.state is Configuring {
                TimerView {
                    cfg_penalty_free_secs: secs,
                    penalty_free_ms: spec_secs_to_ms(secs),
                    ..old(self)@
                }
            } else {
                old(self)@
            }),
    {
        if self.state == RegulationState::Configuring {
            self.cfg_penalty_free_secs = secs;
            self.penalty_free_ms = secs_to_ms(secs);
        }
    }

    pub fn regulation_state(&self) -> (r: RegulationState)
        ensures
            r == self@.state,
    {
        self.state
    }

    pub fn overtime_state(&self) -> (r: OvertimeState)
        ensures
            r == self@.overtime_state,
    {
        self.overtime_state
    }

    pub fn winner(&self) -> (r: Option<Fighter>)
        ensures
            r == self@.winner,
    {
        self.winner
    }

    /// The round log, oldest first: even indices are Fighter A's rounds,
    /// odd indices Fighter B's.
    pub fn segments(&self) -> (r: &Vec<Segment>)
        ensures
            r@ == self@.segments,
    {
        &self.segments
    }

    /// Time spent in the `NotEngaged` and `Engaged` states, as of `now`.
    pub fn regulation_elapsed_ms(&self, now: u64) -> (r: u64)
        ensures
            r == self@.reg_clock.spec_elapsed(now),
    {
        self.reg_clock.elapsed(now)
    }

    /// Time spent in the `NotEngaged` state, as of `now`.
    pub fn non_engaged_elapsed_ms(&self, now: u64) -> (r: u64)
        ensures
            r == self@.ne_clock.spec_elapsed(now),
    {
        self.ne_clock.elapsed(now)
    }

    /// Time spent engaged within the current overtime round, as of `now`.
    pub fn overtime_elapsed_ms(&self, now: u64) -> (r: u64)
        ensures
            r == self@.ot_clock.spec_elapsed(now),
    {
        self.ot_clock.elapsed(now)
    }

    pub fn regulation_duration_ms(&self) -> (r: u64)
        ensures
            r == self@.regulation_ms,
    {
        self.regulation_ms
    }

    pub fn penalty_free_duration_ms(&self) -> (r: u64)
        ensures
            r == self@.penalty_free_ms,
    {
        self.penalty_free_ms
    }

    /// The penalty committed on entry into overtime.
    pub fn total_penalty_ms(&self) -> (r: u64)
        ensures
            r == self@.total_penalty_ms,
    {
        self.total_penalty_ms
    }

    /// The target length of the current overtime round: the standard round
    /// length plus half the committed penalty.
    pub fn round_target_ms(&self) -> (r: u64)
        ensures
            r == spec_round_target_ms(self@),
    {
        self.standard_overtime_ms.saturating_add(self.penalty_divided_ms)
    }

    /// The display classification of the non-engagement budget, as of
    /// `now`.
    pub fn match_stage(&self, now: u64) -> (r: MatchStage)
        ensures
            r == spec_stage(
                self@.ne_clock.spec_elapsed(now),
                self@.half_penalty_free_ms,
                self@.penalty_free_ms,
            ),
    {
        let ne = self.ne_clock.elapsed(now);
        stage_of(ne, self.half_penalty_free_ms, self.penalty_free_ms)
    }

    /// The penalty the display shows, as of `now`: the non-engagement
    /// total so far over the allowance.
    pub fn current_penalty_ms(&self, now: u64) -> (r: u64)
        ensures
            r == spec_penalty(self@.ne_clock.spec_elapsed(now), self@.penalty_free_ms),
    {
        let ne = self.ne_clock.elapsed(now);
        penalty_ms(ne, self.penalty_free_ms)
    }
}

impl Default for CjjTimer {
    /// Equivalent to `new`.
    fn default() -> (t: CjjTimer)
        ensures
            t@ == TimerView::spec_init(),
    {
        CjjTimer::new()
    }
}

} // verus!
