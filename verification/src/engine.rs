//! The timer engine: one state value and one total transition function.
//!
//! The engine consumes discrete events (configuration text, commands, tick
//! signals) and produces a deterministic new state plus a chime intent.  Its
//! whole behaviour is given by the specification-level transition `step` on
//! the mathematical model `EngineModel`; the executable `update` is proved to
//! follow `step` exactly and to preserve the engine's invariant.

use vstd::prelude::*;

use crate::parse::parse_u32;
use crate::parse::spec_parse_u32;

verus! {

/// The timer's top-level mode.
#[derive(Debug, Clone, Copy, PartialEq, Eq, Structural)]
pub enum Phase {
    Stopped,
    Running,
    Paused,
}

/// The events the engine consumes; no other entry point mutates its state.
#[derive(Debug)]
pub enum TimerEvent {
    SetIntervalText(String),
    SetRoundsText(String),
    Start,
    Pause,
    Resume,
    Stop,
    Tick,
}

/// The engine's state: the configuration (raw text kept beside the last
/// valid parsed values) and the run state.
pub struct TimerEngine {
    /// Raw interval text, echoed verbatim even when invalid.
    pub interval_input: String,
    /// Raw rounds text, echoed verbatim even when invalid.
    pub rounds_input: String,
    /// Seconds per round; positive, kept when a candidate value is rejected.
    pub interval_secs: u32,
    /// Number of rounds; positive, kept when a candidate value is rejected.
    pub num_rounds: u32,
    /// The top-level mode.
    pub phase: Phase,
    /// Seconds elapsed since the current run started.
    pub elapsed_secs: u64,
    /// Cached `interval_secs * num_rounds`, recomputed on configuration
    /// change and on Start.
    pub total_duration_secs: u64,
    /// The round in progress, counted from 1.
    pub round_number: u64,
}

/// The mathematical model of the engine's state.
#[verifier::ext_equal]
pub ghost struct EngineModel {
    pub interval_input: Seq<char>,
    pub rounds_input: Seq<char>,
    pub interval_secs: int,
    pub num_rounds: int,
    pub phase: Phase,
    pub elapsed_secs: int,
    pub total_duration_secs: int,
    pub round_number: int,
}

/// The mathematical model of an event.
pub ghost enum EventModel {
    SetIntervalText(Seq<char>),
    SetRoundsText(Seq<char>),
    Start,
    Pause,
    Resume,
    Stop,
    Tick,
}

impl View for TimerEngine {
    type V = EngineModel;

    open spec fn view(&self) -> EngineModel {
        EngineModel {
            interval_input: self.interval_input@,
            rounds_input: self.rounds_input@,
            interval_secs: self.interval_secs as int,
            num_rounds: self.num_rounds as int,
            phase: self.phase,
            elapsed_secs: self.elapsed_secs as int,
            total_duration_secs: self.total_duration_secs as int,
            round_number: self.round_number as int,
        }
    }
}

impl View for TimerEvent {
    type V = EventModel;

    open spec fn view(&self) -> EventModel {
        match self {
            TimerEvent::SetIntervalText(text) => EventModel::SetIntervalText(text@),
            TimerEvent::SetRoundsText(text) => EventModel::SetRoundsText(text@),
            TimerEvent::Start => EventModel::Start,
            TimerEvent::Pause => EventModel::Pause,
            TimerEvent::Resume => EventModel::Resume,
            TimerEvent::Stop => EventModel::Stop,
            TimerEvent::Tick => EventModel::Tick,
        }
    }
}

/// The largest elapsed time any reachable run can show: the total duration
/// is capped by `u32::MAX * u32::MAX`, and time never advances past it.
pub const MAX_ELAPSED_SECS: u64 = 0xffff_ffff * 0xffff_ffff;

/// The engine's invariant: positive configuration, the cached total equal to
/// `interval_secs * num_rounds`, and the run counters within their bounds.
pub open spec fn wf_model(s: EngineModel) -> bool {
    &&& 1 <= s.interval_secs <= u32::MAX
    &&& 1 <= s.num_rounds <= u32::MAX
    &&& s.total_duration_secs == s.interval_secs * s.num_rounds
    &&& 1 <= s.round_number
    &&& s.round_number <= s.elapsed_secs + 1
    &&& 0 <= s.elapsed_secs <= MAX_ELAPSED_SECS
    &&& (s.phase != Phase::Stopped ==> s.elapsed_secs < MAX_ELAPSED_SECS)
}

/// The state the engine is created in: defaults 60 seconds, 20 rounds,
/// stopped at the first round with nothing elapsed.
pub open spec fn init_model() -> EngineModel {
    EngineModel {
        interval_input: "60"@,
        rounds_input: "20"@,
        interval_secs: 60,
        num_rounds: 20,
        phase: Phase::Stopped,
        elapsed_secs: 0,
        total_duration_secs: 1200,
        round_number: 1,
    }
}

/// Store the raw interval text verbatim; if it denotes a positive number,
/// adopt it and recompute the total, otherwise keep the numeric state.
pub open spec fn step_set_interval(pre: EngineModel, text: Seq<char>) -> EngineModel {
    let with_text = EngineModel { interval_input: text, ..pre };
    match spec_parse_u32(text) {
        Some(secs) => if secs > 0 {
            EngineModel {
                interval_secs: secs as int,
                total_duration_secs: (secs as int) * pre.num_rounds,
                ..with_text
            }
        } else {
            with_text
        },
        None => with_text,
    }
}

/// Symmetric to `step_set_interval`, for the number of rounds.
pub open spec fn step_set_rounds(pre: EngineModel, text: Seq<char>) -> EngineModel {
    let with_text = EngineModel { rounds_input: text, ..pre };
    match spec_parse_u32(text) {
        Some(rounds) => if rounds > 0 {
            EngineModel {
                num_rounds: rounds as int,
                total_duration_secs: pre.interval_secs * (rounds as int),
                ..with_text
            }
        } else {
            with_text
        },
        None => with_text,
    }
}

/// One second of time while Running: advance, chime at each multiple of the
/// interval, count the next round except at the final boundary, and stop
/// when the total duration is reached.  Ticks outside Running are no-ops.
pub open spec fn step_tick(pre: EngineModel) -> (EngineModel, bool) {
    if pre.phase != Phase::Running {
        (pre, false)
    } else {
        let elapsed = pre.elapsed_secs + 1;
        let chime = elapsed % pre.interval_secs == 0;
        let round = if chime && elapsed < pre.total_duration_secs {
            pre.round_number + 1
        } else {
            pre.round_number
        };
        let phase = if elapsed >= pre.total_duration_secs {
            Phase::Stopped
        } else {
            Phase::Running
        };
        (
            EngineModel { elapsed_secs: elapsed, round_number: round, phase: phase, ..pre },
            chime,
        )
    }
}

/// The transition function: the new state and whether a chime is due.
/// While Stopped, Pause, Resume, Stop and Tick are no-ops preserving all
/// fields; configuration events and Start act in every phase.
pub open spec fn step(pre: EngineModel, ev: EventModel) -> (EngineModel, bool) {
    match ev {
        EventModel::SetIntervalText(text) => (step_set_interval(pre, text), false),
        EventModel::SetRoundsText(text) => (step_set_rounds(pre, text), false),
        EventModel::Start => (
            EngineModel {
                phase: Phase::Running,
                elapsed_secs: 0,
                round_number: 1,
                total_duration_secs: pre.interval_secs * pre.num_rounds,
                ..pre
            },
            false,
        ),
        EventModel::Pause => (
            if pre.phase == Phase::Stopped {
                pre
            } else {
                EngineModel { phase: Phase::Paused, ..pre }
            },
            false,
        ),
        EventModel::Resume => (
            if pre.phase == Phase::Stopped {
                pre
            } else {
                EngineModel { phase: Phase::Running, ..pre }
            },
            false,
        ),
        EventModel::Stop => (
            if pre.phase == Phase::Stopped {
                pre
            } else {
                EngineModel {
                    phase: Phase::Stopped,
                    elapsed_secs: 0,
                    round_number: 1,
                    ..pre
                }
            },
            false,
        ),
        EventModel::Tick => step_tick(pre),
    }
}

/// A positive product of two values at most `u32::MAX` lies between 1 and
/// `u32::MAX * u32::MAX`.
proof fn lemma_total_bounds(interval: int, rounds: int)
    by (nonlinear_arith)
    requires
        1 <= interval <= 0xffff_ffff,
        1 <= rounds <= 0xffff_ffff,
    ensures
        1 <= interval * rounds <= 0xffff_ffff * 0xffff_ffff,
{
}

/// Every transition takes a well-formed state to a well-formed state.
pub proof fn lemma_step_preserves_wf(pre: EngineModel, ev: EventModel)
    requires
        wf_model(pre),
    ensures
        wf_model(step(pre, ev).0),
{
    lemma_total_bounds(pre.interval_secs, pre.num_rounds);
    match ev {
        EventModel::SetIntervalText(text) => {
            if let Some(secs) = spec_parse_u32(text) {
                if secs > 0 {
                    lemma_total_bounds(secs as int, pre.num_rounds);
                }
            }
        },
        EventModel::SetRoundsText(text) => {
            if let Some(rounds) = spec_parse_u32(text) {
                if rounds > 0 {
                    lemma_total_bounds(pre.interval_secs, rounds as int);
                }
            }
        },
        _ => {},
    }
}

/// The product of the current configuration, as a `u64`; it cannot overflow.
fn total_of(interval_secs: u32, num_rounds: u32) -> (total: u64)
    requires
        interval_secs >= 1,
        num_rounds >= 1,
    ensures
        total as int == interval_secs as int * num_rounds as int,
{
    proof {
        lemma_total_bounds(interval_secs as int, num_rounds as int);
    }
    (interval_secs as u64) * (num_rounds as u64)
}

impl TimerEngine {
    /// The engine's invariant, stated of the executable state.
    pub open spec fn wf(&self) -> bool {
        wf_model(self@)
    }

    /// A fresh engine: defaults of 60 seconds per round and 20 rounds,
    /// stopped with nothing elapsed and round 1 up next.
    pub fn new() -> (engine: TimerEngine)
        ensures
            engine@ == init_model(),
            engine.wf(),
    {
        let engine = TimerEngine {
            interval_input: String::from_str("60"),
            rounds_input: String::from_str("20"),
            interval_secs: 60,
            num_rounds: 20,
            phase: Phase::Stopped,
            elapsed_secs: 0,
            total_duration_secs: 1200,
            round_number: 1,
        };
        proof {
            assert(engine@ =~= init_model());
        }
        engine
    }

    /// Consume one event: the one authoritative state-update path.  Returns
    /// whether a chime is due now.  The new state and the chime intent are
    /// exactly those of the transition function `step`.
    pub fn update(&mut self, event: TimerEvent) -> (chime: bool)
        requires
            old(self).wf(),
        ensures
            final(self)@ == step(old(self)@, event@).0,
            chime == step(old(self)@, event@).1,
            final(self).wf(),
    {
        proof {
            lemma_step_preserves_wf(old(self)@, event@);
        }
        let mut chime = false;
        match event {
            TimerEvent::SetIntervalText(text) => {
                let parsed = parse_u32(text.as_str());
                self.interval_input = text;
                if let Some(secs) = parsed {
                    if secs > 0 {
                        self.interval_secs = secs;
                        self.total_duration_secs = total_of(secs, self.num_rounds);
                    }
                }
            },
            TimerEvent::SetRoundsText(text) => {
                let parsed = parse_u32(text.as_str());
                self.rounds_input = text;
                if let Some(rounds) = parsed {
                    if rounds > 0 {
                        self.num_rounds = rounds;
                        self.total_duration_secs = total_of(self.interval_secs, rounds);
                    }
                }
            },
            TimerEvent::Start => {
                self.phase = Phase::Running;
                self.elapsed_secs = 0;
                self.round_number = 1;
                self.total_duration_secs = total_of(self.interval_secs, self.num_rounds);
            },
            TimerEvent::Pause => {
                if !matches!(self.phase, Phase::Stopped) {
                    self.phase = Phase::Paused;
                }
            },
            TimerEvent::Resume => {
                if !matches!(self.phase, Phase::Stopped) {
                    self.phase = Phase::Running;
                }
            },
            TimerEvent::Stop => {
                if !matches!(self.phase, Phase::Stopped) {
                    self.phase = Phase::Stopped;
                    self.elapsed_secs = 0;
                    self.round_number = 1;
                }
            },
            TimerEvent::Tick => {
                if matches!(self.phase, Phase::Running) {
                    self.elapsed_secs = self.elapsed_secs + 1;
                    if self.elapsed_secs % (self.interval_secs as u64) == 0 {
                        chime = true;
                        if self.elapsed_secs < self.total_duration_secs {
                            self.round_number = self.round_number + 1;
                        }
                    }
                    if self.elapsed_secs >= self.total_duration_secs {
                        self.phase = Phase::Stopped;
                    }
                }
            },
        }
        proof {
            assert(final(self)@ =~= step(old(self)@, event@).0);
        }
        chime
    }

    /// Seconds left in the whole run, never negative.
    pub fn remaining_total_secs(&self) -> (remaining: u64)
        ensures
            remaining as int == spec_remaining_total_secs(self@),
    {
        if self.elapsed_secs >= self.total_duration_secs {
            0
        } else {
            self.total_duration_secs - self.elapsed_secs
        }
    }

    /// Seconds spent in the current round; 0 under a zero interval, which
    /// the invariant rules out but the guard keeps total.
    pub fn time_in_current_round(&self) -> (time_in_round: u64)
        ensures
            time_in_round as int == spec_time_in_current_round(self@),
    {
        if self.interval_secs == 0 {
            0
        } else {
            self.elapsed_secs % (self.interval_secs as u64)
        }
    }

    /// Seconds left in the current round: a whole interval at a boundary,
    /// the rest of the interval otherwise.
    pub fn round_remaining_secs(&self) -> (remaining: u64)
        ensures
            remaining as int == spec_round_remaining_secs(self@),
    {
        if self.interval_secs == 0 {
            0
        } else {
            let time_in_round = self.elapsed_secs % (self.interval_secs as u64);
            if time_in_round == 0 {
                self.interval_secs as u64
            } else {
                self.interval_secs as u64 - time_in_round
            }
        }
    }
}

/// `max(0, total_duration_secs - elapsed_secs)`.
pub open spec fn spec_remaining_total_secs(s: EngineModel) -> int {
    if s.elapsed_secs >= s.total_duration_secs {
        0
    } else {
        s.total_duration_secs - s.elapsed_secs
    }
}

/// `elapsed_secs mod interval_secs`, 0 when the interval is 0.
pub open spec fn spec_time_in_current_round(s: EngineModel) -> int {
    if s.interval_secs == 0 {
        0
    } else {
        s.elapsed_secs % s.interval_secs
    }
}

/// The interval at a round boundary, else the part of it still to come.
pub open spec fn spec_round_remaining_secs(s: EngineModel) -> int {
    if s.interval_secs == 0 {
        0
    } else if s.elapsed_secs % s.interval_secs == 0 {
        s.interval_secs
    } else {
        s.interval_secs - s.elapsed_secs % s.interval_secs
    }
}

} // verus!
