//! The bridge to the timer engine. The engine itself is an outside
//! collaborator; each call into it stands behind a small trusted wrapper,
//! and everything decided around those calls — classification, the rule
//! table, the tracker transitions — is verified.

use vstd::prelude::*;

use crate::classifier::{classify, classify_spec, ClassifyError};
use crate::config::Config;
use crate::machine::{decide, decide_spec, Command, Phase, RunState, TimerSnapshot};
use crate::tracker::{
    start_state_spec, tick_spec, tracker_start, tracker_tick, TickCommand, TrackerState,
};

verus! {

#[verifier::external_type_specification]
#[verifier::external_body]
pub struct ExTimer(livesplit_core::Timer);

#[verifier::external_type_specification]
#[verifier::external_body]
pub struct ExTimeSpan(livesplit_core::TimeSpan);

/// Relies on livesplit_core::Timer::current_phase: the engine's phase,
/// mapped one variant to one variant.
#[verifier::external_body]
fn timer_current_phase(timer: &livesplit_core::Timer) -> Phase {
    match timer.current_phase() {
        livesplit_core::TimerPhase::NotRunning => Phase::NotRunning,
        livesplit_core::TimerPhase::Running => Phase::Running,
        livesplit_core::TimerPhase::Ended => Phase::Ended,
        livesplit_core::TimerPhase::Paused => Phase::Paused,
    }
}

/// Relies on livesplit_core::Timer::is_game_time_initialized.
#[verifier::external_body]
fn timer_is_game_time_initialized(timer: &livesplit_core::Timer) -> bool {
    timer.is_game_time_initialized()
}

/// Relies on livesplit_core::Timer::snapshot and Snapshot::current_time:
/// the game-time clock's reading, or nothing while game time is
/// uninitialized.
#[verifier::external_body]
fn timer_game_time(timer: &livesplit_core::Timer) -> Option<livesplit_core::TimeSpan> {
    timer.snapshot().current_time().game_time
}

/// Relies on livesplit_core::TimeSpan::to_seconds_and_subsec_nanoseconds:
/// the span as whole seconds and the nanoseconds past the last full
/// second, its lossless representation.
#[verifier::external_body]
fn time_span_parts(span: &livesplit_core::TimeSpan) -> (i64, i32) {
    span.to_seconds_and_subsec_nanoseconds()
}

/// Relies on livesplit_core::TimeSpan::zero.
#[verifier::external_body]
fn time_span_zero() -> livesplit_core::TimeSpan {
    livesplit_core::TimeSpan::zero()
}

/// Relies on livesplit_core::Timer::start.
#[verifier::external_body]
fn timer_start(timer: &mut livesplit_core::Timer) {
    timer.start();
}

/// Relies on livesplit_core::Timer::split.
#[verifier::external_body]
fn timer_split(timer: &mut livesplit_core::Timer) {
    timer.split();
}

/// Relies on livesplit_core::Timer::reset; `update_splits` keeps the
/// attempt's history and best segments.
#[verifier::external_body]
fn timer_reset(timer: &mut livesplit_core::Timer, update_splits: bool) {
    timer.reset(update_splits);
}

/// Relies on livesplit_core::Timer::pause_game_time.
#[verifier::external_body]
fn timer_pause_game_time(timer: &mut livesplit_core::Timer) {
    timer.pause_game_time();
}

/// Relies on livesplit_core::Timer::resume_game_time.
#[verifier::external_body]
fn timer_resume_game_time(timer: &mut livesplit_core::Timer) {
    timer.resume_game_time();
}

/// Relies on livesplit_core::Timer::initialize_game_time.
#[verifier::external_body]
fn timer_initialize_game_time(timer: &mut livesplit_core::Timer) {
    timer.initialize_game_time();
}

/// Relies on livesplit_core::Timer::set_game_time.
#[verifier::external_body]
fn timer_set_game_time(timer: &mut livesplit_core::Timer, time: livesplit_core::TimeSpan) {
    timer.set_game_time(time);
}

/// Relies on livesplit_core::Timer::set_current_timing_method with
/// TimingMethod::RealTime.
#[verifier::external_body]
fn timer_use_real_time(timer: &mut livesplit_core::Timer) {
    timer.set_current_timing_method(livesplit_core::TimingMethod::RealTime);
}

/// Relies on livesplit_core::Timer::set_current_timing_method with
/// TimingMethod::GameTime.
#[verifier::external_body]
fn timer_use_game_time(timer: &mut livesplit_core::Timer) {
    timer.set_current_timing_method(livesplit_core::TimingMethod::GameTime);
}

/// A game-time reading, as whole seconds and subsecond nanoseconds, is
/// exactly zero; an absent reading is not.
pub open spec fn parts_are_zero(parts: Option<(i64, i32)>) -> bool {
    match parts {
        Some(p) => p.0 == 0 && p.1 == 0,
        None => false,
    }
}

/// Tests a game-time reading for zero, exactly as `parts_are_zero` says.
pub fn game_time_reads_zero(parts: Option<(i64, i32)>) -> (r: bool)
    ensures
        r == parts_are_zero(parts),
{
    match parts {
        Some((secs, nanos)) => secs == 0 && nanos == 0,
        None => false,
    }
}

/// Reads the phase and the game-time state of the engine at this instant.
/// What comes back depends on the engine's hidden state; the rule table
/// and the tracker are verified for every snapshot value, and the zero
/// test on the reading is specified in `parts_are_zero`.
pub fn read_snapshot(timer: &livesplit_core::Timer) -> TimerSnapshot {
    let phase = timer_current_phase(timer);
    let game_time_initialized = timer_is_game_time_initialized(timer);
    let parts = match timer_game_time(timer) {
        Some(game_time) => Some(time_span_parts(&game_time)),
        None => None,
    };
    let game_time_is_zero = game_time_reads_zero(parts);
    TimerSnapshot { phase, game_time_initialized, game_time_is_zero }
}

/// Sends one command to the engine. Commands addressed to the surrounding
/// run loop — saving the splits, launching the tracker — are not the
/// engine's and are passed over.
pub fn apply_command(timer: &mut livesplit_core::Timer, cmd: Command) {
    match cmd {
        Command::Start => timer_start(timer),
        Command::Split => timer_split(timer),
        Command::Reset { save_attempt_history } => timer_reset(timer, save_attempt_history),
        Command::PauseGameTime => timer_pause_game_time(timer),
        Command::UnpauseGameTime => timer_resume_game_time(timer),
        Command::InitializeGameTime => timer_initialize_game_time(timer),
        Command::SetGameTimeZero => timer_set_game_time(timer, time_span_zero()),
        Command::UseRealTime => timer_use_real_time(timer),
        Command::UseGameTime => timer_use_game_time(timer),
        Command::SaveSplits => {},
        Command::LaunchTracker => {},
    }
}

/// Sends each command to the engine, in order.
pub fn apply_commands(timer: &mut livesplit_core::Timer, cmds: &Vec<Command>) {
    let mut i: usize = 0;
    while i < cmds.len()
        decreases cmds@.len() - i,
    {
        apply_command(timer, cmds[i]);
        i += 1;
    }
}

/// What one log line did: the snapshot the rule table saw and the commands
/// it issued, already applied to the engine in order.
pub struct LineOutcome {
    /// The engine state the decision was made against.
    pub snapshot: TimerSnapshot,
    /// The commands the rule table issued for the event.
    pub commands: Vec<Command>,
}

/// Consumes one log line: classifies it, decides against a snapshot of the
/// engine, updates the run state, applies the timer commands, and reports
/// the snapshot used and the commands applied. A line with no event
/// changes nothing; a malformed simulation-start line is the one error.
pub fn handle_line(
    config: &Config,
    timer: &mut livesplit_core::Timer,
    state: &mut RunState,
    line: &str,
) -> (r: Result<Option<LineOutcome>, ClassifyError>)
    ensures
        match classify_spec(line@) {
            Err(e) => r matches Err(e2) && e2 == e && final(state)@ == old(state)@,
            Ok(None) => (r matches Ok(o) && o is None) && final(state)@ == old(state)@,
            Ok(Some(ev)) => r matches Ok(o) && o matches Some(out) && out.commands@ == decide_spec(
                *config,
                out.snapshot,
                old(state)@,
                ev,
            ).0 && final(state)@ == decide_spec(*config, out.snapshot, old(state)@, ev).1,
        },
{
    match classify(line) {
        Err(e) => Err(e),
        Ok(None) => Ok(None),
        Ok(Some(event)) => {
            let snapshot = read_snapshot(timer);
            let commands = decide(config, snapshot, state, &event);
            apply_commands(timer, &commands);
            Ok(Some(LineOutcome { snapshot, commands }))
        },
    }
}

/// Starts the game-time tracker against the engine: applies the start
/// commands for the loading flag first observed and returns the tracker's
/// starting state, or nothing when the engine falls back to real time.
pub fn start_tracker_on(timer: &mut livesplit_core::Timer, initial_loading: Option<bool>) -> (r:
    Option<TrackerState>)
    ensures
        r == start_state_spec(initial_loading),
{
    let (cmds, st) = tracker_start(initial_loading);
    apply_commands(timer, &cmds);
    st
}

/// Runs one tracker tick against the engine: reads a snapshot, applies the
/// transition, sends the pause or the resume, and reports the snapshot and
/// the command, so the caller can drop the process handle when asked to.
pub fn tick_tracker_on(
    timer: &mut livesplit_core::Timer,
    st: &mut TrackerState,
    sample: Option<bool>,
) -> (r: (TimerSnapshot, TickCommand))
    ensures
        *final(st) == tick_spec(*old(st), sample, r.0).0,
        r.1 == tick_spec(*old(st), sample, r.0).1,
{
    let snapshot = read_snapshot(timer);
    let cmd = tracker_tick(st, sample, snapshot);
    match cmd {
        TickCommand::Pause => timer_pause_game_time(timer),
        TickCommand::Unpause => timer_resume_game_time(timer),
        TickCommand::Idle => {},
        TickCommand::DropProcess => {},
    }
    (snapshot, cmd)
}

} // verus!
