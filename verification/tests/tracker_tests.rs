use talos_splits::machine::{Command, Phase, TimerSnapshot};
use talos_splits::tracker::{tracker_start, tracker_tick, TickCommand, TrackerState};

fn running_initialized() -> TimerSnapshot {
    TimerSnapshot { phase: Phase::Running, game_time_initialized: true, game_time_is_zero: false }
}

#[test]
fn start_without_a_readable_process_falls_back_to_real_time() {
    let (cmds, st) = tracker_start(None);
    assert_eq!(cmds, vec![Command::UseRealTime]);
    assert_eq!(st, None);
}

#[test]
fn start_with_a_readable_process_arms_game_time() {
    let (cmds, st) = tracker_start(Some(false));
    assert_eq!(
        cmds,
        vec![
            Command::UseGameTime,
            Command::InitializeGameTime,
            Command::PauseGameTime,
            Command::SetGameTimeZero,
        ]
    );
    assert_eq!(st, Some(TrackerState { was_loading: false, awaiting_first_resume: true }));

    let (_, st) = tracker_start(Some(true));
    assert_eq!(st, Some(TrackerState { was_loading: true, awaiting_first_resume: true }));
}

#[test]
fn loading_sequence_pauses_absorbs_the_cutscene_then_unpauses() {
    // Samples false, true, false, true, false from tracker start: the first
    // one is the reading the tracker starts with.
    let (_, st) = tracker_start(Some(false));
    let mut st = st.unwrap();

    let cmd = tracker_tick(&mut st, Some(true), running_initialized());
    assert_eq!(cmd, TickCommand::Pause);

    // The first loading-to-not-loading transition is the intro cutscene and
    // must not unpause.
    let cmd = tracker_tick(&mut st, Some(false), running_initialized());
    assert_eq!(cmd, TickCommand::Idle);
    assert!(!st.awaiting_first_resume);

    let cmd = tracker_tick(&mut st, Some(true), running_initialized());
    assert_eq!(cmd, TickCommand::Pause);

    let cmd = tracker_tick(&mut st, Some(false), running_initialized());
    assert_eq!(cmd, TickCommand::Unpause);
}

#[test]
fn steady_state_is_idle() {
    let mut st = TrackerState { was_loading: true, awaiting_first_resume: false };
    let cmd = tracker_tick(&mut st, Some(true), running_initialized());
    assert_eq!(cmd, TickCommand::Idle);
    assert_eq!(st, TrackerState { was_loading: true, awaiting_first_resume: false });
}

#[test]
fn a_failed_sample_drops_the_process() {
    let mut st = TrackerState { was_loading: false, awaiting_first_resume: false };
    let cmd = tracker_tick(&mut st, None, running_initialized());
    assert_eq!(cmd, TickCommand::DropProcess);
    assert_eq!(st, TrackerState { was_loading: false, awaiting_first_resume: false });
}

#[test]
fn a_transition_outside_a_run_drops_the_process() {
    let snap = TimerSnapshot {
        phase: Phase::NotRunning,
        game_time_initialized: false,
        game_time_is_zero: false,
    };
    let mut st = TrackerState { was_loading: false, awaiting_first_resume: false };
    let cmd = tracker_tick(&mut st, Some(true), snap);
    assert_eq!(cmd, TickCommand::DropProcess);
    assert!(st.was_loading);

    let mut st = TrackerState { was_loading: true, awaiting_first_resume: false };
    let cmd = tracker_tick(&mut st, Some(false), snap);
    assert_eq!(cmd, TickCommand::DropProcess);
    assert!(!st.was_loading);
}

#[test]
fn uninitialized_game_time_also_drops_the_process() {
    let snap = TimerSnapshot {
        phase: Phase::Running,
        game_time_initialized: false,
        game_time_is_zero: false,
    };
    let mut st = TrackerState { was_loading: false, awaiting_first_resume: false };
    let cmd = tracker_tick(&mut st, Some(true), snap);
    assert_eq!(cmd, TickCommand::DropProcess);
}
