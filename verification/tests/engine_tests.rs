use livesplit_core::{Run, Segment, Timer};
use talos_splits::config::{Config, SigilCollectionConfig};
use talos_splits::engine::{game_time_reads_zero, handle_line, start_tracker_on, tick_tracker_on};
use talos_splits::machine::{Command, Phase, RunState};
use talos_splits::tracker::TickCommand;

fn config_all_on() -> Config {
    Config {
        split_on_return_to_nexus: true,
        split_on_tetromino_doors: true,
        split_on_item_unlocks: false,
        split_on_sigil_collection: SigilCollectionConfig {
            in_general: true,
            in_a6: true,
            in_b4: true,
        },
    }
}

fn fresh_timer() -> Timer {
    let mut run = Run::new();
    run.push_segment(Segment::new("Segment A"));
    run.push_segment(Segment::new("Segment B"));
    Timer::new(run).expect("a run with segments makes a timer")
}

#[test]
fn a_start_line_starts_the_engine() {
    let config = config_all_on();
    let mut timer = fresh_timer();
    let mut state = RunState { current_world: None };

    let r = handle_line(
        &config,
        &mut timer,
        &mut state,
        "Started simulation on 'Content/Talos/Levels/Cloud_1_01.wld' in 13.7 seconds.",
    );
    let outcome = r.unwrap().unwrap();
    assert_eq!(outcome.commands, vec![Command::Start, Command::LaunchTracker]);
    assert_eq!(outcome.snapshot.phase, Phase::NotRunning);
    assert!(timer.current_phase().is_running());
    assert_eq!(
        state.current_world,
        Some("Content/Talos/Levels/Cloud_1_01.wld".to_string())
    );
}

#[test]
fn an_unmatched_line_changes_nothing() {
    let config = config_all_on();
    let mut timer = fresh_timer();
    let mut state = RunState { current_world: None };

    let r = handle_line(&config, &mut timer, &mut state, "nothing to see");
    assert!(r.unwrap().is_none());
    assert!(timer.current_phase().is_not_running());
    assert_eq!(state.current_world, None);
}

#[test]
fn a_stop_line_resets_the_engine() {
    let config = config_all_on();
    let mut timer = fresh_timer();
    let mut state = RunState { current_world: None };

    handle_line(
        &config,
        &mut timer,
        &mut state,
        "Started simulation on 'Content/Talos/Levels/Cloud_1_01.wld' in 2 seconds.",
    )
    .unwrap();
    assert!(timer.current_phase().is_running());

    let r = handle_line(
        &config,
        &mut timer,
        &mut state,
        "Stopping simulation (duration: 88.2).",
    );
    let outcome = r.unwrap().unwrap();
    assert_eq!(
        outcome.commands,
        vec![Command::Reset { save_attempt_history: true }, Command::SaveSplits]
    );
    assert!(timer.current_phase().is_not_running());
    assert_eq!(state.current_world, None);
}

#[test]
fn the_tracker_arms_game_time_and_the_delayed_save_resumes_it() {
    let config = config_all_on();
    let mut timer = fresh_timer();
    let mut state = RunState { current_world: None };

    handle_line(
        &config,
        &mut timer,
        &mut state,
        "Started simulation on 'Content/Talos/Levels/Cloud_1_01.wld' in 2 seconds.",
    )
    .unwrap();

    let tracker = start_tracker_on(&mut timer, Some(false));
    let tracker = tracker.expect("a readable process arms game time");
    assert!(tracker.awaiting_first_resume);
    assert!(timer.is_game_time_initialized());
    assert!(timer.is_game_time_paused());

    // The game-time clock was just zeroed and paused: the delayed-save
    // event must resume it.
    let r = handle_line(
        &config,
        &mut timer,
        &mut state,
        "Save Talos Progress: delayed request",
    );
    let outcome = r.unwrap().unwrap();
    assert_eq!(outcome.snapshot.phase, Phase::Running);
    assert!(outcome.snapshot.game_time_initialized);
    assert!(outcome.snapshot.game_time_is_zero);
    assert_eq!(outcome.commands, vec![Command::UnpauseGameTime]);
    assert!(!timer.is_game_time_paused());
}

#[test]
fn the_tracker_pauses_on_a_loading_transition() {
    let config = config_all_on();
    let mut timer = fresh_timer();
    let mut state = RunState { current_world: None };

    handle_line(
        &config,
        &mut timer,
        &mut state,
        "Started simulation on 'Content/Talos/Levels/Cloud_1_01.wld' in 2 seconds.",
    )
    .unwrap();
    let mut tracker = start_tracker_on(&mut timer, Some(false)).unwrap();

    // Resume once so a pause can be observed.
    handle_line(&config, &mut timer, &mut state, "Save Talos Progress: delayed request").unwrap();
    assert!(!timer.is_game_time_paused());

    let (snapshot, cmd) = tick_tracker_on(&mut timer, &mut tracker, Some(true));
    assert_eq!(cmd, TickCommand::Pause);
    assert_eq!(snapshot.phase, Phase::Running);
    assert!(snapshot.game_time_initialized);
    assert!(timer.is_game_time_paused());
}

#[test]
fn only_an_exactly_zero_reading_counts_as_zero() {
    assert!(game_time_reads_zero(Some((0, 0))));
    assert!(!game_time_reads_zero(Some((0, 1))));
    assert!(!game_time_reads_zero(Some((1, 0))));
    assert!(!game_time_reads_zero(Some((-1, 0))));
    assert!(!game_time_reads_zero(None));
}

#[test]
fn a_real_time_fallback_leaves_game_time_alone() {
    let mut timer = fresh_timer();
    let tracker = start_tracker_on(&mut timer, None);
    assert!(tracker.is_none());
    assert!(!timer.is_game_time_initialized());
}
