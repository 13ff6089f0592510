use talos_splits::classifier::Event;
use talos_splits::config::{Config, SigilCollectionConfig};
use talos_splits::machine::{decide, Command, Phase, RunState, TimerSnapshot};

fn config_all_on() -> Config {
    Config {
        split_on_return_to_nexus: true,
        split_on_tetromino_doors: true,
        split_on_item_unlocks: false,
        split_on_sigil_collection: SigilCollectionConfig {
            in_general: true,
            in_a6: true,
            in_b4: true,
        },
    }
}

fn running() -> TimerSnapshot {
    TimerSnapshot { phase: Phase::Running, game_time_initialized: true, game_time_is_zero: false }
}

fn not_running() -> TimerSnapshot {
    TimerSnapshot {
        phase: Phase::NotRunning,
        game_time_initialized: false,
        game_time_is_zero: false,
    }
}

const NEXUS: &str = "Content/Talos/Levels/Nexus.wld";
const START: &str = "Content/Talos/Levels/Cloud_1_01.wld";
const A6: &str = "Content/Talos/Levels/Cloud_1_06.wld";
const B4: &str = "Content/Talos/Levels/Cloud_2_04.wld";
const END: &str = "Content/Talos/Levels/Islands_03.wld";

#[test]
fn entering_nexus_splits_once_and_only_once() {
    let config = config_all_on();
    let mut state = RunState { current_world: Some("A".to_string()) };
    let event = Event::WorldChanged { world: NEXUS.to_string() };

    let cmds = decide(&config, running(), &mut state, &event);
    assert_eq!(cmds, vec![Command::Split]);
    assert_eq!(state.current_world, Some(NEXUS.to_string()));

    let cmds = decide(&config, running(), &mut state, &event);
    assert_eq!(cmds, vec![]);
    assert_eq!(state.current_world, Some(NEXUS.to_string()));
}

#[test]
fn entering_nexus_without_the_rule_does_not_split() {
    let mut config = config_all_on();
    config.split_on_return_to_nexus = false;
    let mut state = RunState { current_world: Some("A".to_string()) };
    let event = Event::WorldChanged { world: NEXUS.to_string() };

    let cmds = decide(&config, running(), &mut state, &event);
    assert_eq!(cmds, vec![]);
    assert_eq!(state.current_world, Some(NEXUS.to_string()));
}

#[test]
fn world_change_always_records_the_world() {
    let config = config_all_on();
    let mut state = RunState { current_world: None };
    let event = Event::WorldChanged { world: "B".to_string() };

    let cmds = decide(&config, not_running(), &mut state, &event);
    assert_eq!(cmds, vec![]);
    assert_eq!(state.current_world, Some("B".to_string()));
}

#[test]
fn pickup_respects_the_per_world_overrides() {
    let mut config = config_all_on();
    config.split_on_sigil_collection =
        SigilCollectionConfig { in_general: true, in_a6: false, in_b4: true };

    let mut state = RunState { current_world: Some(A6.to_string()) };
    let cmds = decide(&config, running(), &mut state, &Event::ItemPicked);
    assert_eq!(cmds, vec![]);

    let mut state = RunState { current_world: Some(B4.to_string()) };
    let cmds = decide(&config, running(), &mut state, &Event::ItemPicked);
    assert_eq!(cmds, vec![Command::Split]);
}

#[test]
fn pickup_needs_the_general_rule() {
    let mut config = config_all_on();
    config.split_on_sigil_collection.in_general = false;
    let mut state = RunState { current_world: Some(B4.to_string()) };
    let cmds = decide(&config, running(), &mut state, &Event::ItemPicked);
    assert_eq!(cmds, vec![]);
}

#[test]
fn pickup_without_a_known_world_is_ignored() {
    let config = config_all_on();
    let mut state = RunState { current_world: None };
    let cmds = decide(&config, running(), &mut state, &Event::ItemPicked);
    assert_eq!(cmds, vec![]);
    assert_eq!(state.current_world, None);
}

#[test]
fn pickup_outside_a_run_does_not_split() {
    let config = config_all_on();
    let mut state = RunState { current_world: Some(B4.to_string()) };
    let cmds = decide(&config, not_running(), &mut state, &Event::ItemPicked);
    assert_eq!(cmds, vec![]);
}

#[test]
fn puzzle_splits_while_running_with_the_rule_on() {
    let config = config_all_on();
    let mut state = RunState { current_world: Some("A".to_string()) };
    let cmds = decide(&config, running(), &mut state, &Event::PuzzleSolved);
    assert_eq!(cmds, vec![Command::Split]);

    let mut config_off = config_all_on();
    config_off.split_on_tetromino_doors = false;
    let cmds = decide(&config_off, running(), &mut state, &Event::PuzzleSolved);
    assert_eq!(cmds, vec![]);
}

#[test]
fn stopping_always_resets_and_clears_the_world() {
    let config = config_all_on();
    for snap in [running(), not_running()] {
        let mut state = RunState { current_world: Some(NEXUS.to_string()) };
        let cmds = decide(&config, snap, &mut state, &Event::SimulationStopped);
        assert_eq!(
            cmds,
            vec![Command::Reset { save_attempt_history: true }, Command::SaveSplits]
        );
        assert_eq!(state.current_world, None);
    }
}

#[test]
fn starting_the_start_world_starts_the_run() {
    let config = config_all_on();
    let mut state = RunState { current_world: None };
    let event = Event::SimulationStarted {
        world: START.to_string(),
        load_seconds: "9.5".to_string(),
    };
    let cmds = decide(&config, not_running(), &mut state, &event);
    assert_eq!(cmds, vec![Command::Start, Command::LaunchTracker]);
    assert_eq!(state.current_world, Some(START.to_string()));
}

#[test]
fn restarting_while_running_is_a_no_op() {
    let config = config_all_on();
    let mut state = RunState { current_world: Some("B".to_string()) };
    let event = Event::SimulationStarted {
        world: START.to_string(),
        load_seconds: "9.5".to_string(),
    };
    let cmds = decide(&config, running(), &mut state, &event);
    assert_eq!(cmds, vec![]);
    assert_eq!(state.current_world, Some("B".to_string()));
}

#[test]
fn starting_another_world_does_nothing() {
    let config = config_all_on();
    let mut state = RunState { current_world: None };
    let event = Event::SimulationStarted {
        world: NEXUS.to_string(),
        load_seconds: "1".to_string(),
    };
    let cmds = decide(&config, not_running(), &mut state, &event);
    assert_eq!(cmds, vec![]);
    assert_eq!(state.current_world, None);
}

#[test]
fn eternalize_in_nexus_splits() {
    let config = config_all_on();
    let mut state = RunState { current_world: Some(NEXUS.to_string()) };
    let event = Event::UserCommand { text: "USER: /eternalize".to_string() };
    let cmds = decide(&config, running(), &mut state, &event);
    assert_eq!(cmds, vec![Command::Split]);
}

#[test]
fn eternalize_elsewhere_does_not_split() {
    let config = config_all_on();
    let mut state = RunState { current_world: Some("A".to_string()) };
    let event = Event::UserCommand { text: "USER: /eternalize".to_string() };
    let cmds = decide(&config, running(), &mut state, &event);
    assert_eq!(cmds, vec![]);
}

#[test]
fn any_command_in_the_end_world_splits() {
    let config = config_all_on();
    let mut state = RunState { current_world: Some(END.to_string()) };
    let event = Event::UserCommand { text: "USER: whatever".to_string() };
    let cmds = decide(&config, running(), &mut state, &event);
    assert_eq!(cmds, vec![Command::Split]);
}

#[test]
fn delayed_save_unpauses_only_at_zero_game_time() {
    let config = config_all_on();
    let mut state = RunState { current_world: Some(START.to_string()) };

    let snap = TimerSnapshot {
        phase: Phase::Running,
        game_time_initialized: true,
        game_time_is_zero: true,
    };
    let cmds = decide(&config, snap, &mut state, &Event::DelayedSaveRequested);
    assert_eq!(cmds, vec![Command::UnpauseGameTime]);

    let cmds = decide(&config, running(), &mut state, &Event::DelayedSaveRequested);
    assert_eq!(cmds, vec![]);

    let snap = TimerSnapshot {
        phase: Phase::Running,
        game_time_initialized: false,
        game_time_is_zero: true,
    };
    let cmds = decide(&config, snap, &mut state, &Event::DelayedSaveRequested);
    assert_eq!(cmds, vec![]);
}

#[test]
fn profile_saved_does_nothing() {
    let config = config_all_on();
    let mut state = RunState { current_world: Some("A".to_string()) };
    let cmds = decide(&config, running(), &mut state, &Event::ProfileSaved);
    assert_eq!(cmds, vec![]);
    assert_eq!(state.current_world, Some("A".to_string()));
}
