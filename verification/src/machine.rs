//! The run state machine: a pure rule table from one classified event, the
//! static configuration, a snapshot of the timer, and the current world to
//! the commands the timer engine must receive and the next current world.

use vstd::prelude::*;

use crate::classifier::{Event, SpecEvent};
use crate::config::Config;
use crate::text::{contains_pat, contains_sub, str_eq};

verus! {

/// The timer engine's phase.
#[derive(Clone, Copy, PartialEq, Eq, Structural, Debug)]
pub enum Phase {
    NotRunning,
    Running,
    Ended,
    Paused,
}

/// What the rule table reads of the timer engine at one instant.
#[derive(Clone, Copy, PartialEq, Eq, Structural, Debug)]
pub struct TimerSnapshot {
    /// The engine's phase.
    pub phase: Phase,
    /// Game time has been initialized for the current attempt.
    pub game_time_initialized: bool,
    /// The game-time clock reads exactly zero; meaningful only while game
    /// time is initialized.
    pub game_time_is_zero: bool,
}

/// One command to the timer engine or to the surrounding run loop.
#[derive(Clone, Copy, PartialEq, Eq, Structural, Debug)]
pub enum Command {
    /// Start the attempt.
    Start,
    /// Record a split.
    Split,
    /// Reset the attempt, keeping its history when asked to.
    Reset { save_attempt_history: bool },
    /// Pause the game-time clock.
    PauseGameTime,
    /// Resume the game-time clock.
    UnpauseGameTime,
    /// Initialize game time for the attempt.
    InitializeGameTime,
    /// Set the game-time clock to zero.
    SetGameTimeZero,
    /// Time the attempt by real time.
    UseRealTime,
    /// Time the attempt by game time.
    UseGameTime,
    /// Persist the splits to the run store.
    SaveSplits,
    /// Launch the game-time tracker.
    LaunchTracker,
}

/// The run's own state: the world the player is in, when one is known.
pub struct RunState {
    pub current_world: Option<String>,
}

impl View for RunState {
    type V = Option<Seq<char>>;

    open spec fn view(&self) -> Option<Seq<char>> {
        match self.current_world {
            Some(w) => Some(w@),
            None => None,
        }
    }
}

impl RunState {
    /// A fresh run state: no world known yet.
    pub fn new() -> (r: RunState)
        ensures
            r@ is None,
    {
        RunState { current_world: None }
    }
}

/// The hub world whose re-entry may split.
pub open spec fn spec_nexus_world() -> Seq<char> {
    "Content/Talos/Levels/Nexus.wld"@
}

/// See [`spec_nexus_world`].
pub fn nexus_world() -> (r: &'static str)
    ensures
        r@ == spec_nexus_world(),
{
    "Content/Talos/Levels/Nexus.wld"
}

/// The world whose simulation start begins the attempt.
pub open spec fn spec_start_world() -> Seq<char> {
    "Content/Talos/Levels/Cloud_1_01.wld"@
}

/// See [`spec_start_world`].
pub fn start_world() -> (r: &'static str)
    ensures
        r@ == spec_start_world(),
{
    "Content/Talos/Levels/Cloud_1_01.wld"
}

/// The world the `in_a6` pickup override governs.
pub open spec fn spec_a6_world() -> Seq<char> {
    "Content/Talos/Levels/Cloud_1_06.wld"@
}

/// See [`spec_a6_world`].
pub fn a6_world() -> (r: &'static str)
    ensures
        r@ == spec_a6_world(),
{
    "Content/Talos/Levels/Cloud_1_06.wld"
}

/// The world the `in_b4` pickup override governs.
pub open spec fn spec_b4_world() -> Seq<char> {
    "Content/Talos/Levels/Cloud_2_04.wld"@
}

/// See [`spec_b4_world`].
pub fn b4_world() -> (r: &'static str)
    ensures
        r@ == spec_b4_world(),
{
    "Content/Talos/Levels/Cloud_2_04.wld"
}

/// The final world, where any user command splits.
pub open spec fn spec_end_world() -> Seq<char> {
    "Content/Talos/Levels/Islands_03.wld"@
}

/// See [`spec_end_world`].
pub fn end_world() -> (r: &'static str)
    ensures
        r@ == spec_end_world(),
{
    "Content/Talos/Levels/Islands_03.wld"
}

/// Whether a pickup may split in the current world: the general switch must
/// be on, a world must be known, and neither per-world override may forbid
/// it.
pub open spec fn pickup_allowed(config: Config, world: Option<Seq<char>>) -> bool {
    config.split_on_sigil_collection.in_general && match world {
        None => false,
        Some(w) => !(w == spec_a6_world() && !config.split_on_sigil_collection.in_a6) && !(w
            == spec_b4_world() && !config.split_on_sigil_collection.in_b4),
    }
}

/// Whether a user command splits: an eternalize or transcend command in the
/// hub world, or any command in the final world.
pub open spec fn user_command_splits(text: Seq<char>, world: Option<Seq<char>>) -> bool {
    ((contains_pat(text, "/eternalize"@) || contains_pat(text, "/transcend"@)) && world == Some(
        spec_nexus_world(),
    )) || world == Some(spec_end_world())
}

/// The rule table: the commands to issue and the next current world, for
/// one classified event.
pub open spec fn decide_spec(
    config: Config,
    snap: TimerSnapshot,
    world: Option<Seq<char>>,
    ev: SpecEvent,
) -> (Seq<Command>, Option<Seq<char>>) {
    match ev {
        SpecEvent::WorldChanged { world: w } => if snap.phase == Phase::Running
            && config.split_on_return_to_nexus && w == spec_nexus_world() && world != Some(w) {
            (seq![Command::Split], Some(w))
        } else {
            (Seq::<Command>::empty(), Some(w))
        },
        SpecEvent::SimulationStarted { world: w, load_seconds: _ } => if snap.phase
            == Phase::NotRunning && w == spec_start_world() {
            (seq![Command::Start, Command::LaunchTracker], Some(w))
        } else {
            (Seq::<Command>::empty(), world)
        },
        SpecEvent::SimulationStopped => (
            seq![Command::Reset { save_attempt_history: true }, Command::SaveSplits],
            None,
        ),
        SpecEvent::ProfileSaved => (Seq::<Command>::empty(), world),
        SpecEvent::ItemPicked => if snap.phase == Phase::Running && pickup_allowed(config, world) {
            (seq![Command::Split], world)
        } else {
            (Seq::<Command>::empty(), world)
        },
        SpecEvent::PuzzleSolved => if snap.phase == Phase::Running
            && config.split_on_tetromino_doors {
            (seq![Command::Split], world)
        } else {
            (Seq::<Command>::empty(), world)
        },
        SpecEvent::UserCommand { text } => if user_command_splits(text, world) {
            (seq![Command::Split], world)
        } else {
            (Seq::<Command>::empty(), world)
        },
        SpecEvent::DelayedSaveRequested => if snap.phase == Phase::Running
            && snap.game_time_initialized && snap.game_time_is_zero {
            (seq![Command::UnpauseGameTime], world)
        } else {
            (Seq::<Command>::empty(), world)
        },
    }
}

/// Applies the rule table to one event: updates the current world and
/// returns the commands to issue, exactly as `decide_spec` states.
pub fn decide(config: &Config, snap: TimerSnapshot, state: &mut RunState, event: &Event) -> (cmds:
    Vec<Command>)
    ensures
        cmds@ == decide_spec(*config, snap, old(state)@, event@).0,
        final(state)@ == decide_spec(*config, snap, old(state)@, event@).1,
{
    let mut cmds: Vec<Command> = Vec::new();
    match event {
        Event::WorldChanged { world } => {
            let is_nexus = str_eq(world.as_str(), nexus_world());
            let differs = match &state.current_world {
                None => true,
                Some(cw) => !str_eq(cw.as_str(), world.as_str()),
            };
            if snap.phase == Phase::Running && config.split_on_return_to_nexus && is_nexus
                && differs {
                cmds.push(Command::Split);
                proof {
                    assert(cmds@ =~= seq![Command::Split]);
                }
            }
            state.current_world = Some(world.clone());
        },
        Event::SimulationStarted { world, load_seconds: _ } => {
            let is_start = str_eq(world.as_str(), start_world());
            if snap.phase == Phase::NotRunning && is_start {
                cmds.push(Command::Start);
                cmds.push(Command::LaunchTracker);
                state.current_world = Some(world.clone());
                proof {
                    assert(cmds@ =~= seq![Command::Start, Command::LaunchTracker]);
                }
            }
        },
        Event::SimulationStopped => {
            cmds.push(Command::Reset { save_attempt_history: true });
            cmds.push(Command::SaveSplits);
            state.current_world = None;
            proof {
                assert(cmds@ =~= seq![
                    Command::Reset { save_attempt_history: true },
                    Command::SaveSplits,
                ]);
            }
        },
        Event::ProfileSaved => {},
        Event::ItemPicked => {
            let allowed = config.split_on_sigil_collection.in_general && match &state.current_world {
                None => false,
                Some(cw) => {
                    let in_a6 = str_eq(cw.as_str(), a6_world());
                    let in_b4 = str_eq(cw.as_str(), b4_world());
                    !(in_a6 && !config.split_on_sigil_collection.in_a6) && !(in_b4
                        && !config.split_on_sigil_collection.in_b4)
                },
            };
            if snap.phase == Phase::Running && allowed {
                cmds.push(Command::Split);
                proof {
                    assert(cmds@ =~= seq![Command::Split]);
                }
            }
        },
        Event::PuzzleSolved => {
            if snap.phase == Phase::Running && config.split_on_tetromino_doors {
                cmds.push(Command::Split);
                proof {
                    assert(cmds@ =~= seq![Command::Split]);
                }
            }
        },
        Event::UserCommand { text } => {
            let in_nexus = match &state.current_world {
                None => false,
                Some(cw) => str_eq(cw.as_str(), nexus_world()),
            };
            let in_end = match &state.current_world {
                None => false,
                Some(cw) => str_eq(cw.as_str(), end_world()),
            };
            let command_splits = ((contains_sub(text.as_str(), "/eternalize") || contains_sub(
                text.as_str(),
                "/transcend",
            )) && in_nexus) || in_end;
            if command_splits {
                cmds.push(Command::Split);
                proof {
                    assert(cmds@ =~= seq![Command::Split]);
                }
            }
        },
        Event::DelayedSaveRequested => {
            if snap.phase == Phase::Running && snap.game_time_initialized
                && snap.game_time_is_zero {
                cmds.push(Command::UnpauseGameTime);
                proof {
                    assert(cmds@ =~= seq![Command::UnpauseGameTime]);
                }
            }
        },
    }
    cmds
}

/// Stopping the simulation always resets the timer (keeping the attempt
/// history), persists the splits, and clears the current world, whatever
/// the configuration, the snapshot, and the prior world.
pub proof fn lemma_stop_always_resets(
    config: Config,
    snap: TimerSnapshot,
    world: Option<Seq<char>>,
)
    ensures
        decide_spec(config, snap, world, SpecEvent::SimulationStopped).0 == seq![
            Command::Reset { save_attempt_history: true },
            Command::SaveSplits,
        ],
        decide_spec(config, snap, world, SpecEvent::SimulationStopped).1 is None,
{
}

/// A repeated simulation start for the designated start world while the
/// attempt is already running issues no command and leaves the current
/// world as it was.
pub proof fn lemma_restart_is_noop(
    config: Config,
    snap: TimerSnapshot,
    world: Option<Seq<char>>,
    load_seconds: Seq<char>,
)
    requires
        snap.phase == Phase::Running,
    ensures
        decide_spec(
            config,
            snap,
            world,
            SpecEvent::SimulationStarted { world: spec_start_world(), load_seconds },
        ).0 == Seq::<Command>::empty(),
        decide_spec(
            config,
            snap,
            world,
            SpecEvent::SimulationStarted { world: spec_start_world(), load_seconds },
        ).1 == world,
{
}

} // verus!

