//! The game-time tracker's decision logic: a pure transition function from
//! one loading sample to the command the timer engine must receive. The
//! first loading-to-not-loading transition after tracker start is absorbed,
//! so the game's intro cutscene does not start the clock early.

use vstd::prelude::*;

use crate::machine::{Command, Phase, TimerSnapshot};

verus! {

/// The tracker's state between two poll ticks.
#[derive(Clone, Copy, PartialEq, Eq, Structural, Debug)]
pub struct TrackerState {
    /// The loading flag the previous tick observed.
    pub was_loading: bool,
    /// The first loading-to-not-loading transition has not happened yet and
    /// must not unpause.
    pub awaiting_first_resume: bool,
}

/// What one poll tick asks of the surrounding loop.
#[derive(Clone, Copy, PartialEq, Eq, Structural, Debug)]
pub enum TickCommand {
    /// Nothing to do.
    Idle,
    /// Pause the game-time clock.
    Pause,
    /// Resume the game-time clock.
    Unpause,
    /// Drop the cached process handle and re-resolve it on a later tick.
    DropProcess,
}

/// The tracker's transition function. A failed sample drops the process; a
/// transition is acted on only while the engine is running with game time
/// initialized, and otherwise also drops the process; the first
/// loading-to-not-loading transition is absorbed.
pub open spec fn tick_spec(st: TrackerState, sample: Option<bool>, snap: TimerSnapshot) -> (
    TrackerState,
    TickCommand,
) {
    match sample {
        None => (st, TickCommand::DropProcess),
        Some(loading) => if loading == st.was_loading {
            (st, TickCommand::Idle)
        } else if loading {
            let st2 = TrackerState { was_loading: true, ..st };
            if snap.phase == Phase::Running && snap.game_time_initialized {
                (st2, TickCommand::Pause)
            } else {
                (st2, TickCommand::DropProcess)
            }
        } else if st.awaiting_first_resume {
            (TrackerState { was_loading: false, awaiting_first_resume: false }, TickCommand::Idle)
        } else {
            let st2 = TrackerState { was_loading: false, ..st };
            if snap.phase == Phase::Running && snap.game_time_initialized {
                (st2, TickCommand::Unpause)
            } else {
                (st2, TickCommand::DropProcess)
            }
        },
    }
}

/// Runs one poll tick: updates the tracker state and returns the command,
/// exactly as `tick_spec` states.
pub fn tracker_tick(st: &mut TrackerState, sample: Option<bool>, snap: TimerSnapshot) -> (cmd:
    TickCommand)
    ensures
        *final(st) == tick_spec(*old(st), sample, snap).0,
        cmd == tick_spec(*old(st), sample, snap).1,
{
    match sample {
        None => TickCommand::DropProcess,
        Some(loading) => {
            if loading == st.was_loading {
                TickCommand::Idle
            } else if loading {
                st.was_loading = true;
                if snap.phase == Phase::Running && snap.game_time_initialized {
                    TickCommand::Pause
                } else {
                    TickCommand::DropProcess
                }
            } else if st.awaiting_first_resume {
                st.was_loading = false;
                st.awaiting_first_resume = false;
                TickCommand::Idle
            } else {
                st.was_loading = false;
                if snap.phase == Phase::Running && snap.game_time_initialized {
                    TickCommand::Unpause
                } else {
                    TickCommand::DropProcess
                }
            }
        },
    }
}

/// The tracker state the run starts with, given the loading flag read at
/// start: none when the process or its flags could not be read.
pub open spec fn start_state_spec(initial_loading: Option<bool>) -> Option<TrackerState> {
    match initial_loading {
        None => None,
        Some(loading) => Some(TrackerState { was_loading: loading, awaiting_first_resume: true }),
    }
}

/// The commands the timer engine receives when the tracker starts: fall
/// back to real time when the process cannot be read, otherwise switch to
/// game time, initialize it, pause it, and zero it.
pub open spec fn start_commands_spec(initial_loading: Option<bool>) -> Seq<Command> {
    match initial_loading {
        None => seq![Command::UseRealTime],
        Some(_) => seq![
            Command::UseGameTime,
            Command::InitializeGameTime,
            Command::PauseGameTime,
            Command::SetGameTimeZero,
        ],
    }
}

/// Decides how the tracker starts, exactly as `start_commands_spec` and
/// `start_state_spec` state.
pub fn tracker_start(initial_loading: Option<bool>) -> (r: (Vec<Command>, Option<TrackerState>))
    ensures
        r.0@ == start_commands_spec(initial_loading),
        r.1 == start_state_spec(initial_loading),
{
    let mut cmds: Vec<Command> = Vec::new();
    match initial_loading {
        None => {
            cmds.push(Command::UseRealTime);
            proof {
                assert(cmds@ =~= seq![Command::UseRealTime]);
            }
            (cmds, None)
        },
        Some(loading) => {
            cmds.push(Command::UseGameTime);
            cmds.push(Command::InitializeGameTime);
            cmds.push(Command::PauseGameTime);
            cmds.push(Command::SetGameTimeZero);
            proof {
                assert(cmds@ =~= seq![
                    Command::UseGameTime,
                    Command::InitializeGameTime,
                    Command::PauseGameTime,
                    Command::SetGameTimeZero,
                ]);
            }
            (cmds, Some(TrackerState { was_loading: loading, awaiting_first_resume: true }))
        },
    }
}

} // verus!
