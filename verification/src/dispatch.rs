//! Mapping user actions to protocol commands, and the optimistic state
//! update that follows a successful send.
//!
//! Dispatching one action is: build the command plan from the current
//! state, put every planned command on the wire, and only then — and only
//! if everything was delivered — apply the deterministic state
//! transition.  A failed send leaves the state mirror untouched.

use vstd::prelude::*;

use crate::action::UserAction;
use crate::codec::{wf_command, EngineCommand, LoadMode, RepeatMode, VolumeSpec};
use crate::song::Song;
use crate::state::{
    apply_action, spec_step, PlaybackState, DEFAULT_VOLUME, MAX_VOLUME, VOLUME_STEP,
};

verus! {

/// A command could not be delivered even after the transport's one
/// transparent reconnect; the action was dropped and the state mirror
/// left as it was.
#[derive(Clone, Copy, Debug, PartialEq, Eq, Structural)]
pub enum DispatchError {
    SendFailed,
}

/// `c` loads `location` with the given mode.
pub open spec fn is_load(c: EngineCommand, location: Seq<char>, mode: LoadMode) -> bool {
    c matches EngineCommand::LoadTrack { location: l, mode: m } && l@ == location && m == mode
}

/// The commands a track load issues: the load itself and, when the
/// mirrored volume differs from the engine's start-up default, a volume
/// resync (the engine resets transient properties on load).
pub open spec fn load_plan_matches(
    location: Seq<char>,
    volume: i64,
    cmds: Seq<EngineCommand>,
) -> bool {
    if volume != DEFAULT_VOLUME {
        &&& cmds.len() == 2
        &&& is_load(cmds[0], location, LoadMode::Replace)
        &&& cmds[1] == EngineCommand::SetVolume(VolumeSpec::Absolute(volume))
    } else {
        &&& cmds.len() == 1
        &&& is_load(cmds[0], location, LoadMode::Replace)
    }
}

/// The full planning table: which protocol commands `action` must put on
/// the wire, given state `s` and the track list.  Actions whose
/// precondition does not hold against the state plan nothing.
pub open spec fn plan_matches(
    action: UserAction,
    s: PlaybackState,
    songs: Seq<Song>,
    cmds: Seq<EngineCommand>,
) -> bool {
    match action {
        UserAction::NavigateUp => cmds.len() == 0,
        UserAction::NavigateDown => cmds.len() == 0,
        UserAction::OpenCoverArt => cmds.len() == 0,
        UserAction::Quit => cmds.len() == 0,
        UserAction::ActivateSelected => {
            if songs.len() > 0 {
                load_plan_matches(songs[s.selected_index as int].path@, s.volume, cmds)
            } else {
                cmds.len() == 0
            }
        },
        UserAction::TogglePause => cmds.len() == 1 && cmds[0] == EngineCommand::TogglePause,
        UserAction::VolumeUp => {
            if s.volume < MAX_VOLUME {
                cmds.len() == 1 && cmds[0] == EngineCommand::SetVolume(
                    VolumeSpec::Delta(VOLUME_STEP),
                )
            } else {
                cmds.len() == 0
            }
        },
        UserAction::VolumeDown => {
            if s.volume > 0 {
                cmds.len() == 1 && cmds[0] == EngineCommand::SetVolume(
                    VolumeSpec::Delta((0 - VOLUME_STEP) as i64),
                )
            } else {
                cmds.len() == 0
            }
        },
        UserAction::ToggleRepeat => {
            cmds.len() == 1 && cmds[0] == EngineCommand::SetRepeatMode(
                if s.repeat {
                    RepeatMode::Off
                } else {
                    RepeatMode::Track
                },
            )
        },
        UserAction::NextTrack => {
            match s.playing_index {
                Some(i) => {
                    if songs.len() > 0 {
                        load_plan_matches(
                            songs[(((i as int) + 1) % (songs.len() as int))].path@,
                            s.volume,
                            cmds,
                        )
                    } else {
                        cmds.len() == 0
                    }
                },
                None => cmds.len() == 0,
            }
        },
        UserAction::PreviousTrack => {
            match s.playing_index {
                Some(i) => {
                    if songs.len() > 0 {
                        load_plan_matches(
                            songs[if i == 0 {
                                songs.len() - 1
                            } else {
                                i - 1
                            }].path@,
                            s.volume,
                            cmds,
                        )
                    } else {
                        cmds.len() == 0
                    }
                },
                None => cmds.len() == 0,
            }
        },
        UserAction::Stop => cmds.len() == 1 && cmds[0] == EngineCommand::Stop,
    }
}

/// Builds the plan of a track load at `location`.
fn load_plan(location: &String, volume: i64) -> (cmds: Vec<EngineCommand>)
    requires
        0 <= volume <= MAX_VOLUME,
    ensures
        load_plan_matches(location@, volume, cmds@),
        forall|k: int| 0 <= k < cmds@.len() ==> wf_command(cmds@[k]),
{
    let mut cmds: Vec<EngineCommand> = Vec::new();
    cmds.push(EngineCommand::LoadTrack { location: location.clone(), mode: LoadMode::Replace });
    if volume != DEFAULT_VOLUME {
        cmds.push(EngineCommand::SetVolume(VolumeSpec::Absolute(volume)));
    }
    cmds
}

/// Builds the commands `action` must send, per the planning table.  Every
/// planned command is well formed, so it can be encoded.
pub fn plan_commands(action: UserAction, s: &PlaybackState, songs: &Vec<Song>) -> (cmds: Vec<
    EngineCommand,
>)
    requires
        s.wf(songs@.len()),
    ensures
        plan_matches(action, *s, songs@, cmds@),
        forall|k: int| 0 <= k < cmds@.len() ==> wf_command(cmds@[k]),
{
    match action {
        UserAction::NavigateUp => Vec::new(),
        UserAction::NavigateDown => Vec::new(),
        UserAction::OpenCoverArt => Vec::new(),
        UserAction::Quit => Vec::new(),
        UserAction::ActivateSelected => {
            if songs.len() > 0 {
                load_plan(&vstd::std_specs::vec::vec_index(songs, s.selected_index).path, s.volume)
            } else {
                Vec::new()
            }
        },
        UserAction::TogglePause => {
            let mut cmds: Vec<EngineCommand> = Vec::new();
            cmds.push(EngineCommand::TogglePause);
            cmds
        },
        UserAction::VolumeUp => {
            let mut cmds: Vec<EngineCommand> = Vec::new();
            if s.volume < MAX_VOLUME {
                cmds.push(EngineCommand::SetVolume(VolumeSpec::Delta(VOLUME_STEP)));
            }
            cmds
        },
        UserAction::VolumeDown => {
            let mut cmds: Vec<EngineCommand> = Vec::new();
            if s.volume > 0 {
                cmds.push(EngineCommand::SetVolume(VolumeSpec::Delta(-VOLUME_STEP)));
            }
            cmds
        },
        UserAction::ToggleRepeat => {
            let mut cmds: Vec<EngineCommand> = Vec::new();
            cmds.push(
                EngineCommand::SetRepeatMode(
                    if s.repeat {
                        RepeatMode::Off
                    } else {
                        RepeatMode::Track
                    },
                ),
            );
            cmds
        },
        UserAction::NextTrack => {
            match s.playing_index {
                Some(i) => {
                    if songs.len() > 0 {
                        let next = (i + 1) % songs.len();
                        load_plan(&vstd::std_specs::vec::vec_index(songs, next).path, s.volume)
                    } else {
                        Vec::new()
                    }
                },
                None => Vec::new(),
            }
        },
        UserAction::PreviousTrack => {
            match s.playing_index {
                Some(i) => {
                    if songs.len() > 0 {
                        let prev = if i == 0 {
                            songs.len() - 1
                        } else {
                            i - 1
                        };
                        load_plan(&vstd::std_specs::vec::vec_index(songs, prev).path, s.volume)
                    } else {
                        Vec::new()
                    }
                },
                None => Vec::new(),
            }
        },
        UserAction::Stop => {
            let mut cmds: Vec<EngineCommand> = Vec::new();
            cmds.push(EngineCommand::Stop);
            cmds
        },
    }
}

/// Settles one dispatched action.  `delivered` says whether every planned
/// command went through (vacuously true for an empty plan): if so, the
/// optimistic state transition is applied; if not, the state is left
/// exactly as it was and the failure is surfaced for user-visible
/// reporting.
pub fn commit(action: UserAction, s: &mut PlaybackState, len: usize, delivered: bool) -> (r:
    Result<(), DispatchError>)
    requires
        old(s).wf(len as nat),
    ensures
        delivered ==> *final(s) == spec_step(action, *old(s), len as nat),
        delivered ==> r is Ok,
        !delivered ==> *final(s) == *old(s),
        !delivered ==> r == Err::<(), DispatchError>(DispatchError::SendFailed),
        final(s).wf(len as nat),
{
    if delivered {
        apply_action(action, s, len);
        Ok(())
    } else {
        Err(DispatchError::SendFailed)
    }
}

} // verus!
