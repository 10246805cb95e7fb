//! The local mirror of what the engine is believed to be doing, and the
//! deterministic transition each user action applies to it.

use vstd::prelude::*;

use crate::action::UserAction;

verus! {

/// Volume level the engine is started with, and the level a fresh state
/// assumes.
pub const DEFAULT_VOLUME: i64 = 50;

/// Upper clamp of the mirrored volume.
pub const MAX_VOLUME: i64 = 200;

/// How far a single volume action moves the level.
pub const VOLUME_STEP: i64 = 5;

/// The authoritative local mirror of the engine's playback state.  It has a
/// single writer (the dispatcher) and is read by the renderer.
#[derive(Clone, Copy, Debug)]
pub struct PlaybackState {
    /// Cursor of the track list in the UI.
    pub selected_index: usize,
    /// Track believed to be loaded in the engine, if any.
    pub playing_index: Option<usize>,
    /// Whether the engine is believed to be playing rather than paused.
    pub is_playing: bool,
    /// Mirrored volume level, clamped to `[0, MAX_VOLUME]`.
    pub volume: i64,
    /// Whether single-track repeat is on.
    pub repeat: bool,
}

impl PlaybackState {
    /// Well-formedness with respect to a track list of length `len`: both
    /// indices stay inside the list and the volume stays clamped.
    pub open spec fn wf(self, len: nat) -> bool {
        &&& (len > 0 ==> (self.selected_index as nat) < len)
        &&& (len == 0 ==> self.selected_index == 0)
        &&& (self.playing_index matches Some(i) ==> (i as nat) < len)
        &&& 0 <= self.volume <= MAX_VOLUME
    }

    /// The state the player starts in: cursor on the first entry, nothing
    /// playing, default volume, repeat off.
    pub fn init() -> (s: PlaybackState)
        ensures
            s == spec_init(),
    {
        PlaybackState {
            selected_index: 0,
            playing_index: None,
            is_playing: false,
            volume: DEFAULT_VOLUME,
            repeat: false,
        }
    }
}

/// The starting state, as a value.
pub open spec fn spec_init() -> PlaybackState {
    PlaybackState {
        selected_index: 0,
        playing_index: None,
        is_playing: false,
        volume: DEFAULT_VOLUME,
        repeat: false,
    }
}

/// Clamps a volume level into `[0, MAX_VOLUME]`.
pub open spec fn clamp_volume(v: int) -> int {
    if v < 0 {
        0
    } else if v > MAX_VOLUME {
        MAX_VOLUME as int
    } else {
        v
    }
}

/// The state-transition table: the state after `action` succeeds against
/// `s`, for a track list of length `len`.  Actions whose precondition does
/// not hold (activating on an empty list, stepping tracks with nothing
/// playing) leave the state unchanged.
pub open spec fn spec_step(action: UserAction, s: PlaybackState, len: nat) -> PlaybackState {
    match action {
        UserAction::NavigateUp => {
            if s.selected_index > 0 {
                PlaybackState { selected_index: (s.selected_index - 1) as usize, ..s }
            } else {
                s
            }
        },
        UserAction::NavigateDown => {
            if (s.selected_index as nat) + 1 < len {
                PlaybackState { selected_index: (s.selected_index + 1) as usize, ..s }
            } else {
                s
            }
        },
        UserAction::ActivateSelected => {
            if len > 0 {
                PlaybackState { playing_index: Some(s.selected_index), is_playing: true, ..s }
            } else {
                s
            }
        },
        UserAction::TogglePause => PlaybackState { is_playing: !s.is_playing, ..s },
        UserAction::VolumeUp => PlaybackState {
            volume: clamp_volume(s.volume + VOLUME_STEP) as i64,
            ..s
        },
        UserAction::VolumeDown => PlaybackState {
            volume: clamp_volume(s.volume - VOLUME_STEP) as i64,
            ..s
        },
        UserAction::ToggleRepeat => PlaybackState { repeat: !s.repeat, ..s },
        UserAction::NextTrack => {
            match s.playing_index {
                Some(i) => {
                    if len > 0 {
                        let next = (((i as nat) + 1) % len) as usize;
                        PlaybackState { playing_index: Some(next), selected_index: next, ..s }
                    } else {
                        s
                    }
                },
                None => s,
            }
        },
        UserAction::PreviousTrack => {
            match s.playing_index {
                Some(i) => {
                    if len > 0 {
                        let prev = if i == 0 {
                            (len - 1) as usize
                        } else {
                            (i - 1) as usize
                        };
                        PlaybackState { playing_index: Some(prev), selected_index: prev, ..s }
                    } else {
                        s
                    }
                },
                None => s,
            }
        },
        UserAction::Stop => PlaybackState { playing_index: None, is_playing: false, ..s },
        UserAction::OpenCoverArt => s,
        UserAction::Quit => s,
    }
}

/// Applies the transition table to the state in place.
pub fn apply_action(action: UserAction, s: &mut PlaybackState, len: usize)
    requires
        old(s).wf(len as nat),
    ensures
        *final(s) == spec_step(action, *old(s), len as nat),
        final(s).wf(len as nat),
{
    proof {
        lemma_step_preserves_wf(action, *s, len as nat);
    }
    match action {
        UserAction::NavigateUp => {
            if s.selected_index > 0 {
                s.selected_index = s.selected_index - 1;
            }
        },
        UserAction::NavigateDown => {
            if s.selected_index + 1 < len {
                s.selected_index = s.selected_index + 1;
            }
        },
        UserAction::ActivateSelected => {
            if len > 0 {
                s.playing_index = Some(s.selected_index);
                s.is_playing = true;
            }
        },
        UserAction::TogglePause => {
            s.is_playing = !s.is_playing;
        },
        UserAction::VolumeUp => {
            let raised = s.volume + VOLUME_STEP;
            s.volume = if raised > MAX_VOLUME {
                MAX_VOLUME
            } else {
                raised
            };
        },
        UserAction::VolumeDown => {
            let lowered = s.volume - VOLUME_STEP;
            s.volume = if lowered < 0 {
                0
            } else {
                lowered
            };
        },
        UserAction::ToggleRepeat => {
            s.repeat = !s.repeat;
        },
        UserAction::NextTrack => {
            match s.playing_index {
                Some(i) => {
                    if len > 0 {
                        let next = (i + 1) % len;
                        s.playing_index = Some(next);
                        s.selected_index = next;
                    }
                },
                None => {},
            }
        },
        UserAction::PreviousTrack => {
            match s.playing_index {
                Some(i) => {
                    if len > 0 {
                        let prev = if i == 0 {
                            len - 1
                        } else {
                            i - 1
                        };
                        s.playing_index = Some(prev);
                        s.selected_index = prev;
                    }
                },
                None => {},
            }
        },
        UserAction::Stop => {
            s.playing_index = None;
            s.is_playing = false;
        },
        UserAction::OpenCoverArt => {},
        UserAction::Quit => {},
    }
}

/// Every single transition keeps the state well formed; in particular the
/// volume never leaves `[0, MAX_VOLUME]`.
pub proof fn lemma_step_preserves_wf(action: UserAction, s: PlaybackState, len: nat)
    requires
        s.wf(len),
    ensures
        spec_step(action, s, len).wf(len),
{
}

/// Folds a whole sequence of user actions over a state, front to back.
pub open spec fn run_actions(actions: Seq<UserAction>, s: PlaybackState, len: nat) -> PlaybackState
    decreases actions.len(),
{
    if actions.len() == 0 {
        s
    } else {
        run_actions(actions.drop_first(), spec_step(actions[0], s, len), len)
    }
}

/// No sequence of user actions, however long and in whatever order, can
/// drive the volume out of `[0, MAX_VOLUME]`, and the state stays well
/// formed throughout.
pub proof fn lemma_volume_always_clamped(actions: Seq<UserAction>, s: PlaybackState, len: nat)
    requires
        s.wf(len),
    ensures
        run_actions(actions, s, len).wf(len),
        0 <= run_actions(actions, s, len).volume <= MAX_VOLUME,
    decreases actions.len(),
{
    if actions.len() > 0 {
        lemma_step_preserves_wf(actions[0], s, len);
        lemma_volume_always_clamped(actions.drop_first(), spec_step(actions[0], s, len), len);
    }
}

/// Activating the selection on a non-empty list always loads exactly the
/// selected track and starts playback.
pub proof fn lemma_activate_follows_selection(s: PlaybackState, len: nat)
    requires
        s.wf(len),
        len > 0,
    ensures
        spec_step(UserAction::ActivateSelected, s, len).playing_index == Some(s.selected_index),
        spec_step(UserAction::ActivateSelected, s, len).is_playing,
        spec_step(UserAction::ActivateSelected, s, len).selected_index == s.selected_index,
{
}

/// Track stepping wraps modulo the list length, in both directions: the
/// successor of the last track is the first, and the predecessor of the
/// first is the last.
pub proof fn lemma_track_step_wraps(s: PlaybackState, i: usize, len: nat)
    requires
        s.wf(len),
        s.playing_index == Some(i),
        len <= usize::MAX,
    ensures
        spec_step(UserAction::NextTrack, s, len).playing_index == Some(
            (((i as nat) + 1) % len) as usize,
        ),
        spec_step(UserAction::PreviousTrack, s, len).playing_index == Some(
            ((((i as nat) + len) - 1) % (len as int)) as usize,
        ),
{
    let prev = if i == 0 {
        (len - 1) as usize
    } else {
        (i - 1) as usize
    };
    assert(((i as nat) + len - 1) % (len as int) == prev as nat) by {
        if i == 0 {
            vstd::arithmetic::div_mod::lemma_small_mod((len - 1) as nat, len);
        } else {
            vstd::arithmetic::div_mod::lemma_mod_add_multiples_vanish(i - 1, len as int);
            vstd::arithmetic::div_mod::lemma_small_mod((i - 1) as nat, len);
        }
    }
}

} // verus!
