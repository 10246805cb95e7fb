//! Discrete user intents and the mapping from raw key input to them.

use vstd::prelude::*;

verus! {

/// A discrete, debounced user intent, consumed by the dispatcher.
#[derive(Clone, Copy, Debug, PartialEq, Eq, Structural)]
pub enum UserAction {
    NavigateUp,
    NavigateDown,
    ActivateSelected,
    TogglePause,
    VolumeUp,
    VolumeDown,
    ToggleRepeat,
    OpenCoverArt,
    NextTrack,
    PreviousTrack,
    Stop,
    Quit,
}

/// A raw key press, already stripped of everything the key mapping does not
/// look at.  The terminal layer translates its own event type into this one.
#[derive(Clone, Copy, Debug, PartialEq, Eq, Structural)]
pub enum RawKey {
    Char(char),
    Up,
    Down,
    Enter,
    Other,
}

/// The keyboard layout of the player, as a mathematical function.
pub open spec fn spec_map_key(key: RawKey) -> Option<UserAction> {
    match key {
        RawKey::Up => Some(UserAction::NavigateUp),
        RawKey::Down => Some(UserAction::NavigateDown),
        RawKey::Enter => Some(UserAction::ActivateSelected),
        RawKey::Char(c) => {
            if c == ' ' {
                Some(UserAction::TogglePause)
            } else if c == '+' {
                Some(UserAction::VolumeUp)
            } else if c == '-' {
                Some(UserAction::VolumeDown)
            } else if c == 'r' {
                Some(UserAction::ToggleRepeat)
            } else if c == 'o' {
                Some(UserAction::OpenCoverArt)
            } else if c == 'n' {
                Some(UserAction::NextTrack)
            } else if c == 'p' {
                Some(UserAction::PreviousTrack)
            } else if c == 's' {
                Some(UserAction::Stop)
            } else if c == 'q' {
                Some(UserAction::Quit)
            } else {
                None
            }
        },
        RawKey::Other => None,
    }
}

/// Translates one raw key press into the user action bound to it, or `None`
/// for an unbound key.
pub fn map_key(key: RawKey) -> (action: Option<UserAction>)
    ensures
        action == spec_map_key(key),
{
    match key {
        RawKey::Up => Some(UserAction::NavigateUp),
        RawKey::Down => Some(UserAction::NavigateDown),
        RawKey::Enter => Some(UserAction::ActivateSelected),
        RawKey::Char(c) => {
            if c == ' ' {
                Some(UserAction::TogglePause)
            } else if c == '+' {
                Some(UserAction::VolumeUp)
            } else if c == '-' {
                Some(UserAction::VolumeDown)
            } else if c == 'r' {
                Some(UserAction::ToggleRepeat)
            } else if c == 'o' {
                Some(UserAction::OpenCoverArt)
            } else if c == 'n' {
                Some(UserAction::NextTrack)
            } else if c == 'p' {
                Some(UserAction::PreviousTrack)
            } else if c == 's' {
                Some(UserAction::Stop)
            } else if c == 'q' {
                Some(UserAction::Quit)
            } else {
                None
            }
        },
        RawKey::Other => None,
    }
}

} // verus!
