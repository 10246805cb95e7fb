use music_cli::action::UserAction;
use music_cli::dispatch::{commit, DispatchError};
use music_cli::state::PlaybackState;

fn playing_state(len: usize, playing: usize) -> PlaybackState {
    let mut s = PlaybackState::init();
    s.selected_index = playing;
    s.playing_index = Some(playing);
    s.is_playing = true;
    let _ = len;
    s
}

#[test]
fn initial_state_defaults() {
    let s = PlaybackState::init();
    assert_eq!(s.selected_index, 0);
    assert_eq!(s.playing_index, None);
    assert!(!s.is_playing);
    assert_eq!(s.volume, 50);
    assert!(!s.repeat);
}

#[test]
fn navigation_moves_and_stops_at_the_ends() {
    let mut s = PlaybackState::init();
    commit(UserAction::NavigateDown, &mut s, 3, true).unwrap();
    assert_eq!(s.selected_index, 1);
    commit(UserAction::NavigateDown, &mut s, 3, true).unwrap();
    assert_eq!(s.selected_index, 2);
    commit(UserAction::NavigateDown, &mut s, 3, true).unwrap();
    assert_eq!(s.selected_index, 2);
    commit(UserAction::NavigateUp, &mut s, 3, true).unwrap();
    commit(UserAction::NavigateUp, &mut s, 3, true).unwrap();
    assert_eq!(s.selected_index, 0);
    commit(UserAction::NavigateUp, &mut s, 3, true).unwrap();
    assert_eq!(s.selected_index, 0);
}

#[test]
fn activate_selected_sets_playing_to_selection() {
    let mut s = PlaybackState::init();
    s.selected_index = 1;
    commit(UserAction::ActivateSelected, &mut s, 3, true).unwrap();
    assert_eq!(s.playing_index, Some(1));
    assert!(s.is_playing);
    assert_eq!(s.selected_index, 1);
}

#[test]
fn failed_send_leaves_state_untouched() {
    let mut s = PlaybackState::init();
    s.selected_index = 1;
    let r = commit(UserAction::ActivateSelected, &mut s, 3, false);
    assert_eq!(r, Err(DispatchError::SendFailed));
    assert_eq!(s.playing_index, None);
    assert!(!s.is_playing);
    assert_eq!(s.selected_index, 1);
}

#[test]
fn volume_never_leaves_bounds() {
    let mut s = PlaybackState::init();
    for _ in 0..100 {
        commit(UserAction::VolumeUp, &mut s, 0, true).unwrap();
        assert!(s.volume >= 0 && s.volume <= 200);
    }
    assert_eq!(s.volume, 200);
    commit(UserAction::VolumeUp, &mut s, 0, true).unwrap();
    assert_eq!(s.volume, 200);
    for _ in 0..100 {
        commit(UserAction::VolumeDown, &mut s, 0, true).unwrap();
        assert!(s.volume >= 0 && s.volume <= 200);
    }
    assert_eq!(s.volume, 0);
    commit(UserAction::VolumeDown, &mut s, 0, true).unwrap();
    assert_eq!(s.volume, 0);
}

#[test]
fn toggle_pause_flips_only_the_flag() {
    let mut s = playing_state(3, 1);
    commit(UserAction::TogglePause, &mut s, 3, true).unwrap();
    assert!(!s.is_playing);
    assert_eq!(s.playing_index, Some(1));
    commit(UserAction::TogglePause, &mut s, 3, true).unwrap();
    assert!(s.is_playing);
}

#[test]
fn toggle_repeat_flips_only_the_flag() {
    let mut s = PlaybackState::init();
    commit(UserAction::ToggleRepeat, &mut s, 3, true).unwrap();
    assert!(s.repeat);
    commit(UserAction::ToggleRepeat, &mut s, 3, true).unwrap();
    assert!(!s.repeat);
}

#[test]
fn next_track_wraps_to_the_first() {
    let mut s = playing_state(3, 2);
    commit(UserAction::NextTrack, &mut s, 3, true).unwrap();
    assert_eq!(s.playing_index, Some(0));
    assert_eq!(s.selected_index, 0);
}

#[test]
fn previous_track_wraps_to_the_last() {
    let mut s = playing_state(3, 0);
    commit(UserAction::PreviousTrack, &mut s, 3, true).unwrap();
    assert_eq!(s.playing_index, Some(2));
    assert_eq!(s.selected_index, 2);
}

#[test]
fn track_stepping_without_a_playing_track_is_a_no_op() {
    let mut s = PlaybackState::init();
    commit(UserAction::NextTrack, &mut s, 3, true).unwrap();
    assert_eq!(s.playing_index, None);
    assert_eq!(s.selected_index, 0);
    commit(UserAction::PreviousTrack, &mut s, 3, true).unwrap();
    assert_eq!(s.playing_index, None);
}

#[test]
fn stop_clears_playback() {
    let mut s = playing_state(3, 1);
    commit(UserAction::Stop, &mut s, 3, true).unwrap();
    assert_eq!(s.playing_index, None);
    assert!(!s.is_playing);
    assert_eq!(s.selected_index, 1);
}
