use music_cli::action::UserAction;
use music_cli::codec::{encode, EngineCommand, LoadMode, RepeatMode, VolumeSpec};
use music_cli::dispatch::{commit, plan_commands};
use music_cli::song::Song;
use music_cli::state::PlaybackState;

fn track(path: &str) -> Song {
    Song {
        path: path.to_string(),
        title: "t".to_string(),
        artist: "a".to_string(),
        album_art_path: None,
        is_online: false,
    }
}

fn three_tracks() -> Vec<Song> {
    vec![track("/m/one.mp3"), track("/m/two.mp3"), track("/m/three.mp3")]
}

#[test]
fn activate_on_empty_list_plans_nothing_and_changes_nothing() {
    let songs: Vec<Song> = Vec::new();
    let mut s = PlaybackState::init();
    let cmds = plan_commands(UserAction::ActivateSelected, &s, &songs);
    assert!(cmds.is_empty());
    commit(UserAction::ActivateSelected, &mut s, songs.len(), true).unwrap();
    assert_eq!(s.playing_index, None);
    assert!(!s.is_playing);
    assert_eq!(s.selected_index, 0);
    assert_eq!(s.volume, 50);
}

#[test]
fn activate_then_toggle_repeat_scenario() {
    let songs = three_tracks();
    let mut s = PlaybackState::init();

    let cmds = plan_commands(UserAction::ActivateSelected, &s, &songs);
    assert_eq!(cmds.len(), 1);
    assert_eq!(
        String::from_utf8(encode(&cmds[0])).unwrap(),
        "{\"command\":[\"loadfile\",\"/m/one.mp3\",\"replace\"]}"
    );
    commit(UserAction::ActivateSelected, &mut s, songs.len(), true).unwrap();
    assert_eq!(s.selected_index, 0);
    assert_eq!(s.playing_index, Some(0));
    assert!(s.is_playing);

    let cmds = plan_commands(UserAction::ToggleRepeat, &s, &songs);
    assert_eq!(cmds.len(), 1);
    assert_eq!(
        String::from_utf8(encode(&cmds[0])).unwrap(),
        "{\"command\":[\"set_property\",\"loop-file\",\"inf\"]}"
    );
    commit(UserAction::ToggleRepeat, &mut s, songs.len(), true).unwrap();
    assert!(s.repeat);
    assert_eq!(s.selected_index, 0);
    assert_eq!(s.playing_index, Some(0));
    assert!(s.is_playing);
    assert_eq!(s.volume, 50);
}

#[test]
fn activate_away_from_default_volume_resyncs_it() {
    let songs = three_tracks();
    let mut s = PlaybackState::init();
    s.volume = 75;
    let cmds = plan_commands(UserAction::ActivateSelected, &s, &songs);
    assert_eq!(cmds.len(), 2);
    assert!(matches!(
        &cmds[0],
        EngineCommand::LoadTrack { mode: LoadMode::Replace, .. }
    ));
    assert!(matches!(&cmds[1], EngineCommand::SetVolume(VolumeSpec::Absolute(75))));
}

#[test]
fn next_track_plans_the_wrapped_successor() {
    let songs = three_tracks();
    let mut s = PlaybackState::init();
    s.selected_index = 2;
    s.playing_index = Some(2);
    s.is_playing = true;
    let cmds = plan_commands(UserAction::NextTrack, &s, &songs);
    assert_eq!(cmds.len(), 1);
    match &cmds[0] {
        EngineCommand::LoadTrack { location, mode } => {
            assert_eq!(location, "/m/one.mp3");
            assert_eq!(*mode, LoadMode::Replace);
        },
        other => panic!("unexpected command {:?}", other),
    }
}

#[test]
fn previous_track_plans_the_wrapped_predecessor() {
    let songs = three_tracks();
    let mut s = PlaybackState::init();
    s.playing_index = Some(0);
    s.is_playing = true;
    let cmds = plan_commands(UserAction::PreviousTrack, &s, &songs);
    assert_eq!(cmds.len(), 1);
    match &cmds[0] {
        EngineCommand::LoadTrack { location, .. } => assert_eq!(location, "/m/three.mp3"),
        other => panic!("unexpected command {:?}", other),
    }
}

#[test]
fn volume_actions_plan_deltas_only_inside_the_bounds() {
    let songs = three_tracks();
    let mut s = PlaybackState::init();
    let up = plan_commands(UserAction::VolumeUp, &s, &songs);
    assert!(matches!(&up[0], EngineCommand::SetVolume(VolumeSpec::Delta(5))));
    let down = plan_commands(UserAction::VolumeDown, &s, &songs);
    assert!(matches!(&down[0], EngineCommand::SetVolume(VolumeSpec::Delta(-5))));

    s.volume = 200;
    assert!(plan_commands(UserAction::VolumeUp, &s, &songs).is_empty());
    s.volume = 0;
    assert!(plan_commands(UserAction::VolumeDown, &s, &songs).is_empty());
}

#[test]
fn repeat_off_plans_loop_file_no() {
    let songs = three_tracks();
    let mut s = PlaybackState::init();
    s.repeat = true;
    let cmds = plan_commands(UserAction::ToggleRepeat, &s, &songs);
    assert!(matches!(&cmds[0], EngineCommand::SetRepeatMode(RepeatMode::Off)));
}

#[test]
fn stop_and_pause_plan_single_records() {
    let songs = three_tracks();
    let s = PlaybackState::init();
    let stop = plan_commands(UserAction::Stop, &s, &songs);
    assert!(matches!(&stop[0], EngineCommand::Stop));
    let pause = plan_commands(UserAction::TogglePause, &s, &songs);
    assert!(matches!(&pause[0], EngineCommand::TogglePause));
}

#[test]
fn local_actions_plan_no_traffic() {
    let songs = three_tracks();
    let s = PlaybackState::init();
    for action in [
        UserAction::NavigateUp,
        UserAction::NavigateDown,
        UserAction::OpenCoverArt,
        UserAction::Quit,
    ] {
        assert!(plan_commands(action, &s, &songs).is_empty());
    }
    let mut idle = PlaybackState::init();
    idle.playing_index = None;
    assert!(plan_commands(UserAction::NextTrack, &idle, &songs).is_empty());
    assert!(plan_commands(UserAction::PreviousTrack, &idle, &songs).is_empty());
}
