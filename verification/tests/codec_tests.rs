use music_cli::codec::{encode, encode_record, EngineCommand, LoadMode, RepeatMode, VolumeSpec};

fn encoded(c: &EngineCommand) -> String {
    String::from_utf8(encode(c)).unwrap()
}

#[test]
fn load_replace_is_one_loadfile_record() {
    let c = EngineCommand::LoadTrack {
        location: "/music/song.mp3".to_string(),
        mode: LoadMode::Replace,
    };
    assert_eq!(encoded(&c), "{\"command\":[\"loadfile\",\"/music/song.mp3\",\"replace\"]}");
}

#[test]
fn load_append_uses_append_argument() {
    let c = EngineCommand::LoadTrack {
        location: "/music/song.mp3".to_string(),
        mode: LoadMode::Append,
    };
    assert_eq!(encoded(&c), "{\"command\":[\"loadfile\",\"/music/song.mp3\",\"append\"]}");
}

#[test]
fn load_escapes_backslashes_and_quotes() {
    let c = EngineCommand::LoadTrack {
        location: "C:\\Music\\a \"b\".mp3".to_string(),
        mode: LoadMode::Replace,
    };
    assert_eq!(
        encoded(&c),
        "{\"command\":[\"loadfile\",\"C:\\\\Music\\\\a \\\"b\\\".mp3\",\"replace\"]}"
    );
}

#[test]
fn load_escapes_control_bytes() {
    let c = EngineCommand::LoadTrack { location: "a\nb\t".to_string(), mode: LoadMode::Replace };
    assert_eq!(encoded(&c), "{\"command\":[\"loadfile\",\"a\\u000ab\\u0009\",\"replace\"]}");
}

#[test]
fn load_passes_multibyte_text_through() {
    let c = EngineCommand::LoadTrack { location: "tr\u{e4}ck.mp3".to_string(), mode: LoadMode::Replace };
    assert_eq!(encoded(&c), "{\"command\":[\"loadfile\",\"tr\u{e4}ck.mp3\",\"replace\"]}");
}

#[test]
fn toggle_pause_record() {
    assert_eq!(encoded(&EngineCommand::TogglePause), "{\"command\":[\"cycle\",\"pause\"]}");
}

#[test]
fn volume_delta_records() {
    assert_eq!(
        encoded(&EngineCommand::SetVolume(VolumeSpec::Delta(5))),
        "{\"command\":[\"add\",\"volume\",5]}"
    );
    assert_eq!(
        encoded(&EngineCommand::SetVolume(VolumeSpec::Delta(-5))),
        "{\"command\":[\"add\",\"volume\",-5]}"
    );
    assert_eq!(
        encoded(&EngineCommand::SetVolume(VolumeSpec::Delta(-200))),
        "{\"command\":[\"add\",\"volume\",-200]}"
    );
    assert_eq!(
        encoded(&EngineCommand::SetVolume(VolumeSpec::Delta(200))),
        "{\"command\":[\"add\",\"volume\",200]}"
    );
}

#[test]
fn volume_absolute_record() {
    assert_eq!(
        encoded(&EngineCommand::SetVolume(VolumeSpec::Absolute(185))),
        "{\"command\":[\"set_property\",\"volume\",185]}"
    );
    assert_eq!(
        encoded(&EngineCommand::SetVolume(VolumeSpec::Absolute(0))),
        "{\"command\":[\"set_property\",\"volume\",0]}"
    );
}

#[test]
fn repeat_mode_records() {
    assert_eq!(
        encoded(&EngineCommand::SetRepeatMode(RepeatMode::Off)),
        "{\"command\":[\"set_property\",\"loop-file\",\"no\"]}"
    );
    assert_eq!(
        encoded(&EngineCommand::SetRepeatMode(RepeatMode::Track)),
        "{\"command\":[\"set_property\",\"loop-file\",\"inf\"]}"
    );
    assert_eq!(
        encoded(&EngineCommand::SetRepeatMode(RepeatMode::Playlist)),
        "{\"command\":[\"set_property\",\"loop-playlist\",true]}"
    );
}

#[test]
fn stop_record() {
    assert_eq!(encoded(&EngineCommand::Stop), "{\"command\":[\"stop\"]}");
}

#[test]
fn record_ends_with_newline_terminator() {
    let bytes = encode_record(&EngineCommand::Stop);
    assert_eq!(bytes.last(), Some(&b'\n'));
    assert_eq!(&bytes[..bytes.len() - 1], encode(&EngineCommand::Stop).as_slice());
}

#[test]
fn records_are_valid_json_a_real_parser_accepts() {
    let c = EngineCommand::LoadTrack {
        location: "C:\\Music\\a \"b\"\n.mp3".to_string(),
        mode: LoadMode::Replace,
    };
    let value: serde_json::Value = serde_json::from_slice(&encode(&c)).unwrap();
    let command = value.get("command").unwrap().as_array().unwrap();
    assert_eq!(command.len(), 3);
    assert_eq!(command[0].as_str().unwrap(), "loadfile");
    assert_eq!(command[1].as_str().unwrap(), "C:\\Music\\a \"b\"\n.mp3");
    assert_eq!(command[2].as_str().unwrap(), "replace");
}
