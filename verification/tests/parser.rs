use rrrocket::decoder::{CrcPolicy, NetworkPolicy};
use rrrocket::io_strategy::{first_stage, next_action, LoadAction, LoadEvent};
use rrrocket::parser::ReplayError;
use rrrocket::ReplayParser;

fn push_i32(out: &mut Vec<u8>, value: i32) {
    out.extend_from_slice(&value.to_le_bytes());
}

fn push_text(out: &mut Vec<u8>, text: &str) {
    push_i32(out, text.len() as i32 + 1);
    out.extend_from_slice(text.as_bytes());
    out.push(0);
}

/// The smallest replay that decodes: a header without properties and a body
/// whose lists are all empty. Both checksums are left at zero, which is not
/// what the sections sum to.
fn minimal_replay() -> Vec<u8> {
    let mut header = Vec::new();
    push_i32(&mut header, 1);
    push_i32(&mut header, 0);
    push_text(&mut header, "TAGame.Replay_Soccar_TA");
    push_text(&mut header, "None");

    let mut body = Vec::new();
    for _ in 0..10 {
        push_i32(&mut body, 0);
    }

    let mut replay = Vec::new();
    push_i32(&mut replay, header.len() as i32);
    push_i32(&mut replay, 0);
    replay.extend_from_slice(&header);
    push_i32(&mut replay, body.len() as i32);
    push_i32(&mut replay, 0);
    replay.extend_from_slice(&body);
    replay
}

#[test]
fn default_parser_skips_forced_crc_and_network_data() {
    let parser = ReplayParser::new();
    assert!(!parser.crc_check());
    assert!(!parser.network_parse());
    assert_eq!(parser.crc_policy(), CrcPolicy::OnError);
    assert_eq!(parser.network_policy(), NetworkPolicy::Never);

    let parser = ReplayParser::default();
    assert!(!parser.crc_check());
    assert!(!parser.network_parse());
}

#[test]
fn builders_set_one_switch_and_keep_the_other() {
    let parser = ReplayParser::new().with_crc_check(true);
    assert!(parser.crc_check());
    assert!(!parser.network_parse());

    let parser = parser.with_network_parse(true);
    assert!(parser.crc_check());
    assert!(parser.network_parse());

    let parser = parser.with_crc_check(false);
    assert!(!parser.crc_check());
    assert!(parser.network_parse());
}

#[test]
fn setters_set_one_switch_and_keep_the_other() {
    let mut parser = ReplayParser::new();
    parser.set_network_parse(true);
    assert!(!parser.crc_check());
    assert!(parser.network_parse());

    parser.set_crc_check(true);
    assert!(parser.crc_check());
    assert!(parser.network_parse());

    parser.set_network_parse(false);
    assert!(parser.crc_check());
    assert!(!parser.network_parse());
}

#[test]
fn clone_keeps_both_switches() {
    let parser = ReplayParser::new().with_crc_check(true);
    let copy = parser.clone();
    assert!(copy.crc_check());
    assert!(!copy.network_parse());
}

#[test]
fn policies_follow_the_switches() {
    for crc in [false, true] {
        for network in [false, true] {
            let parser = ReplayParser::new()
                .with_crc_check(crc)
                .with_network_parse(network);
            let expected_crc = if crc {
                CrcPolicy::Always
            } else {
                CrcPolicy::OnError
            };
            let expected_network = if network {
                NetworkPolicy::Always
            } else {
                NetworkPolicy::Never
            };
            assert_eq!(parser.crc_policy(), expected_crc);
            assert_eq!(parser.network_policy(), expected_network);
        }
    }
}

#[test]
fn empty_input_is_rejected() {
    let parser = ReplayParser::new();
    let err = parser.parse_bytes(&[]).unwrap_err();
    assert_eq!(
        err,
        boxcars::ParseError::ParseError(
            "header size",
            0,
            Box::new(boxcars::ParseError::InsufficientData(4, 0))
        )
    );
}

#[test]
fn minimal_replay_decodes_under_the_default_configuration() {
    let data = minimal_replay();
    let replay = ReplayParser::new().parse_bytes(&data).unwrap();
    assert_eq!(replay.header_size, 45);
    assert_eq!(replay.major_version, 1);
    assert_eq!(replay.minor_version, 0);
    assert_eq!(replay.net_version, None);
    assert_eq!(replay.game_type, "TAGame.Replay_Soccar_TA");
    assert!(replay.properties.is_empty());
    assert_eq!(replay.content_size, 40);
    assert!(replay.network_frames.is_none());
}

#[test]
fn forced_crc_check_rejects_a_wrong_checksum() {
    let data = minimal_replay();
    let parser = ReplayParser::new().with_crc_check(true);
    match parser.parse_bytes(&data) {
        Err(boxcars::ParseError::CrcMismatch(expected, _)) => assert_eq!(expected, 0),
        other => panic!("unexpected result: {:?}", other),
    }
}

#[test]
fn default_crc_check_runs_only_after_a_failure() {
    let mut data = minimal_replay();
    let body = data.len() - 40;
    data[body..body + 4].copy_from_slice(&1i32.to_le_bytes());
    data[body + 4..body + 8].copy_from_slice(&1000i32.to_le_bytes());

    match ReplayParser::new().parse_bytes(&data) {
        Err(boxcars::ParseError::CorruptReplay(section, _)) => assert_eq!(section, "body"),
        other => panic!("unexpected result: {:?}", other),
    }
    match ReplayParser::new().with_crc_check(true).parse_bytes(&data) {
        Err(boxcars::ParseError::CrcMismatch(expected, _)) => assert_eq!(expected, 0),
        other => panic!("unexpected result: {:?}", other),
    }
}

#[test]
fn network_parse_decodes_the_frames() {
    let data = minimal_replay();
    let parser = ReplayParser::new().with_network_parse(true);
    let replay = parser.parse_bytes(&data).unwrap();
    let frames = replay.network_frames.unwrap();
    assert!(frames.frames.is_empty());
}

#[test]
fn parse_bytes_is_deterministic() {
    let data = minimal_replay();
    let parser = ReplayParser::new();
    assert_eq!(parser.parse_bytes(&data), parser.parse_bytes(&data));

    let truncated = &data[..30];
    let first = parser.parse_bytes(truncated);
    let second = parser.clone().parse_bytes(&truncated.to_vec());
    assert!(first.is_err());
    assert_eq!(first, second);
}

#[test]
fn parse_file_decodes_the_bytes_it_is_given() {
    let data = minimal_replay();
    let parser = ReplayParser::new();
    let from_file = parser.parse_file("a.replay", Ok(&data)).unwrap();
    let from_bytes = parser.parse_bytes(&data).unwrap();
    assert_eq!(from_file, from_bytes);
}

#[test]
fn parse_file_reports_an_io_failure_with_its_path() {
    let parser = ReplayParser::new();
    let err = parser
        .parse_file("missing.replay", Err("No such file or directory".to_string()))
        .unwrap_err();
    match &err {
        ReplayError::Io { path, message } => {
            assert_eq!(path, "missing.replay");
            assert_eq!(message, "No such file or directory");
        }
        other => panic!("unexpected error: {:?}", other),
    }
    assert_eq!(err.describe(), "No such file or directory");
}

#[test]
fn parse_file_keeps_the_decoders_error() {
    let parser = ReplayParser::new();
    let data = [1u8, 2, 3];
    let err = parser.parse_file("short.replay", Ok(&data)).unwrap_err();
    match &err {
        ReplayError::Decode(error) => {
            assert_eq!(Err(error.clone()), parser.parse_bytes(&data));
        }
        other => panic!("unexpected error: {:?}", other),
    }
    assert_eq!(
        err.describe(),
        "Could not decode replay header size at offset (0): Insufficient data. Expected 4 bytes, but only 3 left: Insufficient data. Expected 4 bytes, but only 3 left"
    );
}

#[test]
fn an_error_without_a_source_is_described_by_its_own_text() {
    let data = minimal_replay();
    let parser = ReplayParser::new().with_crc_check(true);
    let err = parser.parse_file("a.replay", Ok(&data)).unwrap_err();
    let text = err.describe();
    assert!(text.starts_with("Crc mismatch. Expected 0 but received "));
    assert!(!text.contains(": "));
}

#[test]
fn parse_path_pairs_the_replay_with_its_path() {
    let data = minimal_replay();
    let parser = ReplayParser::new();
    let parsed = parser
        .parse_path("dir/game.replay".to_string(), Ok(&data))
        .unwrap();
    assert_eq!(parsed.path, "dir/game.replay");
    assert_eq!(parsed.replay, parser.parse_bytes(&data).unwrap());
}

#[test]
fn parse_path_fails_as_parse_file_does() {
    let parser = ReplayParser::new();
    let err = parser
        .parse_path("gone.replay".to_string(), Err("denied".to_string()))
        .unwrap_err();
    match err {
        ReplayError::Io { path, message } => {
            assert_eq!(path, "gone.replay");
            assert_eq!(message, "denied");
        }
        other => panic!("unexpected error: {:?}", other),
    }

    let err = parser
        .parse_path("empty.replay".to_string(), Ok(&[]))
        .unwrap_err();
    assert!(matches!(err, ReplayError::Decode(_)));
}

#[test]
fn a_zero_length_file_is_read_and_then_rejected_by_the_decoder() {
    let empty: [u8; 0] = [];
    let mut stage = first_stage();
    let mut events = vec![
        LoadEvent::Opened,
        LoadEvent::MapFailed,
        LoadEvent::ReadDone { bytes: &empty },
    ]
    .into_iter();
    let loaded = loop {
        match next_action(stage, events.next().unwrap()) {
            LoadAction::Attempt(next) => stage = next,
            LoadAction::Finish(loaded) => break loaded,
        }
    };
    assert_eq!(loaded, Ok(&empty[..]));

    let err = ReplayParser::new()
        .parse_file("empty.replay", loaded)
        .unwrap_err();
    assert!(matches!(err, ReplayError::Decode(_)));
    assert_eq!(
        err.describe(),
        "Could not decode replay header size at offset (0): Insufficient data. Expected 4 bytes, but only 0 left: Insufficient data. Expected 4 bytes, but only 0 left"
    );
}
