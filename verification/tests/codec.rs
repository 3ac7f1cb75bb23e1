use subagent::codec::{decode_frame, parse_status, ClientAction, DecodeError, ResultMessage};
use subagent::state::{state_of_name, SubState};

#[test]
fn decode_get_state_with_no_payload() {
    let r = decode_frame(&vec![7u8]);
    let (action, payload) = r.expect("tag 7 decodes");
    assert_eq!(action, ClientAction::GetState);
    assert!(payload.is_empty());
}

#[test]
fn decode_out_of_range_tag_is_an_error() {
    let r = decode_frame(&vec![8u8]);
    assert_eq!(r.unwrap_err(), DecodeError::UnknownTag);
}

#[test]
fn decode_empty_frame_is_an_error() {
    let r = decode_frame(&Vec::new());
    assert_eq!(r.unwrap_err(), DecodeError::EmptyFrame);
}

#[test]
fn decode_carries_the_payload() {
    let r = decode_frame(&vec![3u8, b'a', b'b', b'c']);
    let (action, payload) = r.expect("tag 3 decodes");
    assert_eq!(action, ClientAction::AcceptCore);
    assert_eq!(payload, vec![b'a', b'b', b'c']);
}

#[test]
fn every_tag_maps_to_its_command() {
    let expected = [
        ClientAction::Start,
        ClientAction::Stop,
        ClientAction::Restart,
        ClientAction::AcceptCore,
        ClientAction::AcceptPlugin,
        ClientAction::AcceptConfig,
        ClientAction::AcceptWorld,
        ClientAction::GetState,
    ];
    for (tag, want) in expected.iter().enumerate() {
        assert_eq!(ClientAction::from_byte(tag as u8), Some(*want));
    }
    assert_eq!(ClientAction::from_byte(255), None);
}

#[test]
fn command_names_are_understood_in_both_spellings() {
    assert_eq!(ClientAction::from_name("start"), Some(ClientAction::Start));
    assert_eq!(ClientAction::from_name("Start"), Some(ClientAction::Start));
    assert_eq!(ClientAction::from_name("accept_core"), Some(ClientAction::AcceptCore));
    assert_eq!(ClientAction::from_name("GetState"), Some(ClientAction::GetState));
    assert_eq!(ClientAction::from_name("shutdown"), None);
    assert_eq!(ClientAction::from_name(""), None);
}

#[test]
fn status_reply_encodes_as_the_text_record() {
    let m = ResultMessage { server: String::from("Alpha"), sub_state: SubState::Running };
    assert_eq!(m.encode(), "{\"server\":\"Alpha\",\"sub_state\":\"running\"}");
}

#[test]
fn status_reply_round_trips() {
    let m = ResultMessage { server: String::from("Alpha"), sub_state: SubState::Running };
    let text = m.encode();
    let back = parse_status(&text).expect("an encoded reply parses");
    assert_eq!(back.server, "Alpha");
    assert_eq!(back.sub_state, SubState::Running);
    assert_eq!(back.sub_state.name(), "running");
}

#[test]
fn status_reply_round_trips_for_every_state() {
    for st in [SubState::Stopped, SubState::Starting, SubState::Running, SubState::Stopping] {
        let m = ResultMessage { server: String::from("s-1"), sub_state: st };
        let back = parse_status(&m.encode()).expect("parses");
        assert_eq!(back.server, "s-1");
        assert_eq!(back.sub_state, st);
    }
}

#[test]
fn parse_status_rejects_malformed_text() {
    assert!(parse_status("").is_none());
    assert!(parse_status("{\"server\":\"Alpha\"}").is_none());
    assert!(parse_status("{\"server\":\"Alpha\",\"sub_state\":\"paused\"}").is_none());
    assert!(parse_status("{\"server\":\"Alpha\",\"sub_state\":\"running\"} ").is_none());
}

#[test]
fn state_names_round_trip() {
    for st in [SubState::Stopped, SubState::Starting, SubState::Running, SubState::Stopping] {
        assert_eq!(state_of_name(&st.name()), Some(st));
    }
    assert_eq!(state_of_name("paused"), None);
    assert_eq!(state_of_name("Running"), None);
}
