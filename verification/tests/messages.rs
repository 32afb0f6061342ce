use media_remote::keyboard::KeyCode;
use media_remote::message::{
    handle_action, is_json, message_action, parse_message, try_parse_message, Command,
    JsonMember, MessageAction, MessageError, MessageFields,
};

fn parsed(text: &str) -> Option<MessageAction> {
    try_parse_message(text).unwrap()
}

#[test]
fn each_control_is_understood() {
    assert_eq!(parsed("{\"pause\":\"\"}"), Some(MessageAction::Pause));
    assert_eq!(parsed("{\"right\":\"\"}"), Some(MessageAction::Right));
    assert_eq!(parsed("{\"left\":\"\"}"), Some(MessageAction::Left));
    assert_eq!(parsed("{\"mute\":\"\"}"), Some(MessageAction::Mute));
    assert_eq!(parsed("{\"unmute\":\"\"}"), Some(MessageAction::Unmute));
    assert_eq!(parsed("{\"vol\":\"42\"}"), Some(MessageAction::Vol("42".to_string())));
    assert_eq!(parsed("{\"playpause\":\"\"}"), Some(MessageAction::PlayPause));
    assert_eq!(parsed("{\"next\":\"\"}"), Some(MessageAction::Next));
    assert_eq!(parsed("{\"prev\":\"\"}"), Some(MessageAction::Prev));
    assert_eq!(parsed("{\"stop\":\"\"}"), Some(MessageAction::Stop));
}

#[test]
fn htmx_headers_are_ignored() {
    let text = "{\"next\":\"\",\"HEADERS\":{\"HX-Request\":\"true\",\"HX-Trigger\":null,\"HX-Trigger-Name\":\"next\",\"HX-Target\":null,\"HX-Current-URL\":\"http://host:8080/\"}}";
    assert_eq!(parsed(text), Some(MessageAction::Next));
}

#[test]
fn earlier_control_wins() {
    assert_eq!(parsed("{\"stop\":\"\",\"pause\":\"\"}"), Some(MessageAction::Pause));
    assert_eq!(parsed("{\"playpause\":\"\",\"vol\":\"3\"}"), Some(MessageAction::Vol("3".to_string())));
    assert_eq!(parsed("{\"next\":\"\",\"prev\":\"\"}"), Some(MessageAction::Next));
}

#[test]
fn control_must_be_a_string() {
    assert_eq!(parsed("{\"pause\":1}"), None);
    assert_eq!(parsed("{\"pause\":null,\"stop\":\"x\"}"), Some(MessageAction::Stop));
    assert_eq!(parsed("{\"vol\":50}"), None);
}

#[test]
fn unknown_or_non_object_messages_ask_nothing() {
    assert_eq!(parsed("{}"), None);
    assert_eq!(parsed("{\"volume\":\"1\"}"), None);
    assert_eq!(parsed("[\"pause\"]"), None);
    assert_eq!(parsed("\"pause\""), None);
    assert_eq!(parsed("7"), None);
}

#[test]
fn invalid_json_is_an_error() {
    assert_eq!(try_parse_message("pause"), Err(MessageError::InvalidJson));
    assert_eq!(try_parse_message(""), Err(MessageError::InvalidJson));
    assert_eq!(try_parse_message("{\"pause\":"), Err(MessageError::InvalidJson));
    assert!(!is_json("{"));
    assert!(is_json("{\"a\":\"b\"}"));
}

#[test]
fn parse_message_on_json() {
    assert_eq!(parse_message("{\"left\":\"x\"}"), Some(MessageAction::Left));
    assert_eq!(parse_message("{\"other\":\"x\"}"), None);
}

#[test]
fn message_action_on_fields() {
    let fields = MessageFields {
        unmute: Some(JsonMember::Str(String::new())),
        stop: Some(JsonMember::Str(String::new())),
        ..Default::default()
    };
    assert_eq!(message_action(&fields), Some(MessageAction::Unmute));
    assert_eq!(message_action(&MessageFields::default()), None);
    let fields = MessageFields {
        pause: Some(JsonMember::Number("1".to_string())),
        action: Some(JsonMember::Str("prev".to_string())),
        ..Default::default()
    };
    assert_eq!(message_action(&fields), Some(MessageAction::Prev));
    let fields = MessageFields {
        action: Some(JsonMember::Str("vol".to_string())),
        data: Some(JsonMember::Number("30".to_string())),
        ..Default::default()
    };
    assert_eq!(message_action(&fields), Some(MessageAction::Vol("30".to_string())));
    let fields = MessageFields {
        action: Some(JsonMember::Str("vol".to_string())),
        data: Some(JsonMember::Other),
        ..Default::default()
    };
    assert_eq!(message_action(&fields), None);
}

#[test]
fn documented_shape_is_understood() {
    assert_eq!(parsed("{\"action\":\"mute\",\"data\":null}"), Some(MessageAction::Mute));
    assert_eq!(parsed("{\"action\":\"pause\",\"data\":null}"), Some(MessageAction::Pause));
    assert_eq!(parsed("{\"action\":\"right\"}"), Some(MessageAction::Right));
    assert_eq!(parsed("{\"action\":\"left\",\"data\":3}"), Some(MessageAction::Left));
    assert_eq!(parsed("{\"action\":\"unmute\",\"data\":null}"), Some(MessageAction::Unmute));
    assert_eq!(parsed("{\"action\":\"playpause\",\"data\":null}"), Some(MessageAction::PlayPause));
    assert_eq!(parsed("{\"action\":\"next\"}"), Some(MessageAction::Next));
    assert_eq!(parsed("{\"action\":\"prev\",\"data\":null}"), Some(MessageAction::Prev));
    assert_eq!(parsed("{\"action\":\"stop\",\"data\":null}"), Some(MessageAction::Stop));
}

#[test]
fn documented_shape_carries_the_volume_in_data() {
    assert_eq!(parsed("{\"action\":\"vol\",\"data\":42}"), Some(MessageAction::Vol("42".to_string())));
    assert_eq!(parsed("{\"action\":\"vol\",\"data\":42.5}"), Some(MessageAction::Vol("42.5".to_string())));
    assert_eq!(parsed("{\"data\":0,\"action\":\"vol\"}"), Some(MessageAction::Vol("0".to_string())));
    assert_eq!(parsed("{\"action\":\"vol\",\"data\":null}"), None);
    assert_eq!(parsed("{\"action\":\"vol\"}"), None);
    assert_eq!(parsed("{\"action\":\"vol\",\"data\":\"42\"}"), None);
}

#[test]
fn documented_shape_with_unknown_action_asks_nothing() {
    assert_eq!(parsed("{\"action\":\"volume\",\"data\":1}"), None);
    assert_eq!(parsed("{\"action\":5,\"data\":null}"), None);
    assert_eq!(parsed("{\"action\":null}"), None);
    assert_eq!(parsed("{\"action\":\"\"}"), None);
}

#[test]
fn control_names_come_before_the_documented_shape() {
    assert_eq!(parsed("{\"stop\":\"\",\"action\":\"pause\"}"), Some(MessageAction::Stop));
    assert_eq!(parsed("{\"vol\":\"5\",\"action\":\"vol\",\"data\":9}"), Some(MessageAction::Vol("5".to_string())));
    // A control member that is no string does not count; the shape is read.
    assert_eq!(parsed("{\"stop\":1,\"action\":\"pause\"}"), Some(MessageAction::Pause));
}

#[test]
fn documented_volume_becomes_a_volume_command() {
    assert_eq!(
        handle_action(parsed("{\"action\":\"vol\",\"data\":75}")),
        Some(Command::SetVolume("75".to_string()))
    );
    assert_eq!(handle_action(parsed("{\"action\":\"mute\",\"data\":null}")), Some(Command::Mute));
}

#[test]
fn actions_become_commands() {
    assert_eq!(handle_action(None), None);
    assert_eq!(handle_action(Some(MessageAction::Pause)), Some(Command::Tap(KeyCode::Space)));
    assert_eq!(handle_action(Some(MessageAction::Right)), Some(Command::Tap(KeyCode::Right)));
    assert_eq!(handle_action(Some(MessageAction::Left)), Some(Command::Tap(KeyCode::Left)));
    assert_eq!(handle_action(Some(MessageAction::Mute)), Some(Command::Mute));
    assert_eq!(handle_action(Some(MessageAction::Unmute)), Some(Command::Unmute));
    assert_eq!(
        handle_action(Some(MessageAction::Vol("75".to_string()))),
        Some(Command::SetVolume("75".to_string()))
    );
    assert_eq!(handle_action(Some(MessageAction::PlayPause)), Some(Command::Tap(KeyCode::PlayPause)));
    assert_eq!(handle_action(Some(MessageAction::Next)), Some(Command::Tap(KeyCode::Next)));
    assert_eq!(handle_action(Some(MessageAction::Prev)), Some(Command::Tap(KeyCode::Prev)));
    assert_eq!(handle_action(Some(MessageAction::Stop)), Some(Command::Tap(KeyCode::Stop)));
}

#[test]
fn page_controls_are_understood() {
    // The names of the buttons on both pages and the slider's name.
    let expected = [
        ("playpause", MessageAction::PlayPause),
        ("stop", MessageAction::Stop),
        ("prev", MessageAction::Prev),
        ("next", MessageAction::Next),
        ("pause", MessageAction::Pause),
        ("left", MessageAction::Left),
        ("right", MessageAction::Right),
        ("mute", MessageAction::Mute),
        ("unmute", MessageAction::Unmute),
    ];
    for (name, action) in expected {
        let text = format!("{{\"{}\":\"\"}}", name);
        assert_eq!(parsed(&text), Some(action));
    }
    assert_eq!(parsed("{\"vol\":\"12.5\"}"), Some(MessageAction::Vol("12.5".to_string())));
}
