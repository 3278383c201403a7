use rust_tour::json::JsonField;
use rust_tour::protocol::{
    decode_envelope, parse_frame, EnvelopeFields, Inbound, ProtocolError, TerminalField,
};
use rust_tour::terminal::TerminalMessage;

fn message(
    action: &str,
    session_id: Option<&str>,
    input: Option<&str>,
    cols: Option<u16>,
    rows: Option<u16>,
) -> Inbound {
    Inbound::Terminal(TerminalMessage {
        action: action.to_string(),
        session_id: session_id.map(|s| s.to_string()),
        input: input.map(|s| s.to_string()),
        cols,
        rows,
    })
}

fn text(value: &str) -> JsonField {
    JsonField::Text(value.to_string())
}

fn terminal_fields(
    action: JsonField,
    session_id: JsonField,
    input: JsonField,
    cols: JsonField,
    rows: JsonField,
) -> EnvelopeFields {
    EnvelopeFields { msg_type: text("terminal"), action, session_id, input, cols, rows }
}

#[test]
fn parses_create_frame() {
    let frame = r#"{"type":"terminal","action":"create","sessionId":"s1","cols":80,"rows":24}"#;
    assert_eq!(parse_frame(frame), Ok(message("create", Some("s1"), None, Some(80), Some(24))));
}

#[test]
fn parses_input_frame() {
    let frame = r#"{"type":"terminal","action":"input","sessionId":"s1","input":"echo hi\n"}"#;
    assert_eq!(parse_frame(frame), Ok(message("input", Some("s1"), Some("echo hi\n"), None, None)));
}

#[test]
fn member_order_and_whitespace_do_not_matter() {
    let frame = "  {\n \"rows\" : 40, \"sessionId\" : \"s1\",\n \"action\" : \"resize\", \"cols\" : 100,\n \"type\" : \"terminal\" }\n";
    assert_eq!(parse_frame(frame), Ok(message("resize", Some("s1"), None, Some(100), Some(40))));
}

#[test]
fn unknown_members_are_skipped() {
    let frame = r#"{"type":"terminal","action":"check","sessionId":"s1","extra":[1,2,3],"more":{"a":true}}"#;
    assert_eq!(parse_frame(frame), Ok(message("check", Some("s1"), None, None, None)));
}

#[test]
fn null_members_count_as_absent() {
    let frame = r#"{"type":"terminal","action":"create","sessionId":null,"input":null,"cols":null,"rows":null}"#;
    assert_eq!(parse_frame(frame), Ok(message("create", None, None, None, None)));
}

#[test]
fn escapes_in_strings_are_decoded() {
    let frame = r#"{"type":"terminal","action":"input","sessionId":"sé","input":"a\tb\"c\\\u0003"}"#;
    assert_eq!(
        parse_frame(frame),
        Ok(message("input", Some("s\u{e9}"), Some("a\tb\"c\\\u{3}"), None, None))
    );
}

#[test]
fn other_frame_types_are_reported_with_their_type() {
    assert_eq!(parse_frame(r#"{"type":"ping"}"#), Ok(Inbound::Other("ping".to_string())));
    assert_eq!(
        parse_frame(r#"{"type":"file_changed","action":17}"#),
        Ok(Inbound::Other("file_changed".to_string()))
    );
    assert_eq!(parse_frame(r#"{"type":""}"#), Ok(Inbound::Other(String::new())));
    assert_eq!(parse_frame(r#"{"type":"Terminal"}"#), Ok(Inbound::Other("Terminal".to_string())));
}

#[test]
fn text_that_is_not_json_is_rejected() {
    assert_eq!(parse_frame(""), Err(ProtocolError::InvalidJson));
    assert_eq!(parse_frame("hello"), Err(ProtocolError::InvalidJson));
    assert_eq!(parse_frame(r#"{"type":"terminal""#), Err(ProtocolError::InvalidJson));
    assert_eq!(parse_frame(r#"{"type":"terminal"} trailing"#), Err(ProtocolError::InvalidJson));
    assert_eq!(parse_frame(r#"{'type':'terminal'}"#), Err(ProtocolError::InvalidJson));
}

#[test]
fn documents_without_a_string_type_are_rejected() {
    assert_eq!(parse_frame("{}"), Err(ProtocolError::InvalidEnvelope));
    assert_eq!(parse_frame("[1,2]"), Err(ProtocolError::InvalidEnvelope));
    assert_eq!(parse_frame("\"terminal\""), Err(ProtocolError::InvalidEnvelope));
    assert_eq!(parse_frame("null"), Err(ProtocolError::InvalidEnvelope));
    assert_eq!(parse_frame(r#"{"type":null}"#), Err(ProtocolError::InvalidEnvelope));
    assert_eq!(parse_frame(r#"{"type":7}"#), Err(ProtocolError::InvalidEnvelope));
    assert_eq!(parse_frame(r#"{"action":"create"}"#), Err(ProtocolError::InvalidEnvelope));
}

#[test]
fn terminal_frame_needs_a_string_action() {
    let expected = Err(ProtocolError::InvalidField(TerminalField::Action));
    assert_eq!(parse_frame(r#"{"type":"terminal"}"#), expected);
    assert_eq!(parse_frame(r#"{"type":"terminal","action":null}"#), expected);
    assert_eq!(parse_frame(r#"{"type":"terminal","action":1}"#), expected);
    assert_eq!(parse_frame(r#"{"type":"terminal","action":["create"]}"#), expected);
}

#[test]
fn members_of_the_wrong_kind_are_rejected() {
    assert_eq!(
        parse_frame(r#"{"type":"terminal","action":"check","sessionId":12}"#),
        Err(ProtocolError::InvalidField(TerminalField::SessionId))
    );
    assert_eq!(
        parse_frame(r#"{"type":"terminal","action":"input","sessionId":"s1","input":true}"#),
        Err(ProtocolError::InvalidField(TerminalField::Input))
    );
    assert_eq!(
        parse_frame(r#"{"type":"terminal","action":"create","cols":"80"}"#),
        Err(ProtocolError::InvalidField(TerminalField::Cols))
    );
    assert_eq!(
        parse_frame(r#"{"type":"terminal","action":"create","rows":{}}"#),
        Err(ProtocolError::InvalidField(TerminalField::Rows))
    );
}

#[test]
fn dimensions_must_be_integers_from_0_to_65535() {
    assert_eq!(
        parse_frame(r#"{"type":"terminal","action":"create","cols":0,"rows":65535}"#),
        Ok(message("create", None, None, Some(0), Some(65535)))
    );
    assert_eq!(
        parse_frame(r#"{"type":"terminal","action":"create","cols":65536}"#),
        Err(ProtocolError::InvalidField(TerminalField::Cols))
    );
    assert_eq!(
        parse_frame(r#"{"type":"terminal","action":"create","cols":-1}"#),
        Err(ProtocolError::InvalidField(TerminalField::Cols))
    );
    assert_eq!(
        parse_frame(r#"{"type":"terminal","action":"create","rows":24.5}"#),
        Err(ProtocolError::InvalidField(TerminalField::Rows))
    );
    assert_eq!(
        parse_frame(r#"{"type":"terminal","action":"create","rows":24.0}"#),
        Err(ProtocolError::InvalidField(TerminalField::Rows))
    );
    assert_eq!(
        parse_frame(r#"{"type":"terminal","action":"create","rows":18446744073709551616}"#),
        Err(ProtocolError::InvalidField(TerminalField::Rows))
    );
}

#[test]
fn first_invalid_member_is_named() {
    assert_eq!(
        parse_frame(r#"{"type":"terminal","rows":-1,"cols":-1,"input":1,"sessionId":1,"action":1}"#),
        Err(ProtocolError::InvalidField(TerminalField::Action))
    );
    assert_eq!(
        parse_frame(r#"{"type":"terminal","rows":-1,"cols":-1,"input":1,"sessionId":1,"action":"x"}"#),
        Err(ProtocolError::InvalidField(TerminalField::SessionId))
    );
    assert_eq!(
        parse_frame(r#"{"type":"terminal","rows":-1,"cols":-1,"input":1,"action":"x"}"#),
        Err(ProtocolError::InvalidField(TerminalField::Input))
    );
    assert_eq!(
        parse_frame(r#"{"type":"terminal","rows":-1,"cols":-1,"action":"x"}"#),
        Err(ProtocolError::InvalidField(TerminalField::Cols))
    );
    assert_eq!(
        parse_frame(r#"{"type":"terminal","rows":-1,"action":"x"}"#),
        Err(ProtocolError::InvalidField(TerminalField::Rows))
    );
}

#[test]
fn members_of_other_frame_types_are_not_checked() {
    assert_eq!(
        parse_frame(r#"{"type":"other","action":1,"sessionId":2,"cols":"x"}"#),
        Ok(Inbound::Other("other".to_string()))
    );
}

#[test]
fn unknown_action_is_still_a_terminal_message() {
    assert_eq!(
        parse_frame(r#"{"type":"terminal","action":"reboot"}"#),
        Ok(message("reboot", None, None, None, None))
    );
}

#[test]
fn decode_envelope_on_given_members() {
    assert_eq!(
        decode_envelope(terminal_fields(
            text("resize"),
            text("s1"),
            JsonField::Absent,
            JsonField::Number(Some(100)),
            JsonField::Number(Some(40)),
        )),
        Ok(message("resize", Some("s1"), None, Some(100), Some(40)))
    );
    assert_eq!(
        decode_envelope(terminal_fields(
            text("create"),
            JsonField::Null,
            JsonField::Null,
            JsonField::Absent,
            JsonField::Null,
        )),
        Ok(message("create", None, None, None, None))
    );
}

#[test]
fn decode_envelope_names_each_invalid_member() {
    assert_eq!(
        decode_envelope(EnvelopeFields {
            msg_type: JsonField::Absent,
            action: text("create"),
            session_id: JsonField::Absent,
            input: JsonField::Absent,
            cols: JsonField::Absent,
            rows: JsonField::Absent,
        }),
        Err(ProtocolError::InvalidEnvelope)
    );
    assert_eq!(
        decode_envelope(terminal_fields(
            JsonField::Other,
            JsonField::Absent,
            JsonField::Absent,
            JsonField::Absent,
            JsonField::Absent,
        )),
        Err(ProtocolError::InvalidField(TerminalField::Action))
    );
    assert_eq!(
        decode_envelope(terminal_fields(
            text("create"),
            JsonField::Number(Some(1)),
            JsonField::Absent,
            JsonField::Absent,
            JsonField::Absent,
        )),
        Err(ProtocolError::InvalidField(TerminalField::SessionId))
    );
    assert_eq!(
        decode_envelope(terminal_fields(
            text("create"),
            JsonField::Absent,
            JsonField::Other,
            JsonField::Absent,
            JsonField::Absent,
        )),
        Err(ProtocolError::InvalidField(TerminalField::Input))
    );
    assert_eq!(
        decode_envelope(terminal_fields(
            text("create"),
            JsonField::Absent,
            JsonField::Absent,
            JsonField::Number(None),
            JsonField::Absent,
        )),
        Err(ProtocolError::InvalidField(TerminalField::Cols))
    );
    assert_eq!(
        decode_envelope(terminal_fields(
            text("create"),
            JsonField::Absent,
            JsonField::Absent,
            JsonField::Number(Some(65535)),
            JsonField::Number(Some(65536)),
        )),
        Err(ProtocolError::InvalidField(TerminalField::Rows))
    );
}
