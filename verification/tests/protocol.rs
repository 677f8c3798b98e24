use floater::codec::{
    command_fields, decode, decode_fields, encode, Command, DecodeError, Response, Status,
};
use floater::dispatch::{plan_line, LinePlan};

#[test]
fn show_line_decodes() {
    let r = decode("{\"action\":\"show\",\"content\":\"hello\",\"timer\":true}");
    assert_eq!(r, Ok(Command::Show { content: "hello".to_string(), timer: true }));
}

#[test]
fn hide_line_decodes() {
    let r = decode("{\"action\":\"hide\"}");
    assert_eq!(r, Ok(Command::Hide));
}

#[test]
fn timer_defaults_to_false() {
    let r = decode("{\"action\":\"show\",\"content\":\"x\"}");
    assert_eq!(r, Ok(Command::Show { content: "x".to_string(), timer: false }));
}

#[test]
fn extra_fields_are_ignored() {
    let r = decode("{\"action\":\"hide\",\"content\":\"x\",\"other\":[1,2]}");
    assert_eq!(r, Ok(Command::Hide));
}

#[test]
fn not_json_is_an_error() {
    assert_eq!(decode("not json"), Err(DecodeError::NotObject));
}

#[test]
fn non_object_document_is_an_error() {
    assert_eq!(decode("[1,2,3]"), Err(DecodeError::NotObject));
    assert_eq!(decode("\"show\""), Err(DecodeError::NotObject));
}

#[test]
fn missing_action_is_an_error() {
    assert_eq!(decode("{\"content\":\"x\"}"), Err(DecodeError::MissingAction));
}

#[test]
fn non_string_action_is_an_error() {
    assert_eq!(decode("{\"action\":7}"), Err(DecodeError::BadAction));
}

#[test]
fn unknown_action_is_an_error() {
    assert_eq!(decode("{\"action\":\"toggle\"}"), Err(DecodeError::UnknownAction));
}

#[test]
fn missing_content_is_an_error() {
    assert_eq!(decode("{\"action\":\"show\"}"), Err(DecodeError::MissingContent));
}

#[test]
fn non_string_content_is_an_error() {
    assert_eq!(decode("{\"action\":\"show\",\"content\":5}"), Err(DecodeError::BadContent));
}

#[test]
fn non_boolean_timer_is_an_error() {
    assert_eq!(
        decode("{\"action\":\"show\",\"content\":\"x\",\"timer\":\"yes\"}"),
        Err(DecodeError::BadTimer),
    );
}

#[test]
fn round_trip_show() {
    let cmd = Command::Show { content: "hello there".to_string(), timer: true };
    let fields = command_fields(&cmd);
    assert_eq!(decode_fields(&fields), Ok(cmd));
}

#[test]
fn round_trip_hide() {
    let cmd = Command::Hide;
    let fields = command_fields(&cmd);
    assert_eq!(decode_fields(&fields), Ok(cmd));
}

#[test]
fn blank_lines_are_skipped() {
    assert_eq!(plan_line(""), LinePlan::Skip);
    assert_eq!(plan_line("   "), LinePlan::Skip);
    assert_eq!(plan_line("\t \r\n"), LinePlan::Skip);
    assert_eq!(plan_line("\u{a0}\u{2003}"), LinePlan::Skip);
}

#[test]
fn surrounding_whitespace_is_trimmed() {
    let p = plan_line("  {\"action\":\"hide\"} \n");
    assert_eq!(p, LinePlan::Dispatch(Command::Hide));
    let q = plan_line("\u{a0}{\"action\":\"hide\"}\u{a0}");
    assert_eq!(q, LinePlan::Dispatch(Command::Hide));
}

#[test]
fn malformed_line_draws_one_error_reply() {
    let p = plan_line("not json\n");
    match p {
        LinePlan::Reply(r) => {
            assert_eq!(r.status, Status::Error);
            assert!(r.message.contains("Invalid JSON"));
        }
        other => panic!("expected an error reply, got {:?}", other),
    }
}

#[test]
fn encode_success_line_is_exact() {
    let line = encode(&Response {
        status: Status::Success,
        message: "Window shown with content".to_string(),
    });
    assert_eq!(line, "{\"status\":\"success\",\"message\":\"Window shown with content\"}\n");
}

#[test]
fn encode_error_line_is_exact() {
    let line = encode(&Response { status: Status::Error, message: "boom".to_string() });
    assert_eq!(line, "{\"status\":\"error\",\"message\":\"boom\"}\n");
}

#[test]
fn encode_escapes_special_characters() {
    let line = encode(&Response {
        status: Status::Error,
        message: "a\"b\\c\nd\u{1f}".to_string(),
    });
    assert_eq!(line, "{\"status\":\"error\",\"message\":\"a\\\"b\\\\c\\u000ad\\u001f\"}\n");
}

#[test]
fn encode_emits_exactly_one_line() {
    let line = encode(&Response {
        status: Status::Error,
        message: "first\nsecond\rthird".to_string(),
    });
    assert_eq!(line.matches('\n').count(), 1);
    assert!(line.ends_with('\n'));
}

#[test]
fn encoded_response_parses_back_as_json() {
    let message = "quote \" slash \\ newline \n tab \t done".to_string();
    let line = encode(&Response { status: Status::Error, message: message.clone() });
    let value: serde_json::Value = serde_json::from_str(line.trim_end()).unwrap();
    assert_eq!(value["status"].as_str(), Some("error"));
    assert_eq!(value["message"].as_str(), Some(message.as_str()));
}
