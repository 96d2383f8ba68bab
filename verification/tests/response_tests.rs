use python_bridge::bridge::conclude_call;
use python_bridge::bridge::ReadEvent;
use python_bridge::response::decode_response;
use python_bridge::response::interpret_response;

#[test]
fn success_with_data_yields_the_data() {
    let r = decode_response("{\"success\":true,\"data\":{\"tile\":\"base64...\"}}");
    let expected: serde_json::Value = serde_json::from_str("{\"tile\":\"base64...\"}").unwrap();
    assert_eq!(r, Ok(Some(expected)));
}

#[test]
fn success_without_data_is_ok_and_empty() {
    assert_eq!(decode_response("{\"success\":true}"), Ok(None));
}

#[test]
fn success_with_null_data_is_ok_and_empty() {
    assert_eq!(decode_response("{\"success\":true,\"data\":null}"), Ok(None));
}

#[test]
fn failure_reports_the_worker_error() {
    let r = decode_response("{\"success\":false,\"error\":\"overlay not found\"}");
    assert_eq!(r, Err("overlay not found".to_string()));
}

#[test]
fn failure_without_error_text_reports_the_fallback() {
    let r = decode_response("{\"success\":false}");
    assert_eq!(r, Err("Unknown error".to_string()));
}

#[test]
fn failure_with_null_error_reports_the_fallback() {
    let r = decode_response("{\"success\":false,\"error\":null}");
    assert_eq!(r, Err("Unknown error".to_string()));
}

#[test]
fn invalid_json_error_quotes_the_raw_line() {
    let raw = "this is not json";
    let err = decode_response(raw).unwrap_err();
    assert!(err.contains(raw));
}

#[test]
fn truncated_json_error_quotes_the_raw_line() {
    let raw = "{\"success\":tru";
    let err = decode_response(raw).unwrap_err();
    assert!(err.contains(raw));
}

#[test]
fn missing_success_field_is_a_protocol_error() {
    let raw = "{\"data\":{}}";
    let err = decode_response(raw).unwrap_err();
    assert!(err.contains(raw));
}

#[test]
fn non_boolean_success_is_a_protocol_error() {
    let raw = "{\"success\":1}";
    let err = decode_response(raw).unwrap_err();
    assert!(err.contains(raw));
}

#[test]
fn non_string_error_field_is_a_protocol_error() {
    let raw = "{\"success\":false,\"error\":42}";
    let err = decode_response(raw).unwrap_err();
    assert!(err.contains(raw));
}

#[test]
fn non_object_response_is_a_protocol_error() {
    let raw = "[1,2,3]";
    let err = decode_response(raw).unwrap_err();
    assert!(err.contains(raw));
}

#[test]
fn interpret_success_hands_data_through() {
    let data: serde_json::Value = serde_json::from_str("[1,2]").unwrap();
    assert_eq!(
        interpret_response(true, Some(data.clone()), None),
        Ok(Some(data))
    );
    assert_eq!(interpret_response(true, None, None), Ok(None));
}

#[test]
fn interpret_success_ignores_a_stray_error_field() {
    assert_eq!(
        interpret_response(true, None, Some("ignored".to_string())),
        Ok(None)
    );
}

#[test]
fn interpret_failure_prefers_the_given_error() {
    assert_eq!(
        interpret_response(false, None, Some("boom".to_string())),
        Err("boom".to_string())
    );
    assert_eq!(interpret_response(false, None, None), Err("Unknown error".to_string()));
}

#[test]
fn protocol_error_messages_have_the_documented_shape() {
    let msg = python_bridge::response::protocol_error_message("bad token", "{oops");
    assert_eq!(
        msg,
        "Failed to parse Python response: bad token. Raw output: '{oops'"
    );
}

#[test]
fn empty_line_is_a_protocol_error_quoting_the_empty_line() {
    let err = decode_response("").unwrap_err();
    assert!(err.contains("Raw output: ''"));
}

#[test]
fn eof_is_a_worker_death_error_not_a_hang() {
    let r = conclude_call(ReadEvent::Eof);
    assert_eq!(
        r,
        Err("worker closed its output before replying".to_string())
    );
}

#[test]
fn read_failure_propagates_the_pipe_error() {
    let r = conclude_call(ReadEvent::Failed("broken pipe".to_string()));
    assert_eq!(r, Err("broken pipe".to_string()));
}

#[test]
fn a_full_line_is_decoded_as_a_response() {
    let r = conclude_call(ReadEvent::Line(
        "{\"success\":false,\"error\":\"overlay not found\"}\n".to_string(),
    ));
    assert_eq!(r, Err("overlay not found".to_string()));
}
