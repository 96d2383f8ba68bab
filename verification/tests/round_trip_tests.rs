use python_bridge::codec::encode_request;
use python_bridge::handlers::get_tissue_overlay_tile_request;
use python_bridge::json::JsonValue;
use python_bridge::response::decode_response;

/// Plays the worker's part: reads one request line, echoes its `params`
/// back as the `data` of a successful response line.
fn echo_worker(request_line: &str) -> String {
    assert!(request_line.ends_with('\n'));
    let request: serde_json::Value = serde_json::from_str(request_line.trim_end()).unwrap();
    let params = request.get("params").unwrap().clone();
    let mut response = serde_json::Map::new();
    response.insert("success".to_string(), serde_json::Value::Bool(true));
    response.insert("data".to_string(), params);
    serde_json::to_string(&serde_json::Value::Object(response)).unwrap()
}

#[test]
fn params_round_trip_through_an_echoing_worker() {
    let params = JsonValue::Obj(vec![
        ("token".to_string(), JsonValue::Str("echo-7f3a\n\"quoted\"".to_string())),
        ("count".to_string(), JsonValue::Int(-42)),
        (
            "nested".to_string(),
            JsonValue::Arr(vec![JsonValue::Null, JsonValue::Bool(true)]),
        ),
    ]);
    let line = encode_request("echo", &params);
    let reply = echo_worker(&line);
    let got = decode_response(&reply).unwrap().unwrap();
    let expected: serde_json::Value = serde_json::from_str(
        "{\"token\":\"echo-7f3a\\n\\\"quoted\\\"\",\"count\":-42,\"nested\":[null,true]}",
    )
    .unwrap();
    assert_eq!(got, expected);
}

#[test]
fn tile_request_round_trips_its_params() {
    let line = get_tissue_overlay_tile_request("ov1", 2, 3, 4);
    let reply = echo_worker(&line);
    let got = decode_response(&reply).unwrap().unwrap();
    let expected: serde_json::Value =
        serde_json::from_str("{\"overlay_id\":\"ov1\",\"zoom\":2,\"x\":3,\"y\":4}").unwrap();
    assert_eq!(got, expected);
}

#[test]
fn each_caller_gets_the_answer_to_its_own_request() {
    // Calls are strictly sequential on the channel: request N is written and
    // its response read before request N+1 starts. Three exchanges with
    // distinct echo tokens each come back with their own token.
    for token in ["caller-1", "caller-2", "caller-3"] {
        let params = JsonValue::Obj(vec![(
            "token".to_string(),
            JsonValue::Str(token.to_string()),
        )]);
        let line = encode_request("echo", &params);
        let reply = echo_worker(&line);
        let got = decode_response(&reply).unwrap().unwrap();
        assert_eq!(got.get("token").unwrap().as_str().unwrap(), token);
    }
}
