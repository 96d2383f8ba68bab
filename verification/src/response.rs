//! The wire-protocol codec, inbound side.
//!
//! The worker answers with one JSON object per line: `{"success":B,"data":D,
//! "error":E}`, where `data` and `error` are optional. Parsing the line and
//! reading its fields is delegated to `serde_json` in one trusted step whose
//! outcome is named over the line's text; everything after that — quoting
//! the raw line in every protocol diagnostic and mapping the structured
//! outcome to a result-or-error value — is verified logic in this module.

use vstd::prelude::*;

verus! {

#[verifier::external_type_specification]
#[verifier::external_body]
pub struct ExValue(serde_json::Value);

/// Whether `serde_json` accepts the text as one well-formed JSON document.
pub uninterp spec fn is_valid_json(line: Seq<char>) -> bool;

/// Whether a valid line matches the response shape: a `success` field
/// holding a boolean, and an `error` field that is absent, null or a string.
pub uninterp spec fn response_shape_ok(line: Seq<char>) -> bool;

/// The boolean `success` field of a well-shaped response line.
pub uninterp spec fn response_success(line: Seq<char>) -> bool;

/// The `error` text of a well-shaped response line; `None` when the field
/// is absent or null.
pub uninterp spec fn response_error(line: Seq<char>) -> Option<Seq<char>>;

/// Whether the `data` field of the line is absent or null.
pub uninterp spec fn response_data_absent(line: Seq<char>) -> bool;

/// The fields of one response line, read in a single step: not JSON at all
/// (carrying the parser's message), valid JSON of the wrong shape, or the
/// three response fields.
enum ResponseFields {
    NotJson(String),
    BadShape,
    Shaped { success: bool, data: Option<serde_json::Value>, error: Option<String> },
}

/// Relies on `serde_json::from_str::<Value>` — parsing is a pure function
/// of the text, returning `Ok` exactly on valid JSON — and on
/// `serde_json::Value::get`, `as_bool`, `is_null`, `as_str` and `clone`:
/// field lookup and variant tests on the parsed document, so every field
/// below is a function of the line's text alone.
#[verifier::external_body]
fn read_response_fields(line: &str) -> (r: ResponseFields)
    ensures
        r is NotJson <==> !is_valid_json(line@),
        is_valid_json(line@) ==> (r is BadShape <==> !response_shape_ok(line@)),
        r matches ResponseFields::Shaped { success, data, error } ==> {
            &&& success == response_success(line@)
            &&& (match error {
                Some(e) => response_error(line@) == Some(e@),
                None => response_error(line@) is None,
            })
            &&& (data is None <==> response_data_absent(line@))
        },
{
    let v: serde_json::Value = match serde_json::from_str(line) {
        Ok(v) => v,
        Err(e) => return ResponseFields::NotJson(e.to_string()),
    };
    let success: bool = match v.get("success").and_then(serde_json::Value::as_bool) {
        Some(b) => b,
        None => return ResponseFields::BadShape,
    };
    let error: Option<String> = match v.get("error").filter(|e| !e.is_null()).map(|e| e.as_str()) {
        Some(Some(s)) => Some(s.to_owned()),
        Some(None) => return ResponseFields::BadShape,
        None => None,
    };
    ResponseFields::Shaped { success, error, data: v.get("data").filter(|d| !d.is_null()).cloned() }
}

/// Holds when `needle` occurs verbatim somewhere inside `hay`.
pub open spec fn text_contains(hay: Seq<char>, needle: Seq<char>) -> bool {
    exists|k: int|
        0 <= k && k + needle.len() <= hay.len() && #[trigger] hay.subrange(k, k + needle.len())
            == needle
}

/// Builds the diagnostic for a response line that could not be understood:
/// it names the reason and quotes the raw offending line verbatim, so a
/// desynchronized stream can be debugged from the message alone.
pub fn protocol_error_message(reason: &str, line: &str) -> (msg: String)
    ensures
        msg@ == "Failed to parse Python response: "@ + reason@ + ". Raw output: '"@ + line@
            + "'"@,
        text_contains(msg@, line@),
{
    let mut msg: String = String::from_str("Failed to parse Python response: ");
    msg.append(reason);
    msg.append(". Raw output: '");
    msg.append(line);
    msg.append("'");
    proof {
        let k: int = ("Failed to parse Python response: "@.len() + reason@.len()
            + ". Raw output: '"@.len()) as int;
        assert(msg@.subrange(k, k + line@.len()) =~= line@);
    }
    msg
}

/// Maps a well-shaped response to the caller-visible outcome: success hands
/// the payload through unchanged (`None` standing for an absent or null
/// `data` field), failure hands out the worker's error text, or the fixed
/// fallback when the worker gave none.
pub fn interpret_response(
    success: bool,
    data: Option<serde_json::Value>,
    error: Option<String>,
) -> (r: Result<Option<serde_json::Value>, String>)
    ensures
        success ==> r == Ok::<Option<serde_json::Value>, String>(data),
        !success ==> r is Err,
        !success && error is Some ==> r->Err_0@ == error->0@,
        !success && error is None ==> r->Err_0@ == "Unknown error"@,
{
    if success {
        Ok(data)
    } else {
        match error {
            Some(e) => Err(e),
            None => Err(String::from_str("Unknown error")),
        }
    }
}

/// What decoding one response line yields, as a relation between the line's
/// text and the result: a line that is not valid JSON or not
/// response-shaped is an error quoting the raw line; a well-shaped line
/// succeeds exactly when its `success` field is true, handing the payload
/// through (`None` for absent or null `data`), and fails with the worker's
/// `error` text or the fixed fallback otherwise.
pub open spec fn decodes_to(line: Seq<char>, r: Result<Option<serde_json::Value>, String>) -> bool {
    &&& !is_valid_json(line) ==> r is Err && text_contains(r->Err_0@, line)
    &&& is_valid_json(line) && !response_shape_ok(line) ==> r is Err && text_contains(
        r->Err_0@,
        line,
    )
    &&& is_valid_json(line) && response_shape_ok(line) ==> {
        &&& r is Ok <==> response_success(line)
        &&& response_success(line) ==> (r->Ok_0 is None <==> response_data_absent(line))
        &&& !response_success(line) ==> (match response_error(line) {
            Some(e) => r->Err_0@ == e,
            None => r->Err_0@ == "Unknown error"@,
        })
    }
}

/// Decodes one response line. A line that is not valid JSON, or that does
/// not match the response shape, is a protocol error whose message quotes
/// the raw line; a well-shaped response is mapped by
/// [`interpret_response`].
pub fn decode_response(line: &str) -> (r: Result<Option<serde_json::Value>, String>)
    ensures
        decodes_to(line@, r),
{
    match read_response_fields(line) {
        ResponseFields::NotJson(e) => Err(protocol_error_message(e.as_str(), line)),
        ResponseFields::BadShape => Err(
            protocol_error_message("the line does not match the response shape", line),
        ),
        ResponseFields::Shaped { success, data, error } => interpret_response(success, data, error),
    }
}

} // verus!
