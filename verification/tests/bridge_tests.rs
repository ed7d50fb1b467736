use web_service::bridge::{
    create_session_outcome, create_session_request, execute_command_outcome,
    execute_command_request, execute_tool_outcome, execute_tool_request, send_message_outcome,
    send_message_request, BridgeError, BridgeOperation, NodeResponse,
};
use web_service::ids::uuid_to_text;
use web_service::json::JsonValue;

fn s(x: &str) -> String {
    x.to_string()
}

fn obj(entries: Vec<(&str, JsonValue)>) -> JsonValue {
    JsonValue::Object(entries.into_iter().map(|(k, v)| (s(k), v)).collect())
}

fn text(x: &str) -> JsonValue {
    JsonValue::Str(s(x))
}

fn member<'a>(v: &'a JsonValue, key: &str) -> &'a JsonValue {
    v.get(key).unwrap()
}

fn ok(data: Option<JsonValue>) -> NodeResponse {
    NodeResponse { id: s("1"), success: true, data, error: None }
}

fn failed(error: Option<&str>) -> NodeResponse {
    NodeResponse { id: s("1"), success: false, data: None, error: error.map(s) }
}

fn is_uuid_text(t: &str) -> bool {
    t.len() == 36
        && t.char_indices().all(|(i, c)| {
            if i == 8 || i == 13 || i == 18 || i == 23 { c == '-' } else { c.is_ascii_hexdigit() && !c.is_ascii_uppercase() }
        })
}

#[test]
fn uuid_text_is_hyphenated_lower_case() {
    assert_eq!(uuid_to_text(0x67e5504410b1426f9247bb680e5fe0c8), "67e55044-10b1-426f-9247-bb680e5fe0c8");
    assert_eq!(uuid_to_text(0), "00000000-0000-0000-0000-000000000000");
}

#[test]
fn requests_carry_method_and_parameters() {
    let r = create_session_request("abc", "/w", JsonValue::Null);
    assert_eq!(r.id, "abc");
    assert_eq!(r.method, "create_session");
    assert_eq!(member(&r.params, "workspace_path").as_str().unwrap(), "/w");
    assert!(matches!(member(&r.params, "auth_info"), JsonValue::Null));

    let r = send_message_request("sid", "hi");
    assert!(is_uuid_text(&r.id));
    assert_eq!(r.method, "send_message");
    assert_eq!(member(&r.params, "session_id").as_str().unwrap(), "sid");
    assert_eq!(member(&r.params, "message").as_str().unwrap(), "hi");

    let r = execute_tool_request("sid", "edit_file", obj(vec![("path", text("a"))]), true);
    assert!(is_uuid_text(&r.id));
    assert_eq!(r.method, "execute_tool");
    assert_eq!(member(&r.params, "tool_name").as_str().unwrap(), "edit_file");
    assert!(matches!(member(&r.params, "approved"), JsonValue::Bool(true)));
    assert_eq!(member(member(&r.params, "args"), "path").as_str().unwrap(), "a");

    let r = execute_command_request("ls", ".");
    assert_eq!(r.method, "execute_command");
    assert_eq!(member(&r.params, "command").as_str().unwrap(), "ls");
    assert_eq!(member(&r.params, "workspace_path").as_str().unwrap(), ".");
}

#[test]
fn failures_are_reported_with_their_text() {
    let e = create_session_outcome(&failed(Some("boom"))).err().unwrap();
    assert!(matches!(e, BridgeError::Failed(BridgeOperation::CreateSession, _)));
    assert_eq!(e.message(), "Failed to create session: Some(\"boom\")");
    let e = send_message_outcome(&failed(None)).err().unwrap();
    assert_eq!(e.message(), "Failed to send message: None");
    let e = execute_tool_outcome(&failed(Some("x"))).err().unwrap();
    assert_eq!(e.message(), "Failed to execute tool: Some(\"x\")");
    let e = execute_command_outcome(&failed(Some("y"))).err().unwrap();
    assert_eq!(e.message(), "Failed to execute command: Some(\"y\")");
    assert!(create_session_outcome(&ok(None)).is_ok());
}

#[test]
fn message_reply_without_data_is_an_error() {
    let e = send_message_outcome(&ok(None)).err().unwrap();
    assert!(matches!(e, BridgeError::NoData));
    assert_eq!(e.message(), "No data in response");
}

#[test]
fn message_reply_is_read_with_defaults() {
    let r = send_message_outcome(&ok(Some(obj(vec![])))).ok().unwrap();
    assert_eq!(r.response, "No response");
    assert!(r.pending_approvals.is_empty());
    let r = send_message_outcome(&ok(Some(obj(vec![("response", JsonValue::Bool(true))])))).ok().unwrap();
    assert_eq!(r.response, "No response");
}

#[test]
fn malformed_proposals_are_skipped() {
    let good = obj(vec![
        ("tool_name", text("edit_file")),
        ("args", obj(vec![("path", text("a.txt"))])),
        ("description", text("Edit a.txt")),
    ]);
    let no_args = obj(vec![("tool_name", text("t")), ("description", text("d"))]);
    let bad_name = obj(vec![
        ("tool_name", JsonValue::Number(s("3"))),
        ("args", JsonValue::Null),
        ("description", text("d")),
    ]);
    let second = obj(vec![
        ("tool_name", text("run_command")),
        ("args", JsonValue::Null),
        ("description", text("Run")),
    ]);
    let data = obj(vec![
        ("response", text("done")),
        ("pending_approvals", JsonValue::Array(vec![good, no_args, bad_name, text("x"), second])),
    ]);
    let r = send_message_outcome(&ok(Some(data))).ok().unwrap();
    assert_eq!(r.response, "done");
    assert_eq!(r.pending_approvals.len(), 2);
    assert_eq!(r.pending_approvals[0].tool_name, "edit_file");
    assert_eq!(r.pending_approvals[0].description, "Edit a.txt");
    assert_eq!(member(&r.pending_approvals[0].args, "path").as_str().unwrap(), "a.txt");
    assert_eq!(r.pending_approvals[1].tool_name, "run_command");
}

#[test]
fn tool_and_command_results_have_defaults() {
    assert_eq!(execute_tool_outcome(&ok(None)).ok().unwrap().result, "Tool executed");
    assert_eq!(
        execute_tool_outcome(&ok(Some(obj(vec![("result", text("42"))])))).ok().unwrap().result,
        "42"
    );
    assert_eq!(execute_command_outcome(&ok(None)).ok().unwrap(), "Command executed");
    assert_eq!(
        execute_command_outcome(&ok(Some(obj(vec![("output", text("a\nb"))])))).ok().unwrap(),
        "a\nb"
    );
}
