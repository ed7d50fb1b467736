use web_service::chat::{
    execute_tool, reply_to_lowered, simulate_ai_response, ChatError, ChatManager, ChatMessage,
    ChatPendingApproval,
};
use web_service::ids::Timestamp;
use web_service::json::JsonValue;

fn user_message(id: u128, content: &str) -> ChatMessage {
    ChatMessage { id, content: content.to_string(), is_user: true, timestamp: Timestamp { secs: 1_700_000_000, nanos: 123_456_789 } }
}

#[test]
fn replies_follow_keywords_in_order() {
    assert_eq!(reply_to_lowered("hello there"), "Hello! I'm Gemini, how can I help you today?");
    assert_eq!(
        reply_to_lowered("open the file"),
        "I can help you with file operations. What would you like to do?"
    );
    assert_eq!(
        reply_to_lowered("fix my code"),
        "I'd be happy to help with your code. Please share what you're working on."
    );
    assert_eq!(reply_to_lowered("hello, file and code"), "Hello! I'm Gemini, how can I help you today?");
    assert_eq!(reply_to_lowered("anything else"), "I understand. Let me help you with that.");
    assert_eq!(reply_to_lowered(""), "I understand. Let me help you with that.");
}

#[test]
fn replies_ignore_case() {
    // upper-case input only matches after lower-casing
    assert_eq!(simulate_ai_response("HELLO", false), "Hello! I'm Gemini, how can I help you today?");
    assert_eq!(
        simulate_ai_response("My CODE", true),
        "I'd be happy to help with your code. Please share what you're working on."
    );
}

#[test]
fn tool_results_by_name() {
    let mk = |name: &str| ChatPendingApproval {
        id: 1,
        tool_name: name.to_string(),
        tool_args: JsonValue::Null,
        description: String::new(),
    };
    assert_eq!(execute_tool(&mk("edit_file")), "File edited successfully");
    assert_eq!(execute_tool(&mk("run_command")), "Command executed successfully");
    assert_eq!(execute_tool(&mk("other")), "Tool executed successfully");
}

#[test]
fn unknown_session_is_reported() {
    let mut m = ChatManager::new();
    assert!(matches!(m.get_session_history(5), Err(ChatError::SessionNotFound)));
    assert!(matches!(m.send_message(5, user_message(1, "hi"), false), Err(ChatError::SessionNotFound)));
    assert!(matches!(m.handle_approval(5, 1, true, None), Err(ChatError::SessionNotFound)));
    assert_eq!(ChatError::SessionNotFound.message(), "Session not found");
}

#[test]
fn new_session_has_empty_history() {
    let mut m = ChatManager::new();
    let id = m.create_session(42).unwrap();
    assert_eq!((id >> 76) & 0xf, 4);
    assert!(m.get_session_history(id).unwrap().is_empty());
}

#[test]
fn sending_appends_message_and_reply() {
    let mut m = ChatManager::new();
    let id = m.create_session(1).unwrap();
    let resp = m.send_message(id, user_message(77, "Hello"), false).unwrap();
    assert_eq!(resp.message_id, 77);
    assert_eq!(resp.ai_response.as_deref(), Some("Hello! I'm Gemini, how can I help you today?"));
    assert!(resp.pending_approvals.is_empty());
    let h = m.get_session_history(id).unwrap();
    assert_eq!(h.len(), 2);
    assert_eq!(h[0].id, 77);
    assert!(h[0].is_user);
    assert_eq!(h[0].content, "Hello");
    assert!(!h[1].is_user);
    assert_eq!(h[1].content, "Hello! I'm Gemini, how can I help you today?");
    m.send_message(id, user_message(78, "more"), true).unwrap();
    let h = m.get_session_history(id).unwrap();
    assert_eq!(h.len(), 4);
    assert_eq!(h[0].id, 77);
    assert_eq!(h[2].id, 78);
}

#[test]
fn file_messages_propose_an_edit_unless_auto_approved() {
    let mut m = ChatManager::new();
    let id = m.create_session(1).unwrap();
    let resp = m.send_message(id, user_message(1, "change this file"), false).unwrap();
    assert_eq!(resp.pending_approvals.len(), 1);
    let a = &resp.pending_approvals[0];
    assert_eq!(a.tool_name, "edit_file");
    assert_eq!(a.description, "Edit file example.txt");
    assert_eq!(a.tool_args.get("path").and_then(|v| v.as_str()).map(|s| s.as_str()), Some("example.txt"));
    assert_eq!(
        a.tool_args.get("content").and_then(|v| v.as_str()).map(|s| s.as_str()),
        Some("new content")
    );
    let resp = m.send_message(id, user_message(2, "change this file"), true).unwrap();
    assert!(resp.pending_approvals.is_empty());
    // the mention is case sensitive for proposals
    let resp = m.send_message(id, user_message(3, "FILE"), false).unwrap();
    assert!(resp.pending_approvals.is_empty());
    assert_eq!(
        resp.ai_response.as_deref(),
        Some("I can help you with file operations. What would you like to do?")
    );
}

#[test]
fn deciding_an_unknown_approval_changes_nothing() {
    let mut m = ChatManager::new();
    let id = m.create_session(1).unwrap();
    m.send_message(id, user_message(1, "a file please"), false).unwrap();
    assert!(m.handle_approval(id, 12345, true, Some(true)).is_ok());
    assert_eq!(m.get_session_history(id).unwrap().len(), 2);
}
