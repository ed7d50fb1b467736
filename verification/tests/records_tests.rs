use web_service::db::{Message, PendingApproval, Session};
use web_service::ids::{new_uuid, now};
use web_service::json::JsonValue;
use web_service::paths::{file_name, join_path};
use web_service::text::{str_contains, str_eq, str_starts_with, to_lowercase};

#[test]
fn fresh_identifiers_are_random_uuids() {
    let a = new_uuid();
    let b = new_uuid();
    assert_ne!(a, b);
    for id in [a, b] {
        assert_eq!((id >> 76) & 0xf, 4);
        assert_eq!((id >> 62) & 0x3, 2);
    }
    let t = now();
    assert!(t.secs > 1_600_000_000);
    assert!(t.nanos < 1_000_000_000);
}

#[test]
fn new_records() {
    let s = Session::new_record("/w");
    assert_eq!(s.workspace_path, "/w");
    assert_eq!(s.created_at, s.updated_at);
    let m = Message::new_record(s.id, "user", "hello");
    assert_eq!((m.session_id, m.role.as_str(), m.content.as_str()), (s.id, "user", "hello"));
    let a = PendingApproval::new_record(s.id, "edit_file", JsonValue::Bool(true), "Edit");
    assert_eq!(a.session_id, s.id);
    assert_eq!(a.tool_name, "edit_file");
    assert_eq!(a.description, "Edit");
    assert!(a.approved.is_none());
    assert!(matches!(a.args, JsonValue::Bool(true)));
    assert_ne!(a.id, m.id);
}

#[test]
fn path_helpers() {
    assert_eq!(join_path("/home/u", ".gemini"), "/home/u/.gemini");
    assert_eq!(join_path("/home/u/", "auth.json"), "/home/u/auth.json");
    assert_eq!(file_name("/a/b.txt").as_deref(), Some("b.txt"));
    assert_eq!(file_name("/"), None);
}

#[test]
fn text_helpers() {
    assert!(str_contains("a needle here", "needle"));
    assert!(!str_contains("a need", "needle"));
    assert!(str_contains("abc", ""));
    assert!(str_starts_with("AIza", "AI"));
    assert!(!str_starts_with("A", "AI"));
    assert!(str_eq("x", "x"));
    assert!(!str_eq("x", "y"));
    assert_eq!(web_service::text::concat_text("ab", "cd"), "abcd");
    assert_eq!(to_lowercase("ÄBC"), "äbc");
}

#[test]
fn json_helpers() {
    let v = JsonValue::Object(vec![
        ("a".to_string(), JsonValue::Number("1".to_string())),
        ("a".to_string(), JsonValue::Null),
        ("b".to_string(), JsonValue::Array(vec![JsonValue::Str("x".to_string())])),
    ]);
    assert!(matches!(v.get("a"), Some(JsonValue::Number(n)) if n == "1"));
    assert!(v.get("c").is_none());
    assert!(JsonValue::Null.get("a").is_none());
    assert_eq!(v.get("b").unwrap().as_array().unwrap().len(), 1);
    assert!(v.get("a").unwrap().as_str().is_none());
    let d = v.duplicate();
    assert_eq!(d.get("b").unwrap().as_array().unwrap()[0].as_str().unwrap(), "x");
}
