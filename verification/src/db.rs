//! The records the service stores: sessions, their messages, and proposed tool
//! calls awaiting a decision.

use vstd::prelude::*;
use crate::ids::{is_v4_uuid, new_uuid, now, Timestamp};
use crate::json::JsonValue;

verus! {

/// A chat session bound to a workspace directory.
pub struct Session {
    pub id: u128,
    pub workspace_path: String,
    pub created_at: Timestamp,
    /// Moves with every new message.
    pub updated_at: Timestamp,
}

/// A message of a session; `role` is `user` or `assistant`.
pub struct Message {
    pub id: u128,
    pub session_id: u128,
    pub role: String,
    pub content: String,
    pub created_at: Timestamp,
}

/// A proposed tool call; `approved` stays empty until it is decided.
pub struct PendingApproval {
    pub id: u128,
    pub session_id: u128,
    pub tool_name: String,
    pub args: JsonValue,
    pub description: String,
    pub approved: Option<bool>,
    pub created_at: Timestamp,
}

impl Session {
    /// A new session record for `workspace_path`, under a fresh identifier, created
    /// and updated now.
    pub fn new_record(workspace_path: &str) -> (s: Session)
        ensures
            is_v4_uuid(s.id),
            s.workspace_path@ == workspace_path@,
            s.created_at == s.updated_at,
    {
        let t = now();
        Session {
            id: new_uuid(),
            workspace_path: String::from_str(workspace_path),
            created_at: t,
            updated_at: t,
        }
    }
}

impl Message {
    /// A new message record of `session_id`, under a fresh identifier, created now.
    pub fn new_record(session_id: u128, role: &str, content: &str) -> (m: Message)
        ensures
            is_v4_uuid(m.id),
            m.session_id == session_id,
            m.role@ == role@,
            m.content@ == content@,
    {
        Message {
            id: new_uuid(),
            session_id,
            role: String::from_str(role),
            content: String::from_str(content),
            created_at: now(),
        }
    }
}

impl PendingApproval {
    /// A new, undecided proposed tool call of `session_id`, under a fresh
    /// identifier, created now.
    pub fn new_record(session_id: u128, tool_name: &str, args: JsonValue, description: &str) -> (a:
        PendingApproval)
        ensures
            is_v4_uuid(a.id),
            a.session_id == session_id,
            a.tool_name@ == tool_name@,
            a.args@ == args@,
            a.description@ == description@,
            a.approved is None,
    {
        PendingApproval {
            id: new_uuid(),
            session_id,
            tool_name: String::from_str(tool_name),
            args,
            description: String::from_str(description),
            approved: None,
            created_at: now(),
        }
    }
}

} // verus!
