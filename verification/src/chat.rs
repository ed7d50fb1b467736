//! Chat sessions: message histories, canned replies and tool approvals.

use vstd::prelude::*;
use std::collections::HashMap;
use crate::ids::{is_v4_uuid, new_uuid, now, Timestamp};
use crate::json::{JsonValue, JsonView, lemma_view_entries};
use crate::text::{concat_text, lowercase, seq_contains, str_contains, str_eq, to_lowercase};

verus! {

broadcast use vstd::std_specs::hash::group_hash_axioms;

/// One message of a conversation.
pub struct ChatMessage {
    pub id: u128,
    pub content: String,
    pub is_user: bool,
    pub timestamp: Timestamp,
}

/// The model of a [`ChatMessage`].
pub struct ChatMessageView {
    pub id: u128,
    pub content: Seq<char>,
    pub is_user: bool,
    pub timestamp: Timestamp,
}

impl View for ChatMessage {
    type V = ChatMessageView;

    open spec fn view(&self) -> ChatMessageView {
        ChatMessageView {
            id: self.id,
            content: self.content@,
            is_user: self.is_user,
            timestamp: self.timestamp,
        }
    }
}

impl ChatMessage {
    /// A copy of the message with the same model.
    pub fn duplicate(&self) -> (r: ChatMessage)
        ensures
            r@ == self@,
    {
        ChatMessage {
            id: self.id,
            content: self.content.clone(),
            is_user: self.is_user,
            timestamp: self.timestamp,
        }
    }
}

/// A tool call that waits for the user's approval.
pub struct ChatPendingApproval {
    pub id: u128,
    pub tool_name: String,
    pub tool_args: JsonValue,
    pub description: String,
}

/// One conversation of a workspace.
pub struct ChatSession {
    pub id: u128,
    pub workspace_id: u128,
    pub messages: Vec<ChatMessage>,
    pub pending_approvals: HashMap<u128, ChatPendingApproval>,
    pub auto_approve: bool,
}

/// The answer to a message.
pub struct ChatResponse {
    pub message_id: u128,
    pub ai_response: Option<String>,
    pub pending_approvals: Vec<ChatPendingApproval>,
}

/// Why a chat operation could not be carried out.
#[derive(Clone, Copy, Debug, PartialEq, Eq, Structural)]
pub enum ChatError {
    SessionNotFound,
}

impl ChatError {
    /// The text of the error.
    pub fn message(&self) -> (s: String)
        ensures
            s@ == "Session not found"@,
    {
        String::from_str("Session not found")
    }
}

/// The reply to a lower-cased message: a greeting for `hello`, an offer of file
/// operations for `file`, an offer of help with code for `code` (checked in that
/// order), and a general answer otherwise.
pub open spec fn reply_for_lowered(lowered: Seq<char>) -> Seq<char> {
    if seq_contains(lowered, "hello"@) {
        "Hello! I'm Gemini, how can I help you today?"@
    } else if seq_contains(lowered, "file"@) {
        "I can help you with file operations. What would you like to do?"@
    } else if seq_contains(lowered, "code"@) {
        "I'd be happy to help with your code. Please share what you're working on."@
    } else {
        "I understand. Let me help you with that."@
    }
}

/// The keywords of a lower-cased message decide its reply in a fixed order: any
/// message with `hello` is greeted; otherwise one with `file` gets the offer of file
/// operations, even when it also mentions `code`; otherwise one with `code` gets the
/// offer of help with code; anything else gets the general answer.
pub proof fn law_reply_keyword_order(lowered: Seq<char>)
    ensures
        seq_contains(lowered, "hello"@) ==> reply_for_lowered(lowered)
            == "Hello! I'm Gemini, how can I help you today?"@,
        !seq_contains(lowered, "hello"@) && seq_contains(lowered, "file"@) ==> reply_for_lowered(
            lowered,
        ) == "I can help you with file operations. What would you like to do?"@,
        !seq_contains(lowered, "hello"@) && !seq_contains(lowered, "file"@) && seq_contains(
            lowered,
            "code"@,
        ) ==> reply_for_lowered(lowered)
            == "I'd be happy to help with your code. Please share what you're working on."@,
        !seq_contains(lowered, "hello"@) && !seq_contains(lowered, "file"@) && !seq_contains(
            lowered,
            "code"@,
        ) ==> reply_for_lowered(lowered) == "I understand. Let me help you with that."@,
{
}

/// The reply to a message, chosen on its lower-cased text.
pub open spec fn reply_for(input: Seq<char>) -> Seq<char> {
    reply_for_lowered(lowercase(input))
}

/// The result text of running a tool.
pub open spec fn tool_result_for(tool_name: Seq<char>) -> Seq<char> {
    if tool_name == "edit_file"@ {
        "File edited successfully"@
    } else if tool_name == "run_command"@ {
        "Command executed successfully"@
    } else {
        "Tool executed successfully"@
    }
}

/// The text of the message that reports a tool's result.
pub open spec fn tool_report_for(tool_name: Seq<char>) -> Seq<char> {
    "Tool execution result: "@ + tool_result_for(tool_name)
}

/// The result of running a tool: a file edit reports the edited file, a command
/// reports the command run, any other tool a generic success; the stored report
/// prefixes that result with `Tool execution result: `.
pub proof fn law_tool_results(tool_name: Seq<char>)
    ensures
        tool_name == "edit_file"@ ==> tool_result_for(tool_name) == "File edited successfully"@,
        tool_name == "run_command"@ ==> tool_result_for(tool_name)
            == "Command executed successfully"@,
        tool_name != "edit_file"@ && tool_name != "run_command"@ ==> tool_result_for(tool_name)
            == "Tool executed successfully"@,
        tool_report_for(tool_name) == "Tool execution result: "@ + tool_result_for(tool_name),
{
    reveal_strlit("edit_file");
    reveal_strlit("run_command");
    assert("edit_file"@[0] != "run_command"@[0]);
    assert("edit_file"@ != "run_command"@);
}

/// The arguments of the file edit proposed for messages about files.
pub open spec fn edit_file_args() -> JsonView {
    JsonView::Object(
        seq![
            ("path"@, JsonView::Str("example.txt"@)),
            ("content"@, JsonView::Str("new content"@)),
        ],
    )
}

/// Whether a message leads to a proposed file edit: approvals are not automatic and
/// the message mentions `file`.
pub open spec fn proposes_edit(content: Seq<char>, auto_approve: bool) -> bool {
    !auto_approve && seq_contains(content, "file"@)
}

/// The models of a sequence of messages.
pub open spec fn views_of(messages: Seq<ChatMessage>) -> Seq<ChatMessageView> {
    messages.map_values(|m: ChatMessage| m@)
}

/// The reply to a lower-cased message (see [`reply_for_lowered`]).
pub fn reply_to_lowered(lowered: &str) -> (r: String)
    ensures
        r@ == reply_for_lowered(lowered@),
{
    if str_contains(lowered, "hello") {
        String::from_str("Hello! I'm Gemini, how can I help you today?")
    } else if str_contains(lowered, "file") {
        String::from_str("I can help you with file operations. What would you like to do?")
    } else if str_contains(lowered, "code") {
        String::from_str("I'd be happy to help with your code. Please share what you're working on.")
    } else {
        String::from_str("I understand. Let me help you with that.")
    }
}

/// The reply to a message (see [`reply_for`]).
pub fn simulate_ai_response(input: &str, auto_approve: bool) -> (r: String)
    ensures
        r@ == reply_for(input@),
{
    let lowered = to_lowercase(input);
    reply_to_lowered(lowered.as_str())
}

/// The result text of running the tool of an approval (see [`tool_result_for`]).
pub fn execute_tool(approval: &ChatPendingApproval) -> (r: String)
    ensures
        r@ == tool_result_for(approval.tool_name@),
{
    if str_eq(approval.tool_name.as_str(), "edit_file") {
        String::from_str("File edited successfully")
    } else if str_eq(approval.tool_name.as_str(), "run_command") {
        String::from_str("Command executed successfully")
    } else {
        String::from_str("Tool executed successfully")
    }
}

/// The proposed file edit, under a fresh identifier.
fn edit_file_approval() -> (a: ChatPendingApproval)
    ensures
        is_v4_uuid(a.id),
        a.tool_name@ == "edit_file"@,
        a.tool_args@ == edit_file_args(),
        a.description@ == "Edit file example.txt"@,
{
    let entries = vec![
        (String::from_str("path"), JsonValue::Str(String::from_str("example.txt"))),
        (String::from_str("content"), JsonValue::Str(String::from_str("new content"))),
    ];
    let args = JsonValue::Object(entries);
    proof {
        lemma_view_entries(entries@);
        assert(crate::json::view_entries(entries@) =~= seq![
            ("path"@, JsonView::Str("example.txt"@)),
            ("content"@, JsonView::Str("new content"@)),
        ]);
        assert(args@ == edit_file_args());
    }
    ChatPendingApproval {
        id: new_uuid(),
        tool_name: String::from_str("edit_file"),
        tool_args: args,
        description: String::from_str("Edit file example.txt"),
    }
}

/// A copy of a sequence of messages with the same models.
fn copy_messages(messages: &Vec<ChatMessage>) -> (r: Vec<ChatMessage>)
    ensures
        views_of(r@) == views_of(messages@),
{
    let mut out: Vec<ChatMessage> = Vec::new();
    let mut i: usize = 0;
    while i < messages.len()
        invariant
            i <= messages@.len(),
            out@.len() == i,
            forall|j: int| 0 <= j < i ==> (#[trigger] out@[j])@ == messages@[j]@,
        decreases messages@.len() - i,
    {
        let m = messages[i].duplicate();
        out.push(m);
        i = i + 1;
    }
    assert(views_of(out@) =~= views_of(messages@));
    out
}

/// With automatic approval on, a message never yields a proposed tool call that
/// waits for approval.
pub proof fn law_auto_approve_proposes_nothing(content: Seq<char>)
    ensures
        !proposes_edit(content, true),
{
}

/// Sending a message extends the session's history by exactly that message and the
/// reply, after everything it held before.
pub proof fn law_history_after_send(
    before: Seq<ChatMessage>,
    after: Seq<ChatMessage>,
    message: ChatMessage,
)
    requires
        after.len() == before.len() + 2,
        after.subrange(0, before.len() as int) == before,
        after[before.len() as int] == message,
    ensures
        views_of(after) == views_of(before) + seq![message@, after[before.len() + 1int]@],
{
    assert(views_of(after) =~= views_of(before) + seq![message@, after[before.len() + 1int]@]) by {
        assert forall|i: int| 0 <= i < before.len() implies after[i] == before[i] by {
            assert(after.subrange(0, before.len() as int)[i] == after[i]);
        }
    }
}

/// A new session has an empty history.
pub proof fn law_new_session_history_empty(messages: Seq<ChatMessage>)
    requires
        messages.len() == 0,
    ensures
        views_of(messages) == Seq::<ChatMessageView>::empty(),
{
    assert(views_of(messages) =~= Seq::<ChatMessageView>::empty());
}

/// Keeps the chat sessions.
pub struct ChatManager {
    sessions: HashMap<u128, ChatSession>,
}

impl ChatManager {
    /// The sessions, by identifier.
    pub closed spec fn sessions(&self) -> Map<u128, ChatSession> {
        self.sessions@
    }

    /// A manager without sessions.
    pub fn new() -> (m: ChatManager)
        ensures
            m.sessions() == Map::<u128, ChatSession>::empty(),
    {
        ChatManager { sessions: HashMap::new() }
    }

    /// Opens an empty session for `workspace_id` under a fresh identifier.
    pub fn create_session(&mut self, workspace_id: u128) -> (r: Result<u128, ChatError>)
        ensures
            r is Ok,
            r matches Ok(id) ==> {
                &&& is_v4_uuid(id)
                &&& final(self).sessions().dom() == old(self).sessions().dom().insert(id)
                &&& final(self).sessions().remove(id) == old(self).sessions().remove(id)
                &&& final(self).sessions()[id].id == id
                &&& final(self).sessions()[id].workspace_id == workspace_id
                &&& final(self).sessions()[id].messages@.len() == 0
                &&& final(self).sessions()[id].pending_approvals@ == Map::<
                    u128,
                    ChatPendingApproval,
                >::empty()
                &&& !final(self).sessions()[id].auto_approve
            },
    {
        let session_id = new_uuid();
        let session = ChatSession {
            id: session_id,
            workspace_id,
            messages: Vec::new(),
            pending_approvals: HashMap::new(),
            auto_approve: false,
        };
        self.sessions.insert(session_id, session);
        proof {
            assert(self.sessions@.remove(session_id) =~= old(self).sessions@.remove(session_id));
        }
        Ok(session_id)
    }

    /// Adds a user's message to a session, answers it, and records the answer.
    /// The session's auto-approval setting becomes `auto_approve`; a message that
    /// mentions `file` while approvals are not automatic yields one proposed edit.
    pub fn send_message(&mut self, session_id: u128, message: ChatMessage, auto_approve: bool) -> (r:
        Result<ChatResponse, ChatError>)
        ensures
            !old(self).sessions().contains_key(session_id) ==> {
                &&& r == Err::<ChatResponse, ChatError>(ChatError::SessionNotFound)
                &&& final(self).sessions() == old(self).sessions()
            },
            old(self).sessions().contains_key(session_id) ==> (r matches Ok(resp) && {
                let s0 = old(self).sessions()[session_id];
                let s1 = final(self).sessions()[session_id];
                let n = s0.messages@.len();
                &&& final(self).sessions().dom() == old(self).sessions().dom()
                &&& final(self).sessions().remove(session_id) == old(self).sessions().remove(
                    session_id,
                )
                &&& s1.id == s0.id
                &&& s1.workspace_id == s0.workspace_id
                &&& s1.pending_approvals == s0.pending_approvals
                &&& s1.auto_approve == auto_approve
                &&& s1.messages@.len() == n + 2
                &&& s1.messages@.subrange(0, n as int) == s0.messages@
                &&& s1.messages@[n as int] == message
                &&& s1.messages@[n + 1int].content@ == reply_for(message.content@)
                &&& !s1.messages@[n + 1int].is_user
                &&& is_v4_uuid(s1.messages@[n + 1int].id)
                &&& resp.message_id == message.id
                &&& resp.ai_response matches Some(text) && text@ == reply_for(message.content@)
                &&& resp.pending_approvals@.len() == (if proposes_edit(
                    message.content@,
                    auto_approve,
                ) {
                    1int
                } else {
                    0int
                })
                &&& proposes_edit(message.content@, auto_approve) ==> {
                    let a = resp.pending_approvals@[0];
                    &&& is_v4_uuid(a.id)
                    &&& a.tool_name@ == "edit_file"@
                    &&& a.tool_args@ == edit_file_args()
                    &&& a.description@ == "Edit file example.txt"@
                }
            }),
    {
        if !self.sessions.contains_key(&session_id) {
            return Err(ChatError::SessionNotFound);
        }
        let mut session = self.sessions.remove(&session_id).unwrap();
        let ghost s0 = session;
        let message_id = message.id;
        let about_files = str_contains(message.content.as_str(), "file");
        let ai_response = simulate_ai_response(message.content.as_str(), auto_approve);
        let ghost content = message.content@;
        session.messages.push(message);
        session.auto_approve = auto_approve;
        let ai_message = ChatMessage {
            id: new_uuid(),
            content: ai_response.clone(),
            is_user: false,
            timestamp: now(),
        };
        session.messages.push(ai_message);
        proof {
            assert(session.messages@.subrange(0, s0.messages@.len() as int) =~= s0.messages@);
        }
        self.sessions.insert(session_id, session);
        proof {
            assert(self.sessions@.remove(session_id) =~= old(self).sessions@.remove(session_id));
            assert(self.sessions@.dom() =~= old(self).sessions@.dom());
        }
        let mut pending_approvals: Vec<ChatPendingApproval> = Vec::new();
        if !auto_approve && about_files {
            pending_approvals.push(edit_file_approval());
        }
        Ok(ChatResponse { message_id, ai_response: Some(ai_response), pending_approvals })
    }

    /// Settles a pending tool approval of a session. An approved tool is run and
    /// its result reported as a message; `auto_approve_future`, when given, becomes
    /// the session's auto-approval setting. An approval the session does not hold
    /// changes nothing.
    pub fn handle_approval(
        &mut self,
        session_id: u128,
        approval_id: u128,
        approved: bool,
        auto_approve_future: Option<bool>,
    ) -> (r: Result<(), ChatError>)
        ensures
            !old(self).sessions().contains_key(session_id) ==> {
                &&& r == Err::<(), ChatError>(ChatError::SessionNotFound)
                &&& final(self).sessions() == old(self).sessions()
            },
            old(self).sessions().contains_key(session_id) ==> r is Ok,
            old(self).sessions().contains_key(session_id)
                && !old(self).sessions()[session_id].pending_approvals@.contains_key(approval_id)
                ==> final(self).sessions() == old(self).sessions(),
            old(self).sessions().contains_key(session_id)
                && old(self).sessions()[session_id].pending_approvals@.contains_key(approval_id)
                ==> {
                let s0 = old(self).sessions()[session_id];
                let s1 = final(self).sessions()[session_id];
                let a = s0.pending_approvals@[approval_id];
                &&& final(self).sessions().dom() == old(self).sessions().dom()
                &&& final(self).sessions().remove(session_id) == old(self).sessions().remove(
                    session_id,
                )
                &&& s1.id == s0.id
                &&& s1.workspace_id == s0.workspace_id
                &&& s1.pending_approvals@ == s0.pending_approvals@.remove(approval_id)
                &&& s1.auto_approve == match auto_approve_future {
                    Some(b) => b,
                    None => s0.auto_approve,
                }
                &&& approved ==> {
                    &&& s1.messages@.len() == s0.messages@.len() + 1
                    &&& s1.messages@.subrange(0, s0.messages@.len() as int) == s0.messages@
                    &&& s1.messages@.last().content@ == tool_report_for(a.tool_name@)
                    &&& !s1.messages@.last().is_user
                    &&& is_v4_uuid(s1.messages@.last().id)
                }
                &&& !approved ==> s1.messages == s0.messages
            },
    {
        match self.sessions.get(&session_id) {
            None => {
                return Err(ChatError::SessionNotFound);
            },
            Some(s) => {
                if !s.pending_approvals.contains_key(&approval_id) {
                    return Ok(());
                }
            },
        }
        let mut session = self.sessions.remove(&session_id).unwrap();
        let ghost s0 = session;
        let approval = session.pending_approvals.remove(&approval_id).unwrap();
        if approved {
            let result = execute_tool(&approval);
            let content = concat_text("Tool execution result: ", result.as_str());
            let result_message = ChatMessage {
                id: new_uuid(),
                content,
                is_user: false,
                timestamp: now(),
            };
            session.messages.push(result_message);
            proof {
                assert(session.messages@.subrange(0, s0.messages@.len() as int) =~= s0.messages@);
            }
        }
        match auto_approve_future {
            Some(b) => {
                session.auto_approve = b;
            },
            None => {},
        }
        self.sessions.insert(session_id, session);
        proof {
            assert(self.sessions@.remove(session_id) =~= old(self).sessions@.remove(session_id));
            assert(self.sessions@.dom() =~= old(self).sessions@.dom());
        }
        Ok(())
    }

    /// A copy of a session's messages, oldest first.
    pub fn get_session_history(&self, session_id: u128) -> (r: Result<Vec<ChatMessage>, ChatError>)
        ensures
            !self.sessions().contains_key(session_id) ==> r == Err::<Vec<ChatMessage>, ChatError>(
                ChatError::SessionNotFound,
            ),
            self.sessions().contains_key(session_id) ==> (r matches Ok(h) && views_of(h@)
                == views_of(self.sessions()[session_id].messages@)),
    {
        match self.sessions.get(&session_id) {
            Some(s) => Ok(copy_messages(&s.messages)),
            None => Err(ChatError::SessionNotFound),
        }
    }
}

} // verus!
