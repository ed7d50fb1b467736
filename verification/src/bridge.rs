//! The line protocol spoken with the helper process: the requests the service
//! sends and how it reads the replies.

use vstd::prelude::*;
use crate::ids::{is_v4_uuid, new_uuid, uuid_text, uuid_to_text};
use crate::json::{JsonValue, JsonView, lemma_view_entries, lemma_view_items, view_entries, view_items};
use crate::text::concat_text;

verus! {

/// One request to the helper process.
pub struct NodeRequest {
    pub id: String,
    pub method: String,
    pub params: JsonValue,
}

/// One reply of the helper process.
pub struct NodeResponse {
    pub id: String,
    pub success: bool,
    pub data: Option<JsonValue>,
    pub error: Option<String>,
}

/// The model's answer to a message, with the tool calls it asks to have approved.
pub struct BridgeResponse {
    pub response: String,
    pub pending_approvals: Vec<BridgePendingApproval>,
}

/// A tool call proposed by the model.
pub struct BridgePendingApproval {
    pub tool_name: String,
    pub args: JsonValue,
    pub description: String,
}

/// The model of a [`BridgePendingApproval`].
pub struct BridgePendingApprovalView {
    pub tool_name: Seq<char>,
    pub args: JsonView,
    pub description: Seq<char>,
}

impl View for BridgePendingApproval {
    type V = BridgePendingApprovalView;

    open spec fn view(&self) -> BridgePendingApprovalView {
        BridgePendingApprovalView {
            tool_name: self.tool_name@,
            args: self.args@,
            description: self.description@,
        }
    }
}

/// The result text of a tool run by the helper process.
pub struct ToolExecutionResult {
    pub result: String,
}

/// The operation a failed reply answered.
#[derive(Clone, Copy, Debug, PartialEq, Eq, Structural)]
pub enum BridgeOperation {
    CreateSession,
    SendMessage,
    ExecuteTool,
    ExecuteCommand,
}

/// Why a reply of the helper process does not give what was asked.
pub enum BridgeError {
    /// The reply reports failure, with the helper's error text when it sent one.
    Failed(BridgeOperation, Option<String>),
    /// A successful reply to a message carries no data.
    NoData,
}

/// The text `format!("{:?}", e)` gives for an optional error text.
pub uninterp spec fn debug_text(e: Option<Seq<char>>) -> Seq<char>;

/// The view of an optional string.
pub open spec fn opt_text(s: Option<String>) -> Option<Seq<char>> {
    match s {
        Some(x) => Some(x@),
        None => None,
    }
}

/// Formats an optional error text with its `Debug` impl (`None`, or `Some("…")` with
/// the text quoted and escaped). The contract only names the result: it is a
/// function of the optional text.
#[verifier::external_body]
fn debug_format(e: &Option<String>) -> (r: String)
    ensures
        r@ == debug_text(opt_text(*e)),
{
    format!("{:?}", e)
}

/// The lead-in of the message of a failed operation.
pub open spec fn failure_prefix(op: BridgeOperation) -> Seq<char> {
    match op {
        BridgeOperation::CreateSession => "Failed to create session: "@,
        BridgeOperation::SendMessage => "Failed to send message: "@,
        BridgeOperation::ExecuteTool => "Failed to execute tool: "@,
        BridgeOperation::ExecuteCommand => "Failed to execute command: "@,
    }
}

impl BridgeError {
    /// The text of the error.
    pub open spec fn spec_message(&self) -> Seq<char> {
        match self {
            BridgeError::Failed(op, e) => failure_prefix(*op) + debug_text(opt_text(*e)),
            BridgeError::NoData => "No data in response"@,
        }
    }

    /// The text of the error.
    pub fn message(&self) -> (s: String)
        ensures
            s@ == self.spec_message(),
    {
        match self {
            BridgeError::Failed(op, e) => {
                let detail = debug_format(e);
                let prefix = match op {
                    BridgeOperation::CreateSession => "Failed to create session: ",
                    BridgeOperation::SendMessage => "Failed to send message: ",
                    BridgeOperation::ExecuteTool => "Failed to execute tool: ",
                    BridgeOperation::ExecuteCommand => "Failed to execute command: ",
                };
                concat_text(prefix, detail.as_str())
            },
            BridgeError::NoData => String::from_str("No data in response"),
        }
    }
}

/// A JSON object with two members.
pub open spec fn object2(k1: Seq<char>, v1: JsonView, k2: Seq<char>, v2: JsonView) -> JsonView {
    JsonView::Object(seq![(k1, v1), (k2, v2)])
}

/// A JSON object with four members.
pub open spec fn object4(
    k1: Seq<char>,
    v1: JsonView,
    k2: Seq<char>,
    v2: JsonView,
    k3: Seq<char>,
    v3: JsonView,
    k4: Seq<char>,
    v4: JsonView,
) -> JsonView {
    JsonView::Object(seq![(k1, v1), (k2, v2), (k3, v3), (k4, v4)])
}

/// Builds a two-member object.
fn make_object2(k1: &str, v1: JsonValue, k2: &str, v2: JsonValue) -> (r: JsonValue)
    ensures
        r@ == object2(k1@, v1@, k2@, v2@),
{
    let entries = vec![(String::from_str(k1), v1), (String::from_str(k2), v2)];
    proof {
        lemma_view_entries(entries@);
        assert(view_entries(entries@) =~= seq![(k1@, v1@), (k2@, v2@)]);
    }
    JsonValue::Object(entries)
}

/// Builds a four-member object.
fn make_object4(
    k1: &str,
    v1: JsonValue,
    k2: &str,
    v2: JsonValue,
    k3: &str,
    v3: JsonValue,
    k4: &str,
    v4: JsonValue,
) -> (r: JsonValue)
    ensures
        r@ == object4(k1@, v1@, k2@, v2@, k3@, v3@, k4@, v4@),
{
    let entries = vec![
        (String::from_str(k1), v1),
        (String::from_str(k2), v2),
        (String::from_str(k3), v3),
        (String::from_str(k4), v4),
    ];
    proof {
        lemma_view_entries(entries@);
        assert(view_entries(entries@) =~= seq![(k1@, v1@), (k2@, v2@), (k3@, v3@), (k4@, v4@)]);
    }
    JsonValue::Object(entries)
}

/// The request that opens a session in the helper: it carries the session's
/// identifier as its own, the workspace path, and the authentication settings
/// (`null` when there are none).
pub fn create_session_request(session_id: &str, workspace_path: &str, auth_info: JsonValue) -> (r:
    NodeRequest)
    ensures
        r.id@ == session_id@,
        r.method@ == "create_session"@,
        r.params@ == object2(
            "workspace_path"@,
            JsonView::Str(workspace_path@),
            "auth_info"@,
            auth_info@,
        ),
{
    let params = make_object2(
        "workspace_path",
        JsonValue::Str(String::from_str(workspace_path)),
        "auth_info",
        auth_info,
    );
    NodeRequest {
        id: String::from_str(session_id),
        method: String::from_str("create_session"),
        params,
    }
}

/// The request that passes a user's message to the helper, under a fresh request
/// identifier.
pub fn send_message_request(session_id: &str, message: &str) -> (r: NodeRequest)
    ensures
        exists|rid: u128| is_v4_uuid(rid) && r.id@ == uuid_text(rid),
        r.method@ == "send_message"@,
        r.params@ == object2(
            "session_id"@,
            JsonView::Str(session_id@),
            "message"@,
            JsonView::Str(message@),
        ),
{
    let rid = new_uuid();
    let params = make_object2(
        "session_id",
        JsonValue::Str(String::from_str(session_id)),
        "message",
        JsonValue::Str(String::from_str(message)),
    );
    NodeRequest { id: uuid_to_text(rid), method: String::from_str("send_message"), params }
}

/// The request that runs a tool in the helper, under a fresh request identifier.
pub fn execute_tool_request(session_id: &str, tool_name: &str, args: JsonValue, approved: bool) -> (r:
    NodeRequest)
    ensures
        exists|rid: u128| is_v4_uuid(rid) && r.id@ == uuid_text(rid),
        r.method@ == "execute_tool"@,
        r.params@ == object4(
            "session_id"@,
            JsonView::Str(session_id@),
            "tool_name"@,
            JsonView::Str(tool_name@),
            "args"@,
            args@,
            "approved"@,
            JsonView::Bool(approved),
        ),
{
    let rid = new_uuid();
    let params = make_object4(
        "session_id",
        JsonValue::Str(String::from_str(session_id)),
        "tool_name",
        JsonValue::Str(String::from_str(tool_name)),
        "args",
        args,
        "approved",
        JsonValue::Bool(approved),
    );
    NodeRequest { id: uuid_to_text(rid), method: String::from_str("execute_tool"), params }
}

/// The request that runs a command line in a workspace through the helper, under a
/// fresh request identifier.
pub fn execute_command_request(command: &str, workspace_path: &str) -> (r: NodeRequest)
    ensures
        exists|rid: u128| is_v4_uuid(rid) && r.id@ == uuid_text(rid),
        r.method@ == "execute_command"@,
        r.params@ == object2(
            "command"@,
            JsonView::Str(command@),
            "workspace_path"@,
            JsonView::Str(workspace_path@),
        ),
{
    let rid = new_uuid();
    let params = make_object2(
        "command",
        JsonValue::Str(String::from_str(command)),
        "workspace_path",
        JsonValue::Str(String::from_str(workspace_path)),
    );
    NodeRequest { id: uuid_to_text(rid), method: String::from_str("execute_command"), params }
}

/// The failure of `op` a reply reports.
pub open spec fn failure_of(op: BridgeOperation, resp: NodeResponse) -> (BridgeOperation, Option<
    Seq<char>,
>) {
    (op, opt_text(resp.error))
}

/// Whether `e` is the failure of `op` that `resp` reports.
pub open spec fn is_failure(e: BridgeError, op: BridgeOperation, resp: NodeResponse) -> bool {
    e matches BridgeError::Failed(o, t) && o == op && opt_text(t) == opt_text(resp.error)
}

/// The text member `key` of a reply's data, or `default`.
pub open spec fn text_member(data: Option<JsonView>, key: Seq<char>, default: Seq<char>) -> Seq<
    char,
> {
    match data {
        Some(d) => match d.get_str(key) {
            Some(t) => t,
            None => default,
        },
        None => default,
    }
}

/// A proposed tool call read from one array item: it needs a text `tool_name`, an
/// `args` member of any kind, and a text `description`.
pub open spec fn approval_from(item: JsonView) -> Option<BridgePendingApprovalView> {
    match (item.get_str("tool_name"@), item.get("args"@), item.get_str("description"@)) {
        (Some(t), Some(a), Some(d)) => Some(
            BridgePendingApprovalView { tool_name: t, args: a, description: d },
        ),
        _ => None,
    }
}

/// The proposed tool calls read from array items, skipping items that are not
/// well-formed.
pub open spec fn approvals_from(items: Seq<JsonView>) -> Seq<BridgePendingApprovalView>
    decreases items.len(),
{
    if items.len() == 0 {
        Seq::empty()
    } else {
        let rest = approvals_from(items.drop_last());
        match approval_from(items.last()) {
            Some(a) => rest.push(a),
            None => rest,
        }
    }
}

/// Whether `a` is the proposal written in `item`: its text `tool_name`, its `args`
/// member and its text `description`.
pub open spec fn read_from(a: BridgePendingApprovalView, item: JsonView) -> bool {
    &&& item.get_str("tool_name"@) == Some(a.tool_name)
    &&& item.get("args"@) == Some(a.args)
    &&& item.get_str("description"@) == Some(a.description)
}

/// Whether `a` is the proposal written in one of `items`.
pub open spec fn read_from_some(a: BridgePendingApprovalView, items: Seq<JsonView>) -> bool {
    exists|i: int| #![trigger items[i]] 0 <= i < items.len() && read_from(a, items[i])
}

/// Every proposal read from the items is written, with its tool name, arguments and
/// description, in one of them; and an item that carries a text `tool_name`, an
/// `args` member and a text `description` is never skipped: when every item does,
/// one proposal is read per item, in order.
pub proof fn law_approvals_read_from_items(items: Seq<JsonView>)
    ensures
        forall|k: int|
            0 <= k < approvals_from(items).len() ==> read_from_some(
                #[trigger] approvals_from(items)[k],
                items,
            ),
        (forall|i: int|
            0 <= i < items.len() ==> (#[trigger] items[i]).get_str("tool_name"@) is Some
                && items[i].get("args"@) is Some && items[i].get_str("description"@) is Some) ==> {
            &&& approvals_from(items).len() == items.len()
            &&& forall|i: int|
                0 <= i < items.len() ==> read_from(#[trigger] approvals_from(items)[i], items[i])
        },
    decreases items.len(),
{
    if items.len() > 0 {
        let n = items.len() - 1;
        let prefix = items.drop_last();
        let rest = approvals_from(prefix);
        let all = approvals_from(items);
        law_approvals_read_from_items(prefix);
        assert forall|k: int| 0 <= k < all.len() implies read_from_some(#[trigger] all[k], items) by {
            if k < rest.len() {
                assert(read_from_some(rest[k], prefix));
                let i = choose|i: int| #![trigger prefix[i]] 0 <= i < prefix.len() && read_from(rest[k], prefix[i]);
                assert(all[k] == rest[k]);
                assert(prefix[i] == items[i]);
                assert(read_from(all[k], items[i]));
            } else {
                assert(items.last() == items[n]);
                assert(read_from(all[k], items[n]));
            }
        }
        if forall|i: int|
            0 <= i < items.len() ==> (#[trigger] items[i]).get_str("tool_name"@) is Some
                && items[i].get("args"@) is Some && items[i].get_str("description"@) is Some {
            assert forall|i: int| 0 <= i < prefix.len() implies (#[trigger] prefix[i]).get_str(
                "tool_name"@,
            ) is Some && prefix[i].get("args"@) is Some && prefix[i].get_str("description"@) is Some by {
                assert(prefix[i] == items[i]);
            }
            assert(items.last() == items[n]);
            assert(items[n].get_str("tool_name"@) is Some);
            assert forall|i: int| 0 <= i < items.len() implies read_from(
                #[trigger] all[i],
                items[i],
            ) by {
                if i < n {
                    assert(all[i] == rest[i]);
                    assert(prefix[i] == items[i]);
                }
            }
        }
    }
}

/// The proposed tool calls of a reply's data: those read from its
/// `pending_approvals` array, none when there is no such array.
pub open spec fn approvals_of(data: JsonView) -> Seq<BridgePendingApprovalView> {
    match data.get("pending_approvals"@) {
        Some(v) => match v.as_array() {
            Some(items) => approvals_from(items),
            None => Seq::empty(),
        },
        None => Seq::empty(),
    }
}

/// Reads a reply to a session opening: success, or the failure it reports.
pub fn create_session_outcome(resp: &NodeResponse) -> (r: Result<(), BridgeError>)
    ensures
        resp.success ==> r is Ok,
        !resp.success ==> (r matches Err(e) && is_failure(e, BridgeOperation::CreateSession, *resp)),
{
    if resp.success {
        Ok(())
    } else {
        Err(BridgeError::Failed(BridgeOperation::CreateSession, resp.error.clone()))
    }
}

/// A proposed tool call read from one item (see [`approval_from`]).
fn read_approval(item: &JsonValue) -> (r: Option<BridgePendingApproval>)
    ensures
        match r {
            Some(a) => approval_from(item@) == Some(a@),
            None => approval_from(item@) is None,
        },
{
    let tool_name = match item.get("tool_name") {
        Some(v) => match v.as_str() {
            Some(s) => s,
            None => {
                return None;
            },
        },
        None => {
            return None;
        },
    };
    let args = match item.get("args") {
        Some(v) => v,
        None => {
            return None;
        },
    };
    let description = match item.get("description") {
        Some(v) => match v.as_str() {
            Some(s) => s,
            None => {
                return None;
            },
        },
        None => {
            return None;
        },
    };
    Some(
        BridgePendingApproval {
            tool_name: tool_name.clone(),
            args: args.duplicate(),
            description: description.clone(),
        },
    )
}

/// The models of a sequence of proposed tool calls.
pub open spec fn approval_views(a: Seq<BridgePendingApproval>) -> Seq<BridgePendingApprovalView> {
    a.map_values(|x: BridgePendingApproval| x@)
}

/// The proposed tool calls read from array items (see [`approvals_from`]).
fn read_approvals(items: &Vec<JsonValue>) -> (r: Vec<BridgePendingApproval>)
    ensures
        approval_views(r@) == approvals_from(view_items(items@)),
{
    proof {
        lemma_view_items(items@);
    }
    let ghost vs = view_items(items@);
    let mut out: Vec<BridgePendingApproval> = Vec::new();
    let mut i: usize = 0;
    while i < items.len()
        invariant
            vs == view_items(items@),
            vs.len() == items@.len(),
            forall|j: int| 0 <= j < items@.len() ==> #[trigger] vs[j] == view_of_item(items@[j]),
            i <= items@.len(),
            approval_views(out@) == approvals_from(vs.subrange(0, i as int)),
        decreases items@.len() - i,
    {
        let a = read_approval(&items[i]);
        proof {
            assert(vs.subrange(0, i + 1).drop_last() =~= vs.subrange(0, i as int));
            assert(vs.subrange(0, i + 1).last() == items@[i as int]@);
        }
        match a {
            Some(a) => {
                out.push(a);
                assert(approval_views(out@) =~= approvals_from(vs.subrange(0, i + 1)));
            },
            None => {},
        }
        i = i + 1;
    }
    assert(vs.subrange(0, i as int) =~= vs);
    out
}

/// The model of one item (a name for `view_of` usable in triggers).
pub open spec fn view_of_item(v: JsonValue) -> JsonView {
    v@
}

/// Reads a reply to a message: the `response` text (by default `No response`) and
/// the proposed tool calls, or the failure it reports, or the absence of data.
pub fn send_message_outcome(resp: &NodeResponse) -> (r: Result<BridgeResponse, BridgeError>)
    ensures
        !resp.success ==> (r matches Err(e) && is_failure(e, BridgeOperation::SendMessage, *resp)),
        resp.success && resp.data is None ==> (r matches Err(BridgeError::NoData)),
        resp.success && resp.data is Some ==> (r matches Ok(b) && {
            let d = resp.data->0@;
            &&& b.response@ == text_member(Some(d), "response"@, "No response"@)
            &&& approval_views(b.pending_approvals@) == approvals_of(d)
        }),
{
    if !resp.success {
        return Err(BridgeError::Failed(BridgeOperation::SendMessage, resp.error.clone()));
    }
    let data = match &resp.data {
        Some(d) => d,
        None => {
            return Err(BridgeError::NoData);
        },
    };
    let response = match data.get("response") {
        Some(v) => match v.as_str() {
            Some(s) => s.clone(),
            None => String::from_str("No response"),
        },
        None => String::from_str("No response"),
    };
    let pending_approvals = match data.get("pending_approvals") {
        Some(v) => match v.as_array() {
            Some(items) => read_approvals(items),
            None => Vec::new(),
        },
        None => Vec::new(),
    };
    proof {
        assert(approval_views(Seq::<BridgePendingApproval>::empty()) =~= Seq::empty());
    }
    Ok(BridgeResponse { response, pending_approvals })
}

/// The text member `key` of an optional data value, or `default`.
fn read_text_member(data: &Option<JsonValue>, key: &str, default: &str) -> (r: String)
    ensures
        r@ == text_member(
            match data {
                Some(d) => Some(d@),
                None => None,
            },
            key@,
            default@,
        ),
{
    match data {
        Some(d) => match d.get(key) {
            Some(v) => match v.as_str() {
                Some(s) => s.clone(),
                None => String::from_str(default),
            },
            None => String::from_str(default),
        },
        None => String::from_str(default),
    }
}

/// The optional data of a reply, by its model.
pub open spec fn data_view(resp: NodeResponse) -> Option<JsonView> {
    match resp.data {
        Some(d) => Some(d@),
        None => None,
    }
}

/// Reads a reply to a tool run: the `result` text (by default `Tool executed`), or
/// the failure it reports.
pub fn execute_tool_outcome(resp: &NodeResponse) -> (r: Result<ToolExecutionResult, BridgeError>)
    ensures
        !resp.success ==> (r matches Err(e) && is_failure(e, BridgeOperation::ExecuteTool, *resp)),
        resp.success ==> (r matches Ok(t) && t.result@ == text_member(
            data_view(*resp),
            "result"@,
            "Tool executed"@,
        )),
{
    if !resp.success {
        return Err(BridgeError::Failed(BridgeOperation::ExecuteTool, resp.error.clone()));
    }
    Ok(ToolExecutionResult { result: read_text_member(&resp.data, "result", "Tool executed") })
}

/// Reads a reply to a command run: the `output` text (by default `Command
/// executed`), or the failure it reports.
pub fn execute_command_outcome(resp: &NodeResponse) -> (r: Result<String, BridgeError>)
    ensures
        !resp.success ==> (r matches Err(e) && is_failure(e, BridgeOperation::ExecuteCommand, *resp)),
        resp.success ==> (r matches Ok(t) && t@ == text_member(
            data_view(*resp),
            "output"@,
            "Command executed"@,
        )),
{
    if !resp.success {
        return Err(BridgeError::Failed(BridgeOperation::ExecuteCommand, resp.error.clone()));
    }
    Ok(read_text_member(&resp.data, "output", "Command executed"))
}

} // verus!
