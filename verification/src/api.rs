//! The decisions of the HTTP endpoints. Each endpoint alternates storage or helper
//! calls with decisions; the decisions are the step functions here, from the stage
//! an endpoint has reached and the outcome of the call it made to the next stage.

use vstd::prelude::*;
use crate::bridge::{BridgePendingApproval, BridgePendingApprovalView, BridgeResponse};
use crate::db::{Message, PendingApproval, Session};
use crate::ids::{is_v4_uuid, new_uuid};
use crate::json::{JsonValue, JsonView};
use crate::paths::{file_name, path_file_name};
use crate::text::concat_text;

verus! {

/// The error statuses the endpoints answer with.
#[derive(Clone, Copy, Debug, PartialEq, Eq, Structural)]
pub enum ApiStatus {
    BadRequest,
    Unauthorized,
    NotFound,
    InternalServerError,
}

impl ApiStatus {
    /// The HTTP status code.
    pub open spec fn spec_code(self) -> u16 {
        match self {
            ApiStatus::BadRequest => 400,
            ApiStatus::Unauthorized => 401,
            ApiStatus::NotFound => 404,
            ApiStatus::InternalServerError => 500,
        }
    }

    /// The HTTP status code.
    pub fn code(&self) -> (c: u16)
        ensures
            c == self.spec_code(),
    {
        match self {
            ApiStatus::BadRequest => 400,
            ApiStatus::Unauthorized => 401,
            ApiStatus::NotFound => 404,
            ApiStatus::InternalServerError => 500,
        }
    }
}

/// The outcome of looking up a record that may be absent.
pub enum Fetched<T> {
    Failed,
    Missing,
    Found(T),
}

/// The outcome of checking a request's credentials.
#[derive(Clone, Copy, Debug, PartialEq, Eq, Structural)]
pub enum AuthOutcome {
    Accepted,
    Rejected,
    Error,
}

/// Who a stored message is from.
#[derive(Clone, Copy, Debug, PartialEq, Eq, Structural)]
pub enum Role {
    User,
    Assistant,
}

impl Role {
    /// The text a message's role is stored as.
    pub open spec fn spec_text(self) -> Seq<char> {
        match self {
            Role::User => "user"@,
            Role::Assistant => "assistant"@,
        }
    }

    /// The text a message's role is stored as.
    pub fn text(&self) -> (s: String)
        ensures
            s@ == self.spec_text(),
    {
        match self {
            Role::User => String::from_str("user"),
            Role::Assistant => String::from_str("assistant"),
        }
    }
}

// ---------------------------------------------------------------- create session

/// The stages of opening a session.
#[derive(Clone, Copy, Debug, PartialEq, Eq)]
pub enum CreateSessionStep {
    /// Check the credentials that came with the request.
    ValidateAuth,
    /// Make sure the workspace directory exists (creating it if needed).
    EnsureDirectory,
    /// Store a new session record.
    CreateRecord,
    /// Open the session in the helper process.
    OpenBridgeSession(u128),
    /// Answer with the session's identifier, or an error status.
    Reply(Result<u128, ApiStatus>),
}

/// The outcomes of the calls made while opening a session.
#[derive(Clone, Copy, Debug, PartialEq, Eq)]
pub enum CreateSessionEvent {
    AuthChecked(AuthOutcome),
    DirectoryEnsured(bool),
    RecordCreated(Option<u128>),
    BridgeSessionOpened(bool),
}

/// The first stage of opening a session: the credentials, when the request
/// carries any, are checked before anything is made.
pub open spec fn create_session_first(has_auth: bool) -> CreateSessionStep {
    if has_auth {
        CreateSessionStep::ValidateAuth
    } else {
        CreateSessionStep::EnsureDirectory
    }
}

/// How a step of opening a session moves from `step` to `r` on `event`. Accepted
/// credentials lead to the directory, rejected ones are unauthorized; a directory
/// that could not be made is a bad request; any other failure is an internal
/// error; once the helper opened the session its identifier is the answer. An
/// outcome that does not belong to the stage leaves it unchanged.
pub open spec fn create_session_moves(
    step: CreateSessionStep,
    event: CreateSessionEvent,
    r: CreateSessionStep,
) -> bool {
    &&& (step is ValidateAuth ==> (event matches CreateSessionEvent::AuthChecked(o) ==> r == match o {
        AuthOutcome::Accepted => CreateSessionStep::EnsureDirectory,
        AuthOutcome::Rejected => CreateSessionStep::Reply(Err(ApiStatus::Unauthorized)),
        AuthOutcome::Error => CreateSessionStep::Reply(Err(ApiStatus::InternalServerError)),
    }))
    &&& (step is EnsureDirectory ==> (event matches CreateSessionEvent::DirectoryEnsured(ok) ==> r == if ok {
        CreateSessionStep::CreateRecord
    } else {
        CreateSessionStep::Reply(Err(ApiStatus::BadRequest))
    }))
    &&& (step is CreateRecord ==> (event matches CreateSessionEvent::RecordCreated(created) ==> r
        == match created {
        Some(id) => CreateSessionStep::OpenBridgeSession(id),
        None => CreateSessionStep::Reply(Err(ApiStatus::InternalServerError)),
    }))
    &&& (step matches CreateSessionStep::OpenBridgeSession(id) ==> (
    event matches CreateSessionEvent::BridgeSessionOpened(ok) ==> r == if ok {
        CreateSessionStep::Reply(Ok(id))
    } else {
        CreateSessionStep::Reply(Err(ApiStatus::InternalServerError))
    }))
    &&& (!(step is ValidateAuth && event is AuthChecked) && !(step is EnsureDirectory
        && event is DirectoryEnsured) && !(step is CreateRecord && event is RecordCreated) && !(
    step is OpenBridgeSession && event is BridgeSessionOpened) ==> r == step)
}

/// The first stage of opening a session (see [`create_session_first`]).
pub fn create_session_start(has_auth: bool) -> (r: CreateSessionStep)
    ensures
        r == create_session_first(has_auth),
{
    if has_auth {
        CreateSessionStep::ValidateAuth
    } else {
        CreateSessionStep::EnsureDirectory
    }
}

/// The stage after `event` (see [`create_session_moves`]).
pub fn create_session_step(step: CreateSessionStep, event: CreateSessionEvent) -> (r: CreateSessionStep)
    ensures
        create_session_moves(step, event, r),
{
    match (step, event) {
        (CreateSessionStep::ValidateAuth, CreateSessionEvent::AuthChecked(o)) => match o {
            AuthOutcome::Accepted => CreateSessionStep::EnsureDirectory,
            AuthOutcome::Rejected => CreateSessionStep::Reply(Err(ApiStatus::Unauthorized)),
            AuthOutcome::Error => CreateSessionStep::Reply(Err(ApiStatus::InternalServerError)),
        },
        (CreateSessionStep::EnsureDirectory, CreateSessionEvent::DirectoryEnsured(ok)) => {
            if ok {
                CreateSessionStep::CreateRecord
            } else {
                CreateSessionStep::Reply(Err(ApiStatus::BadRequest))
            }
        },
        (CreateSessionStep::CreateRecord, CreateSessionEvent::RecordCreated(created)) => match created {
            Some(id) => CreateSessionStep::OpenBridgeSession(id),
            None => CreateSessionStep::Reply(Err(ApiStatus::InternalServerError)),
        },
        (CreateSessionStep::OpenBridgeSession(id), CreateSessionEvent::BridgeSessionOpened(ok)) => {
            if ok {
                CreateSessionStep::Reply(Ok(id))
            } else {
                CreateSessionStep::Reply(Err(ApiStatus::InternalServerError))
            }
        },
        _ => step,
    }
}

/// `steps` are the stages a run of opening a session passes through on `events`.
pub open spec fn create_session_trace(steps: Seq<CreateSessionStep>, events: Seq<CreateSessionEvent>) -> bool {
    &&& steps.len() == events.len() + 1
    &&& forall|i: int|
        0 <= i < events.len() ==> create_session_moves(#[trigger] steps[i], events[i], steps[i + 1])
}

/// Whether `e` is among the first `n` outcomes.
pub open spec fn happened(events: Seq<CreateSessionEvent>, n: int, e: CreateSessionEvent) -> bool {
    exists|j: int| 0 <= j < n && j < events.len() && #[trigger] events[j] == e
}

/// What a run has seen by the time it reaches `step` after `n` outcomes.
pub open spec fn create_session_progress(
    has_auth: bool,
    step: CreateSessionStep,
    events: Seq<CreateSessionEvent>,
    n: int,
) -> bool {
    let accepted = has_auth ==> happened(
        events,
        n,
        CreateSessionEvent::AuthChecked(AuthOutcome::Accepted),
    );
    let directory = happened(events, n, CreateSessionEvent::DirectoryEnsured(true));
    match step {
        CreateSessionStep::ValidateAuth => has_auth,
        CreateSessionStep::EnsureDirectory => accepted,
        CreateSessionStep::CreateRecord => accepted && directory,
        CreateSessionStep::OpenBridgeSession(id) => accepted && directory && happened(
            events,
            n,
            CreateSessionEvent::RecordCreated(Some(id)),
        ),
        CreateSessionStep::Reply(Ok(id)) => accepted && directory && happened(
            events,
            n,
            CreateSessionEvent::RecordCreated(Some(id)),
        ) && happened(events, n, CreateSessionEvent::BridgeSessionOpened(true)),
        CreateSessionStep::Reply(Err(_)) => true,
    }
}

proof fn lemma_happened_later(events: Seq<CreateSessionEvent>, n: int, m: int, e: CreateSessionEvent)
    requires
        happened(events, n, e),
        n <= m,
    ensures
        happened(events, m, e),
{
    let j = choose|j: int| 0 <= j < n && j < events.len() && #[trigger] events[j] == e;
    assert(events[j] == e);
}

proof fn lemma_create_session_progress(
    has_auth: bool,
    steps: Seq<CreateSessionStep>,
    events: Seq<CreateSessionEvent>,
    k: int,
)
    requires
        create_session_trace(steps, events),
        steps[0] == create_session_first(has_auth),
        0 <= k < steps.len(),
    ensures
        create_session_progress(has_auth, steps[k], events, k),
    decreases k,
{
    if k > 0 {
        let p = k - 1;
        lemma_create_session_progress(has_auth, steps, events, p);
        assert(create_session_moves(steps[p], events[p], steps[k]));
        let acc = CreateSessionEvent::AuthChecked(AuthOutcome::Accepted);
        let dir = CreateSessionEvent::DirectoryEnsured(true);
        assert(events[p] == events[p]);
        if happened(events, p, acc) {
            lemma_happened_later(events, p, k, acc);
        }
        if happened(events, p, dir) {
            lemma_happened_later(events, p, k, dir);
        }
        match steps[p] {
            CreateSessionStep::OpenBridgeSession(id) => {
                lemma_happened_later(events, p, k, CreateSessionEvent::RecordCreated(Some(id)));
            },
            CreateSessionStep::Reply(Ok(id)) => {
                lemma_happened_later(events, p, k, CreateSessionEvent::RecordCreated(Some(id)));
                lemma_happened_later(events, p, k, CreateSessionEvent::BridgeSessionOpened(true));
            },
            _ => {},
        }
    }
}

/// A session is reported as opened only after the credentials that came with the
/// request (if any) were accepted, its directory was ready, the record was stored
/// under the reported identifier, and the helper opened it.
pub proof fn law_session_opened_only_after_all_checks(
    has_auth: bool,
    steps: Seq<CreateSessionStep>,
    events: Seq<CreateSessionEvent>,
    k: int,
    id: u128,
)
    requires
        create_session_trace(steps, events),
        steps[0] == create_session_first(has_auth),
        0 <= k < steps.len(),
        steps[k] == CreateSessionStep::Reply(Ok(id)),
    ensures
        has_auth ==> happened(events, k, CreateSessionEvent::AuthChecked(AuthOutcome::Accepted)),
        happened(events, k, CreateSessionEvent::DirectoryEnsured(true)),
        happened(events, k, CreateSessionEvent::RecordCreated(Some(id))),
        happened(events, k, CreateSessionEvent::BridgeSessionOpened(true)),
{
    lemma_create_session_progress(has_auth, steps, events, k);
}

/// Credentials are validated before anything is done for the request: a run that
/// carries credentials reaches the directory (or any later stage) only after they
/// were accepted, so rejected credentials never make a directory.
pub proof fn law_credentials_checked_before_directory(
    steps: Seq<CreateSessionStep>,
    events: Seq<CreateSessionEvent>,
    k: int,
)
    requires
        create_session_trace(steps, events),
        steps[0] == create_session_first(true),
        0 <= k < steps.len(),
        steps[k] is EnsureDirectory || steps[k] is CreateRecord || steps[k] is OpenBridgeSession,
    ensures
        happened(events, k, CreateSessionEvent::AuthChecked(AuthOutcome::Accepted)),
{
    lemma_create_session_progress(true, steps, events, k);
}

// ---------------------------------------------------------------- send message

/// A proposed tool call as the endpoints report it.
pub struct ApiPendingApproval {
    pub id: u128,
    pub tool_name: String,
    pub args: JsonValue,
    pub description: String,
}

/// The model of an [`ApiPendingApproval`].
pub struct ApiPendingApprovalView {
    pub id: u128,
    pub tool_name: Seq<char>,
    pub args: JsonView,
    pub description: Seq<char>,
}

impl View for ApiPendingApproval {
    type V = ApiPendingApprovalView;

    open spec fn view(&self) -> ApiPendingApprovalView {
        ApiPendingApprovalView {
            id: self.id,
            tool_name: self.tool_name@,
            args: self.args@,
            description: self.description@,
        }
    }
}

/// The models of a sequence of reported tool calls.
pub open spec fn api_views(a: Seq<ApiPendingApproval>) -> Seq<ApiPendingApprovalView> {
    a.map_values(|x: ApiPendingApproval| x@)
}

/// The answer to a message.
pub struct SendMessageResponse {
    pub message_id: u128,
    pub response: String,
    pub pending_approvals: Vec<ApiPendingApproval>,
}

/// The proposed tool calls that were stored, with the identifiers they were stored
/// under: the `i`-th proposal is kept when `ids[i]` holds an identifier.
pub open spec fn stored_approvals_spec(
    proposals: Seq<BridgePendingApprovalView>,
    ids: Seq<Option<u128>>,
) -> Seq<ApiPendingApprovalView>
    decreases proposals.len(),
{
    if proposals.len() == 0 {
        Seq::empty()
    } else {
        let i = proposals.len() - 1;
        let rest = stored_approvals_spec(proposals.drop_last(), ids);
        if i < ids.len() && ids[i] is Some {
            rest.push(
                ApiPendingApprovalView {
                    id: ids[i]->0,
                    tool_name: proposals[i].tool_name,
                    args: proposals[i].args,
                    description: proposals[i].description,
                },
            )
        } else {
            rest
        }
    }
}

/// Whether `r` reports proposal `p` stored under `id`: the stored identifier, and
/// the proposal's tool name, arguments and description.
pub open spec fn reports_stored(r: ApiPendingApprovalView, p: BridgePendingApprovalView, id: Option<u128>) -> bool {
    &&& id == Some(r.id)
    &&& r.tool_name == p.tool_name
    &&& r.args == p.args
    &&& r.description == p.description
}

/// Whether `r` reports one of `proposals` with the identifier it was stored under.
pub open spec fn reports_some_proposal(
    r: ApiPendingApprovalView,
    proposals: Seq<BridgePendingApprovalView>,
    ids: Seq<Option<u128>>,
) -> bool {
    exists|i: int|
        #![trigger proposals[i]]
        0 <= i < proposals.len() && i < ids.len() && reports_stored(r, proposals[i], ids[i])
}

/// Every proposal reported as stored is one of the helper's proposals, reported
/// with the identifier it was stored under and with its tool name, arguments and
/// description; when every proposal was stored, all are reported, in order.
pub proof fn law_stored_approvals_carry_proposals(
    proposals: Seq<BridgePendingApprovalView>,
    ids: Seq<Option<u128>>,
)
    ensures
        forall|k: int|
            0 <= k < stored_approvals_spec(proposals, ids).len() ==> reports_some_proposal(
                #[trigger] stored_approvals_spec(proposals, ids)[k],
                proposals,
                ids,
            ),
        ids.len() >= proposals.len() && (forall|i: int| 0 <= i < proposals.len() ==> #[trigger] ids[i] is Some)
            ==> {
            &&& stored_approvals_spec(proposals, ids).len() == proposals.len()
            &&& forall|i: int|
                0 <= i < proposals.len() ==> reports_stored(
                    #[trigger] stored_approvals_spec(proposals, ids)[i],
                    proposals[i],
                    ids[i],
                )
        },
    decreases proposals.len(),
{
    if proposals.len() > 0 {
        let n = proposals.len() - 1;
        let prefix = proposals.drop_last();
        let rest = stored_approvals_spec(prefix, ids);
        let all = stored_approvals_spec(proposals, ids);
        law_stored_approvals_carry_proposals(prefix, ids);
        assert forall|k: int| 0 <= k < all.len() implies reports_some_proposal(
            #[trigger] all[k],
            proposals,
            ids,
        ) by {
            if k < rest.len() {
                assert(reports_some_proposal(rest[k], prefix, ids));
                let i = choose|i: int|
                    #![trigger prefix[i]]
                    0 <= i < prefix.len() && i < ids.len() && reports_stored(
                        rest[k],
                        prefix[i],
                        ids[i],
                    );
                assert(all[k] == rest[k]);
                assert(prefix[i] == proposals[i]);
                assert(reports_stored(all[k], proposals[i], ids[i]));
            } else {
                assert(reports_stored(all[k], proposals[n], ids[n]));
            }
        }
        if ids.len() >= proposals.len() && (forall|i: int|
            0 <= i < proposals.len() ==> #[trigger] ids[i] is Some) {
            assert forall|i: int| 0 <= i < prefix.len() implies #[trigger] ids[i] is Some by {
                assert(ids[i] is Some);
            }
            assert(ids[n] is Some);
            assert forall|i: int| 0 <= i < proposals.len() implies reports_stored(
                #[trigger] all[i],
                proposals[i],
                ids[i],
            ) by {
                if i < n {
                    assert(all[i] == rest[i]);
                    assert(prefix[i] == proposals[i]);
                }
            }
        }
    }
}

/// The models of a sequence of proposed tool calls.
pub open spec fn proposal_views(a: Seq<BridgePendingApproval>) -> Seq<BridgePendingApprovalView> {
    a.map_values(|x: BridgePendingApproval| x@)
}

/// The proposed tool calls that were stored (see [`stored_approvals_spec`]).
pub fn stored_approvals(proposals: &Vec<BridgePendingApproval>, ids: &Vec<Option<u128>>) -> (r: Vec<
    ApiPendingApproval,
>)
    ensures
        api_views(r@) == stored_approvals_spec(proposal_views(proposals@), ids@),
{
    let ghost pv = proposal_views(proposals@);
    let mut out: Vec<ApiPendingApproval> = Vec::new();
    let mut i: usize = 0;
    while i < proposals.len()
        invariant
            pv == proposal_views(proposals@),
            i <= proposals@.len(),
            api_views(out@) == stored_approvals_spec(pv.subrange(0, i as int), ids@),
        decreases proposals@.len() - i,
    {
        proof {
            assert(pv.subrange(0, i + 1).drop_last() =~= pv.subrange(0, i as int));
            assert(pv.subrange(0, i + 1)[i as int] == proposals@[i as int]@);
        }
        if i < ids.len() {
            match ids[i] {
                Some(id) => {
                    let p = &proposals[i];
                    out.push(
                        ApiPendingApproval {
                            id,
                            tool_name: p.tool_name.clone(),
                            args: p.args.duplicate(),
                            description: p.description.clone(),
                        },
                    );
                    assert(api_views(out@) =~= stored_approvals_spec(pv.subrange(0, i + 1), ids@));
                },
                None => {},
            }
        }
        i = i + 1;
    }
    assert(pv.subrange(0, i as int) =~= pv);
    out
}

/// The stages of answering a message.
pub enum SendMessageStep {
    /// Check that the session exists; `message` is the user's text.
    CheckSession { message: String },
    /// Store the user's message as `content` under `role`.
    StoreUserMessage { role: Role, content: String },
    /// Pass the message to the helper process.
    AskBridge { message: String },
    /// Store the answer's text as a message under `role`, and each proposed tool
    /// call as a pending approval (failures there are logged, not answered).
    StoreResults { answer: BridgeResponse, role: Role },
    /// Answer, or report an error status.
    Reply(Result<SendMessageResponse, ApiStatus>),
}

/// Whether an existence check found the record.
#[derive(Clone, Copy, Debug, PartialEq, Eq, Structural)]
pub enum Lookup {
    Failed,
    Missing,
    Found,
}

/// The outcomes of the calls made while answering a message.
pub enum SendMessageEvent {
    SessionChecked(Lookup),
    UserMessageStored(bool),
    BridgeAnswered(Option<BridgeResponse>),
    /// The identifiers the proposed tool calls were stored under, in order; `None`
    /// for one that could not be stored.
    ResultsStored(Vec<Option<u128>>),
}

/// The first stage of answering `message`.
pub fn send_message_start(message: String) -> (r: SendMessageStep)
    ensures
        r == (SendMessageStep::CheckSession { message }),
{
    SendMessageStep::CheckSession { message }
}

/// The stage after `event`. A missing session is not found; any failed call before
/// the answer is an internal error; the user's text is stored as a `user` message
/// and then passed to the helper; the helper's text is stored as an `assistant`
/// message; the answer carries a fresh message identifier, the helper's text and
/// the proposed tool calls that were stored. An outcome that does not belong to the
/// stage leaves it unchanged.
pub fn send_message_step(step: SendMessageStep, event: SendMessageEvent) -> (r: SendMessageStep)
    ensures
        step matches SendMessageStep::CheckSession { message } ==> (
        event matches SendMessageEvent::SessionChecked(l) ==> match l {
            Lookup::Failed => r matches SendMessageStep::Reply(Err(ApiStatus::InternalServerError)),
            Lookup::Missing => r matches SendMessageStep::Reply(Err(ApiStatus::NotFound)),
            Lookup::Found => r == (SendMessageStep::StoreUserMessage {
                role: Role::User,
                content: message,
            }),
        }),
        step matches SendMessageStep::StoreUserMessage { role, content } ==> (
        event matches SendMessageEvent::UserMessageStored(ok) ==> if ok {
            r == (SendMessageStep::AskBridge { message: content })
        } else {
            r matches SendMessageStep::Reply(Err(ApiStatus::InternalServerError))
        }),
        step is AskBridge ==> (event matches SendMessageEvent::BridgeAnswered(a) ==> match a {
            Some(b) => r == (SendMessageStep::StoreResults { answer: b, role: Role::Assistant }),
            None => r matches SendMessageStep::Reply(Err(ApiStatus::InternalServerError)),
        }),
        step matches SendMessageStep::StoreResults { answer: b, role } ==> (
        event matches SendMessageEvent::ResultsStored(ids) ==> (r matches SendMessageStep::Reply(
            Ok(resp),
        ) && {
            &&& is_v4_uuid(resp.message_id)
            &&& resp.response@ == b.response@
            &&& api_views(resp.pending_approvals@) == stored_approvals_spec(
                proposal_views(b.pending_approvals@),
                ids@,
            )
        })),
        !(step is CheckSession && event is SessionChecked) && !(step is StoreUserMessage
            && event is UserMessageStored) && !(step is AskBridge && event is BridgeAnswered)
            && !(step is StoreResults && event is ResultsStored) ==> r == step,
{
    match step {
        SendMessageStep::CheckSession { message } => match event {
            SendMessageEvent::SessionChecked(l) => match l {
                Lookup::Failed => SendMessageStep::Reply(Err(ApiStatus::InternalServerError)),
                Lookup::Missing => SendMessageStep::Reply(Err(ApiStatus::NotFound)),
                Lookup::Found => SendMessageStep::StoreUserMessage { role: Role::User, content: message },
            },
            _ => SendMessageStep::CheckSession { message },
        },
        SendMessageStep::StoreUserMessage { role, content } => match event {
            SendMessageEvent::UserMessageStored(ok) => if ok {
                SendMessageStep::AskBridge { message: content }
            } else {
                SendMessageStep::Reply(Err(ApiStatus::InternalServerError))
            },
            _ => SendMessageStep::StoreUserMessage { role, content },
        },
        SendMessageStep::AskBridge { message } => match event {
            SendMessageEvent::BridgeAnswered(a) => match a {
                Some(b) => SendMessageStep::StoreResults { answer: b, role: Role::Assistant },
                None => SendMessageStep::Reply(Err(ApiStatus::InternalServerError)),
            },
            _ => SendMessageStep::AskBridge { message },
        },
        SendMessageStep::StoreResults { answer, role } => match event {
            SendMessageEvent::ResultsStored(ids) => {
                let approvals = stored_approvals(&answer.pending_approvals, &ids);
                SendMessageStep::Reply(
                    Ok(
                        SendMessageResponse {
                            message_id: new_uuid(),
                            response: answer.response,
                            pending_approvals: approvals,
                        },
                    ),
                )
            },
            _ => SendMessageStep::StoreResults { answer, role },
        },
        SendMessageStep::Reply(_) => step,
    }
}

// ---------------------------------------------------------------- approve tool

/// The stages of deciding a proposed tool call.
pub enum ApproveToolStep {
    /// Look up the proposal.
    FetchApproval { session_id: u128, approved: bool },
    /// Record the decision on it.
    RecordDecision { approval: PendingApproval, approved: bool },
    /// Run the approved tool through the helper process.
    RunTool(PendingApproval),
    /// Store the report of the tool's result as a message under `role` (a failure
    /// is logged, not answered).
    StoreResult { role: Role, report: String, result: String },
    /// Answer with the result text, or report an error status.
    Reply(Result<String, ApiStatus>),
}

/// The outcomes of the calls made while deciding a proposed tool call.
pub enum ApproveToolEvent {
    ApprovalFetched(Fetched<PendingApproval>),
    DecisionRecorded(bool),
    /// The tool's result text, or nothing when it could not be run.
    ToolRan(Option<String>),
    ResultStored,
}

/// The text stored after a tool ran.
pub open spec fn tool_report(tool_name: Seq<char>, result: Seq<char>) -> Seq<char> {
    "Tool '"@ + tool_name + "' executed successfully: "@ + result
}

/// The answer to a rejected tool call.
pub open spec fn rejection_text() -> Seq<char> {
    "Tool execution rejected"@
}

/// The first stage of deciding proposal of `session_id`.
pub fn approve_tool_start(session_id: u128, approved: bool) -> (r: ApproveToolStep)
    ensures
        r matches ApproveToolStep::FetchApproval { session_id: s, approved: a } && s == session_id
            && a == approved,
{
    ApproveToolStep::FetchApproval { session_id, approved }
}

/// How a step of deciding a proposed tool call moves from `step` to `next` on
/// `event`. A proposal of another session is a bad request and is left undecided; a
/// rejected proposal is answered without running the tool; an approved one is run
/// and its result stored and answered. An outcome that does not belong to the stage
/// leaves it unchanged.
pub open spec fn approve_tool_moves(step: ApproveToolStep, event: ApproveToolEvent, r: ApproveToolStep) -> bool {
    &&& (step matches ApproveToolStep::FetchApproval { session_id, approved } ==> (
        event matches ApproveToolEvent::ApprovalFetched(f) ==> match f {
            Fetched::Failed => r matches ApproveToolStep::Reply(Err(ApiStatus::InternalServerError)),
            Fetched::Missing => r matches ApproveToolStep::Reply(Err(ApiStatus::NotFound)),
            Fetched::Found(a) => if a.session_id != session_id {
                r matches ApproveToolStep::Reply(Err(ApiStatus::BadRequest))
            } else {
                r == (ApproveToolStep::RecordDecision { approval: a, approved })
            },
        }))
    &&& (step matches ApproveToolStep::RecordDecision { approval, approved } ==> (
        event matches ApproveToolEvent::DecisionRecorded(ok) ==> if !ok {
            r matches ApproveToolStep::Reply(Err(ApiStatus::InternalServerError))
        } else if approved {
            r == ApproveToolStep::RunTool(approval)
        } else {
            r matches ApproveToolStep::Reply(Ok(t)) && t@ == rejection_text()
        }))
    &&& (step matches ApproveToolStep::RunTool(approval) ==> (
        event matches ApproveToolEvent::ToolRan(o) ==> match o {
            Some(res) => r matches ApproveToolStep::StoreResult { role, report, result } && role
                == Role::Assistant && report@ == tool_report(approval.tool_name@, res@) && result@
                == res@,
            None => r matches ApproveToolStep::Reply(Err(ApiStatus::InternalServerError)),
        }))
    &&& (step matches ApproveToolStep::StoreResult { result, .. } ==> (event is ResultStored ==> (
        r matches ApproveToolStep::Reply(Ok(t)) && t@ == result@)))
    &&& (!(step is FetchApproval && event is ApprovalFetched) && !(step is RecordDecision
            && event is DecisionRecorded) && !(step is RunTool && event is ToolRan)
            && !(step is StoreResult && event is ResultStored) ==> r == step)
}

/// The stage after `event` (see [`approve_tool_moves`]).
pub fn approve_tool_step(step: ApproveToolStep, event: ApproveToolEvent) -> (r: ApproveToolStep)
    ensures
        approve_tool_moves(step, event, r),
{
    match step {
        ApproveToolStep::FetchApproval { session_id, approved } => match event {
            ApproveToolEvent::ApprovalFetched(f) => match f {
                Fetched::Failed => ApproveToolStep::Reply(Err(ApiStatus::InternalServerError)),
                Fetched::Missing => ApproveToolStep::Reply(Err(ApiStatus::NotFound)),
                Fetched::Found(a) => if a.session_id != session_id {
                    ApproveToolStep::Reply(Err(ApiStatus::BadRequest))
                } else {
                    ApproveToolStep::RecordDecision { approval: a, approved }
                },
            },
            _ => step,
        },
        ApproveToolStep::RecordDecision { approval, approved } => match event {
            ApproveToolEvent::DecisionRecorded(ok) => if !ok {
                ApproveToolStep::Reply(Err(ApiStatus::InternalServerError))
            } else if approved {
                ApproveToolStep::RunTool(approval)
            } else {
                ApproveToolStep::Reply(Ok(String::from_str("Tool execution rejected")))
            },
            _ => ApproveToolStep::RecordDecision { approval, approved },
        },
        ApproveToolStep::RunTool(approval) => match event {
            ApproveToolEvent::ToolRan(o) => match o {
                Some(result) => {
                    let a = concat_text("Tool '", approval.tool_name.as_str());
                    let b = concat_text(a.as_str(), "' executed successfully: ");
                    let report = concat_text(b.as_str(), result.as_str());
                    ApproveToolStep::StoreResult { role: Role::Assistant, report, result }
                },
                None => ApproveToolStep::Reply(Err(ApiStatus::InternalServerError)),
            },
            _ => ApproveToolStep::RunTool(approval),
        },
        ApproveToolStep::StoreResult { role, report, result } => match event {
            ApproveToolEvent::ResultStored => ApproveToolStep::Reply(Ok(result)),
            _ => ApproveToolStep::StoreResult { role, report, result },
        },
        ApproveToolStep::Reply(_) => step,
    }
}


/// `steps` are the stages a run of the endpoint passes through on `events`.
pub open spec fn approve_tool_trace(steps: Seq<ApproveToolStep>, events: Seq<ApproveToolEvent>) -> bool {
    &&& steps.len() == events.len() + 1
    &&& forall|i: int|
        0 <= i < events.len() ==> approve_tool_moves(#[trigger] steps[i], events[i], steps[i + 1])
}

/// A stage stays with the session and the decision the request named.
pub open spec fn keeps_request(step: ApproveToolStep, session_id: u128, approved: bool) -> bool {
    match step {
        ApproveToolStep::FetchApproval { session_id: s, approved: a } => s == session_id && a
            == approved,
        ApproveToolStep::RecordDecision { approval, approved: a } => approval.session_id
            == session_id && a == approved,
        ApproveToolStep::RunTool(approval) => approval.session_id == session_id && approved,
        _ => true,
    }
}

proof fn lemma_trace_keeps_request(
    steps: Seq<ApproveToolStep>,
    events: Seq<ApproveToolEvent>,
    session_id: u128,
    approved: bool,
    k: int,
)
    requires
        approve_tool_trace(steps, events),
        keeps_request(steps[0], session_id, approved),
        0 <= k < steps.len(),
    ensures
        keeps_request(steps[k], session_id, approved),
    decreases k,
{
    if k > 0 {
        lemma_trace_keeps_request(steps, events, session_id, approved, k - 1);
        assert(approve_tool_moves(steps[k - 1], events[k - 1], steps[k]));
    }
}

/// A tool is run only for a proposal of the session the request names, and only
/// when the request approved it: rejected or foreign proposals never reach the
/// helper process.
pub proof fn law_tool_runs_only_when_approved(
    steps: Seq<ApproveToolStep>,
    events: Seq<ApproveToolEvent>,
    session_id: u128,
    approved: bool,
    k: int,
)
    requires
        approve_tool_trace(steps, events),
        steps[0] == (ApproveToolStep::FetchApproval { session_id, approved }),
        0 <= k < steps.len(),
        steps[k] is RunTool,
    ensures
        approved,
        steps[k]->RunTool_0.session_id == session_id,
{
    lemma_trace_keeps_request(steps, events, session_id, approved, k);
}

// ---------------------------------------------------------------- session history

/// A session's messages and its undecided tool calls.
pub struct SessionHistory {
    pub messages: Vec<Message>,
    pub pending_approvals: Vec<ApiPendingApproval>,
}

/// The report of an undecided tool call.
pub open spec fn reported(a: PendingApproval) -> ApiPendingApprovalView {
    ApiPendingApprovalView {
        id: a.id,
        tool_name: a.tool_name@,
        args: a.args@,
        description: a.description@,
    }
}

/// The report of an undecided tool call carries the stored call's identifier, tool
/// name, arguments and description.
pub proof fn law_report_keeps_stored_fields(a: PendingApproval)
    ensures
        reported(a).id == a.id,
        reported(a).tool_name == a.tool_name@,
        reported(a).args == a.args@,
        reported(a).description == a.description@,
{
}

/// The reports of undecided tool calls, in order.
pub fn report_approvals(approvals: &Vec<PendingApproval>) -> (r: Vec<ApiPendingApproval>)
    ensures
        r@.len() == approvals@.len(),
        forall|i: int| 0 <= i < approvals@.len() ==> (#[trigger] r@[i])@ == reported(approvals@[i]),
{
    let mut out: Vec<ApiPendingApproval> = Vec::new();
    let mut i: usize = 0;
    while i < approvals.len()
        invariant
            i <= approvals@.len(),
            out@.len() == i,
            forall|j: int| 0 <= j < i ==> (#[trigger] out@[j])@ == reported(approvals@[j]),
        decreases approvals@.len() - i,
    {
        let a = &approvals[i];
        out.push(
            ApiPendingApproval {
                id: a.id,
                tool_name: a.tool_name.clone(),
                args: a.args.duplicate(),
                description: a.description.clone(),
            },
        );
        i = i + 1;
    }
    out
}

/// The stages of answering a history request.
pub enum HistoryStep {
    /// Check that the session exists.
    CheckSession,
    /// Read the session's messages.
    FetchMessages,
    /// Read the session's undecided tool calls.
    FetchApprovals(Vec<Message>),
    /// Answer with the history, or report an error status.
    Reply(Result<SessionHistory, ApiStatus>),
}

/// The outcomes of the calls made while answering a history request.
pub enum HistoryEvent {
    SessionChecked(Lookup),
    MessagesFetched(Option<Vec<Message>>),
    ApprovalsFetched(Option<Vec<PendingApproval>>),
}

/// The stage after `event`. A missing session is not found; a failed read is an
/// internal error; the answer holds the messages as read and a report of each
/// undecided tool call. An outcome that does not belong to the stage leaves it
/// unchanged.
pub fn history_step(step: HistoryStep, event: HistoryEvent) -> (r: HistoryStep)
    ensures
        step is CheckSession ==> (event matches HistoryEvent::SessionChecked(l) ==> match l {
            Lookup::Failed => r matches HistoryStep::Reply(Err(ApiStatus::InternalServerError)),
            Lookup::Missing => r matches HistoryStep::Reply(Err(ApiStatus::NotFound)),
            Lookup::Found => r is FetchMessages,
        }),
        step is FetchMessages ==> (event matches HistoryEvent::MessagesFetched(m) ==> match m {
            Some(ms) => r == HistoryStep::FetchApprovals(ms),
            None => r matches HistoryStep::Reply(Err(ApiStatus::InternalServerError)),
        }),
        step matches HistoryStep::FetchApprovals(ms) ==> (event matches HistoryEvent::ApprovalsFetched(
            a,
        ) ==> match a {
            Some(approvals) => r matches HistoryStep::Reply(Ok(h)) && h.messages == ms && {
                &&& h.pending_approvals@.len() == approvals@.len()
                &&& forall|i: int|
                    0 <= i < approvals@.len() ==> (#[trigger] h.pending_approvals@[i])@ == reported(
                        approvals@[i],
                    )
            },
            None => r matches HistoryStep::Reply(Err(ApiStatus::InternalServerError)),
        }),
        !(step is CheckSession && event is SessionChecked) && !(step is FetchMessages
            && event is MessagesFetched) && !(step is FetchApprovals && event is ApprovalsFetched)
            ==> r == step,
{
    match step {
        HistoryStep::CheckSession => match event {
            HistoryEvent::SessionChecked(l) => match l {
                Lookup::Failed => HistoryStep::Reply(Err(ApiStatus::InternalServerError)),
                Lookup::Missing => HistoryStep::Reply(Err(ApiStatus::NotFound)),
                Lookup::Found => HistoryStep::FetchMessages,
            },
            _ => step,
        },
        HistoryStep::FetchMessages => match event {
            HistoryEvent::MessagesFetched(m) => match m {
                Some(ms) => HistoryStep::FetchApprovals(ms),
                None => HistoryStep::Reply(Err(ApiStatus::InternalServerError)),
            },
            _ => step,
        },
        HistoryStep::FetchApprovals(ms) => match event {
            HistoryEvent::ApprovalsFetched(a) => match a {
                Some(approvals) => {
                    let reports = report_approvals(&approvals);
                    HistoryStep::Reply(Ok(SessionHistory { messages: ms, pending_approvals: reports }))
                },
                None => HistoryStep::Reply(Err(ApiStatus::InternalServerError)),
            },
            _ => HistoryStep::FetchApprovals(ms),
        },
        HistoryStep::Reply(_) => step,
    }
}

// ---------------------------------------------------------------- workspaces

/// A workspace as the workspace endpoints describe it.
pub struct WorkspaceSummary {
    pub id: u128,
    pub path: String,
    pub name: String,
}

/// The name shown for a workspace path: its last component, or `Unknown`.
pub open spec fn shown_name(path: Seq<char>) -> Seq<char> {
    match path_file_name(path) {
        Some(n) => n,
        None => "Unknown"@,
    }
}

/// The name shown for a workspace is the last component of its path, and
/// `Unknown` when the path has none.
pub proof fn law_shown_name(path: Seq<char>)
    ensures
        path_file_name(path) matches Some(n) ==> shown_name(path) == n,
        path_file_name(path) is None ==> shown_name(path) == "Unknown"@,
{
}

/// The name shown for a workspace path (see [`shown_name`]).
pub fn name_for_path(path: &str) -> (r: String)
    ensures
        r@ == shown_name(path@),
{
    match file_name(path) {
        Some(n) => n,
        None => String::from_str("Unknown"),
    }
}

/// The workspace descriptions of the sessions, in order: each session's identifier,
/// its path, and the path's shown name.
pub fn workspace_summaries(sessions: &Vec<Session>) -> (r: Vec<WorkspaceSummary>)
    ensures
        r@.len() == sessions@.len(),
        forall|i: int|
            0 <= i < sessions@.len() ==> (#[trigger] r@[i]).id == sessions@[i].id && r@[i].path@
                == sessions@[i].workspace_path@ && r@[i].name@ == shown_name(
                sessions@[i].workspace_path@,
            ),
{
    let mut out: Vec<WorkspaceSummary> = Vec::new();
    let mut i: usize = 0;
    while i < sessions.len()
        invariant
            i <= sessions@.len(),
            out@.len() == i,
            forall|j: int|
                0 <= j < i ==> (#[trigger] out@[j]).id == sessions@[j].id && out@[j].path@
                    == sessions@[j].workspace_path@ && out@[j].name@ == shown_name(
                    sessions@[j].workspace_path@,
                ),
        decreases sessions@.len() - i,
    {
        let s = &sessions[i];
        let name = name_for_path(s.workspace_path.as_str());
        out.push(WorkspaceSummary { id: s.id, path: s.workspace_path.clone(), name });
        i = i + 1;
    }
    out
}

/// The stages of updating a workspace's session.
pub enum UpdateWorkspaceStep {
    /// Look up the session; `new_path` and `new_name` are what the request asks for.
    FetchSession { workspace_id: u128, new_path: Option<String>, new_name: Option<String> },
    /// Make sure the new directory exists (creating it if needed).
    EnsureDirectory { workspace_id: u128, path: String, new_name: Option<String> },
    /// Store the session's path.
    UpdatePath { workspace_id: u128, path: String, new_name: Option<String> },
    /// Answer with the workspace's description, or report an error status.
    Reply(Result<WorkspaceSummary, ApiStatus>),
}

/// The outcomes of the calls made while updating a workspace's session.
pub enum UpdateWorkspaceEvent {
    SessionFetched(Fetched<Session>),
    DirectoryEnsured(bool),
    PathUpdated(bool),
}

/// The stage after `event`. A missing session is not found; a directory that could
/// not be made is a bad request; other failures are internal errors. The path is
/// the requested one, else the session's; the name is the requested one, else the
/// path's shown name. An outcome that does not belong to the stage leaves it
/// unchanged.
pub fn update_workspace_step(step: UpdateWorkspaceStep, event: UpdateWorkspaceEvent) -> (r:
    UpdateWorkspaceStep)
    ensures
        step matches UpdateWorkspaceStep::FetchSession { workspace_id, new_path, new_name } ==> (
        event matches UpdateWorkspaceEvent::SessionFetched(f) ==> match f {
            Fetched::Failed => r matches UpdateWorkspaceStep::Reply(
                Err(ApiStatus::InternalServerError),
            ),
            Fetched::Missing => r matches UpdateWorkspaceStep::Reply(Err(ApiStatus::NotFound)),
            Fetched::Found(s) => match new_path {
                Some(p) => r == (UpdateWorkspaceStep::EnsureDirectory {
                    workspace_id,
                    path: p,
                    new_name,
                }),
                None => (r matches UpdateWorkspaceStep::UpdatePath { workspace_id: w, path, new_name: n }
                    && w == workspace_id && path@ == s.workspace_path@ && n == new_name),
            },
        }),
        step matches UpdateWorkspaceStep::EnsureDirectory { workspace_id, path, new_name } ==> (
        event matches UpdateWorkspaceEvent::DirectoryEnsured(ok) ==> if ok {
            r == (UpdateWorkspaceStep::UpdatePath { workspace_id, path, new_name })
        } else {
            r matches UpdateWorkspaceStep::Reply(Err(ApiStatus::BadRequest))
        }),
        step matches UpdateWorkspaceStep::UpdatePath { workspace_id, path, new_name } ==> (
        event matches UpdateWorkspaceEvent::PathUpdated(ok) ==> if ok {
            r matches UpdateWorkspaceStep::Reply(Ok(w)) && w.id == workspace_id && w.path@ == path@
                && w.name@ == match new_name {
                Some(n) => n@,
                None => shown_name(path@),
            }
        } else {
            r matches UpdateWorkspaceStep::Reply(Err(ApiStatus::InternalServerError))
        }),
        !(step is FetchSession && event is SessionFetched) && !(step is EnsureDirectory
            && event is DirectoryEnsured) && !(step is UpdatePath && event is PathUpdated) ==> r
            == step,
{
    match step {
        UpdateWorkspaceStep::FetchSession { workspace_id, new_path, new_name } => match event {
            UpdateWorkspaceEvent::SessionFetched(f) => match f {
                Fetched::Failed => UpdateWorkspaceStep::Reply(Err(ApiStatus::InternalServerError)),
                Fetched::Missing => UpdateWorkspaceStep::Reply(Err(ApiStatus::NotFound)),
                Fetched::Found(s) => match new_path {
                    Some(p) => UpdateWorkspaceStep::EnsureDirectory { workspace_id, path: p, new_name },
                    None => UpdateWorkspaceStep::UpdatePath {
                        workspace_id,
                        path: s.workspace_path,
                        new_name,
                    },
                },
            },
            _ => UpdateWorkspaceStep::FetchSession { workspace_id, new_path, new_name },
        },
        UpdateWorkspaceStep::EnsureDirectory { workspace_id, path, new_name } => match event {
            UpdateWorkspaceEvent::DirectoryEnsured(ok) => if ok {
                UpdateWorkspaceStep::UpdatePath { workspace_id, path, new_name }
            } else {
                UpdateWorkspaceStep::Reply(Err(ApiStatus::BadRequest))
            },
            _ => UpdateWorkspaceStep::EnsureDirectory { workspace_id, path, new_name },
        },
        UpdateWorkspaceStep::UpdatePath { workspace_id, path, new_name } => match event {
            UpdateWorkspaceEvent::PathUpdated(ok) => if ok {
                let name = match new_name {
                    Some(n) => n,
                    None => name_for_path(path.as_str()),
                };
                UpdateWorkspaceStep::Reply(Ok(WorkspaceSummary { id: workspace_id, path, name }))
            } else {
                UpdateWorkspaceStep::Reply(Err(ApiStatus::InternalServerError))
            },
            _ => UpdateWorkspaceStep::UpdatePath { workspace_id, path, new_name },
        },
        UpdateWorkspaceStep::Reply(_) => step,
    }
}

// ---------------------------------------------------------------- command execution

/// The answer to a command run: its output, or an empty output and the error text.
pub struct CommandExecutionResponse {
    pub output: String,
    pub error: Option<String>,
}

/// The directory a command runs in: the requested one, else `.`.
pub fn command_directory(workspace_path: Option<String>) -> (r: String)
    ensures
        r@ == match workspace_path {
            Some(p) => p@,
            None => "."@,
        },
{
    match workspace_path {
        Some(p) => p,
        None => String::from_str("."),
    }
}

/// The answer to a command run from its outcome: the output, or (for a failure,
/// given by its text) an empty output and the text as the error.
pub fn command_response(outcome: Result<String, String>) -> (r: CommandExecutionResponse)
    ensures
        match outcome {
            Ok(out) => r.output == out && r.error is None,
            Err(e) => r.output@.len() == 0 && r.error == Some(e),
        },
{
    match outcome {
        Ok(output) => CommandExecutionResponse { output, error: None },
        Err(e) => CommandExecutionResponse { output: String::new(), error: Some(e) },
    }
}

} // verus!
