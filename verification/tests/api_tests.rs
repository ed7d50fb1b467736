use web_service::api::{
    approve_tool_start, approve_tool_step, command_directory, command_response,
    create_session_start, create_session_step, history_step, name_for_path, send_message_start,
    send_message_step,
    stored_approvals, update_workspace_step, workspace_summaries, ApiStatus, ApproveToolEvent,
    ApproveToolStep, AuthOutcome, CreateSessionEvent, CreateSessionStep, Fetched, HistoryEvent,
    HistoryStep, Lookup, Role, SendMessageEvent, SendMessageStep, UpdateWorkspaceEvent,
    UpdateWorkspaceStep,
};
use web_service::api::CreateSessionEvent::{
    AuthChecked, BridgeSessionOpened, DirectoryEnsured, RecordCreated,
};
use web_service::bridge::{BridgePendingApproval, BridgeResponse};
use web_service::db::{Message, PendingApproval, Session};
use web_service::ids::Timestamp;
use web_service::json::JsonValue;

const T0: Timestamp = Timestamp { secs: 0, nanos: 0 };

fn run_create(has_auth: bool, events: &[CreateSessionEvent]) -> CreateSessionStep {
    let mut step = create_session_start(has_auth);
    for e in events {
        step = create_session_step(step, *e);
    }
    step
}

#[test]
fn status_codes() {
    assert_eq!(ApiStatus::BadRequest.code(), 400);
    assert_eq!(ApiStatus::Unauthorized.code(), 401);
    assert_eq!(ApiStatus::NotFound.code(), 404);
    assert_eq!(ApiStatus::InternalServerError.code(), 500);
}

#[test]
fn create_session_happy_paths() {
    assert_eq!(
        run_create(false, &[DirectoryEnsured(true), RecordCreated(Some(9)), BridgeSessionOpened(true)]),
        CreateSessionStep::Reply(Ok(9))
    );
    assert_eq!(
        run_create(
            true,
            &[
                AuthChecked(AuthOutcome::Accepted),
                DirectoryEnsured(true),
                RecordCreated(Some(9)),
                BridgeSessionOpened(true)
            ]
        ),
        CreateSessionStep::Reply(Ok(9))
    );
}

#[test]
fn create_session_failures() {
    assert_eq!(run_create(false, &[DirectoryEnsured(false)]), CreateSessionStep::Reply(Err(ApiStatus::BadRequest)));
    assert_eq!(
        run_create(true, &[AuthChecked(AuthOutcome::Rejected)]),
        CreateSessionStep::Reply(Err(ApiStatus::Unauthorized))
    );
    assert_eq!(
        run_create(true, &[AuthChecked(AuthOutcome::Error)]),
        CreateSessionStep::Reply(Err(ApiStatus::InternalServerError))
    );
    assert_eq!(
        run_create(false, &[DirectoryEnsured(true), RecordCreated(None)]),
        CreateSessionStep::Reply(Err(ApiStatus::InternalServerError))
    );
    assert_eq!(
        run_create(false, &[DirectoryEnsured(true), RecordCreated(Some(1)), BridgeSessionOpened(false)]),
        CreateSessionStep::Reply(Err(ApiStatus::InternalServerError))
    );
    // an outcome out of turn changes nothing
    assert_eq!(run_create(true, &[BridgeSessionOpened(true)]), CreateSessionStep::ValidateAuth);
    // credentials are checked before the directory is made
    assert_eq!(run_create(true, &[DirectoryEnsured(true)]), CreateSessionStep::ValidateAuth);
    assert_eq!(
        run_create(true, &[AuthChecked(AuthOutcome::Rejected), DirectoryEnsured(true)]),
        CreateSessionStep::Reply(Err(ApiStatus::Unauthorized))
    );
    assert_eq!(run_create(true, &[AuthChecked(AuthOutcome::Accepted)]), CreateSessionStep::EnsureDirectory);
    assert_eq!(run_create(false, &[]), CreateSessionStep::EnsureDirectory);
    // without credentials the check is skipped
    assert_eq!(run_create(false, &[DirectoryEnsured(true)]), CreateSessionStep::CreateRecord);
}

fn proposal(name: &str) -> BridgePendingApproval {
    BridgePendingApproval { tool_name: name.to_string(), args: JsonValue::Null, description: format!("do {}", name) }
}

#[test]
fn stored_proposals_are_kept_in_order() {
    let ps = vec![proposal("a"), proposal("b"), proposal("c")];
    let kept = stored_approvals(&ps, &vec![Some(1), None, Some(3)]);
    assert_eq!(kept.len(), 2);
    assert_eq!((kept[0].id, kept[0].tool_name.as_str()), (1, "a"));
    assert_eq!((kept[1].id, kept[1].tool_name.as_str(), kept[1].description.as_str()), (3, "c", "do c"));
    // identifiers missing at the end count as not stored
    assert_eq!(stored_approvals(&ps, &vec![Some(5)]).len(), 1);
}

#[test]
fn send_message_flow() {
    let start = || send_message_start("hello".to_string());
    let s = send_message_step(start(), SendMessageEvent::SessionChecked(Lookup::Missing));
    assert!(matches!(s, SendMessageStep::Reply(Err(ApiStatus::NotFound))));
    let s = send_message_step(start(), SendMessageEvent::SessionChecked(Lookup::Failed));
    assert!(matches!(s, SendMessageStep::Reply(Err(ApiStatus::InternalServerError))));
    let s = send_message_step(start(), SendMessageEvent::SessionChecked(Lookup::Found));
    match &s {
        SendMessageStep::StoreUserMessage { role, content } => {
            assert_eq!(role.text(), "user");
            assert_eq!(content, "hello");
        }
        _ => panic!("expected the user's message to be stored"),
    }
    let s2 = send_message_step(s, SendMessageEvent::UserMessageStored(false));
    assert!(matches!(s2, SendMessageStep::Reply(Err(ApiStatus::InternalServerError))));
    let s = send_message_step(
        SendMessageStep::StoreUserMessage { role: Role::User, content: "hello".to_string() },
        SendMessageEvent::UserMessageStored(true),
    );
    match &s {
        SendMessageStep::AskBridge { message } => assert_eq!(message, "hello"),
        _ => panic!("expected the helper to be asked"),
    }
    let s2 = send_message_step(
        SendMessageStep::AskBridge { message: "hello".to_string() },
        SendMessageEvent::BridgeAnswered(None),
    );
    assert!(matches!(s2, SendMessageStep::Reply(Err(ApiStatus::InternalServerError))));
    let answer = BridgeResponse { response: "ok".to_string(), pending_approvals: vec![proposal("t")] };
    let s = send_message_step(s, SendMessageEvent::BridgeAnswered(Some(answer)));
    match &s {
        SendMessageStep::StoreResults { answer, role } => {
            assert_eq!(role.text(), "assistant");
            assert_eq!(answer.response, "ok");
        }
        _ => panic!("expected the results to be stored"),
    }
    match send_message_step(s, SendMessageEvent::ResultsStored(vec![Some(11)])) {
        SendMessageStep::Reply(Ok(r)) => {
            assert_eq!(r.response, "ok");
            assert_eq!(r.pending_approvals.len(), 1);
            assert_eq!(r.pending_approvals[0].id, 11);
            assert_eq!((r.message_id >> 76) & 0xf, 4);
        }
        _ => panic!("expected an answer"),
    }
    // an outcome out of turn changes nothing
    match send_message_step(start(), SendMessageEvent::UserMessageStored(true)) {
        SendMessageStep::CheckSession { message } => assert_eq!(message, "hello"),
        _ => panic!("expected the stage to stay"),
    }
}

#[test]
fn stored_roles() {
    assert_eq!(Role::User.text(), "user");
    assert_eq!(Role::Assistant.text(), "assistant");
}

fn approval(session_id: u128, name: &str) -> PendingApproval {
    PendingApproval {
        id: 5,
        session_id,
        tool_name: name.to_string(),
        args: JsonValue::Null,
        description: String::new(),
        approved: None,
        created_at: T0,
    }
}

#[test]
fn approval_of_another_session_is_refused() {
    let s = approve_tool_start(1, true);
    let s = approve_tool_step(s, ApproveToolEvent::ApprovalFetched(Fetched::Found(approval(2, "t"))));
    assert!(matches!(s, ApproveToolStep::Reply(Err(ApiStatus::BadRequest))));
    let s = approve_tool_step(approve_tool_start(1, true), ApproveToolEvent::ApprovalFetched(Fetched::Missing));
    assert!(matches!(s, ApproveToolStep::Reply(Err(ApiStatus::NotFound))));
    let s = approve_tool_step(approve_tool_start(1, true), ApproveToolEvent::ApprovalFetched(Fetched::Failed));
    assert!(matches!(s, ApproveToolStep::Reply(Err(ApiStatus::InternalServerError))));
}

#[test]
fn rejected_tool_is_not_run() {
    let s = approve_tool_start(1, false);
    let s = approve_tool_step(s, ApproveToolEvent::ApprovalFetched(Fetched::Found(approval(1, "t"))));
    assert!(matches!(s, ApproveToolStep::RecordDecision { approved: false, .. }));
    match approve_tool_step(s, ApproveToolEvent::DecisionRecorded(true)) {
        ApproveToolStep::Reply(Ok(t)) => assert_eq!(t, "Tool execution rejected"),
        _ => panic!("expected an answer"),
    }
}

#[test]
fn approved_tool_is_run_and_reported() {
    let s = approve_tool_start(1, true);
    let s = approve_tool_step(s, ApproveToolEvent::ApprovalFetched(Fetched::Found(approval(1, "edit_file"))));
    let s2 = approve_tool_step(
        approve_tool_step(approve_tool_start(1, true), ApproveToolEvent::ApprovalFetched(Fetched::Found(approval(1, "x")))),
        ApproveToolEvent::DecisionRecorded(false),
    );
    assert!(matches!(s2, ApproveToolStep::Reply(Err(ApiStatus::InternalServerError))));
    let s = approve_tool_step(s, ApproveToolEvent::DecisionRecorded(true));
    assert!(matches!(s, ApproveToolStep::RunTool(_)));
    let s = approve_tool_step(s, ApproveToolEvent::ToolRan(Some("done".to_string())));
    match &s {
        ApproveToolStep::StoreResult { role, report, result } => {
            assert_eq!(*role, Role::Assistant);
            assert_eq!(report, "Tool 'edit_file' executed successfully: done");
            assert_eq!(result, "done");
        }
        _ => panic!("expected the result to be stored"),
    }
    match approve_tool_step(s, ApproveToolEvent::ResultStored) {
        ApproveToolStep::Reply(Ok(t)) => assert_eq!(t, "done"),
        _ => panic!("expected an answer"),
    }
    let s = approve_tool_step(ApproveToolStep::RunTool(approval(1, "x")), ApproveToolEvent::ToolRan(None));
    assert!(matches!(s, ApproveToolStep::Reply(Err(ApiStatus::InternalServerError))));
}

#[test]
fn history_flow() {
    let s = history_step(HistoryStep::CheckSession, HistoryEvent::SessionChecked(Lookup::Missing));
    assert!(matches!(s, HistoryStep::Reply(Err(ApiStatus::NotFound))));
    let s = history_step(HistoryStep::CheckSession, HistoryEvent::SessionChecked(Lookup::Found));
    let s = history_step(s, HistoryEvent::MessagesFetched(Some(vec![Message {
        id: 1,
        session_id: 2,
        role: "user".to_string(),
        content: "hi".to_string(),
        created_at: T0,
    }])));
    assert!(matches!(s, HistoryStep::FetchApprovals(_)));
    match history_step(s, HistoryEvent::ApprovalsFetched(Some(vec![approval(2, "edit_file")]))) {
        HistoryStep::Reply(Ok(h)) => {
            assert_eq!(h.messages.len(), 1);
            assert_eq!(h.pending_approvals.len(), 1);
            assert_eq!(h.pending_approvals[0].tool_name, "edit_file");
            assert_eq!(h.pending_approvals[0].id, 5);
        }
        _ => panic!("expected a history"),
    }
    let s = history_step(HistoryStep::FetchMessages, HistoryEvent::MessagesFetched(None));
    assert!(matches!(s, HistoryStep::Reply(Err(ApiStatus::InternalServerError))));
}

fn session(path: &str) -> Session {
    Session { id: 3, workspace_path: path.to_string(), created_at: T0, updated_at: T0 }
}

#[test]
fn update_workspace_flow() {
    let start = || UpdateWorkspaceStep::FetchSession { workspace_id: 3, new_path: None, new_name: None };
    let s = update_workspace_step(start(), UpdateWorkspaceEvent::SessionFetched(Fetched::Missing));
    assert!(matches!(s, UpdateWorkspaceStep::Reply(Err(ApiStatus::NotFound))));
    let s = update_workspace_step(start(), UpdateWorkspaceEvent::SessionFetched(Fetched::Found(session("/a/proj"))));
    match update_workspace_step(s, UpdateWorkspaceEvent::PathUpdated(true)) {
        UpdateWorkspaceStep::Reply(Ok(w)) => {
            assert_eq!((w.id, w.path.as_str(), w.name.as_str()), (3, "/a/proj", "proj"));
        }
        _ => panic!("expected a description"),
    }
    let with_path = UpdateWorkspaceStep::FetchSession {
        workspace_id: 3,
        new_path: Some("/b/new".to_string()),
        new_name: Some("Mine".to_string()),
    };
    let s = update_workspace_step(with_path, UpdateWorkspaceEvent::SessionFetched(Fetched::Found(session("/a"))));
    assert!(matches!(s, UpdateWorkspaceStep::EnsureDirectory { .. }));
    let bad = update_workspace_step(
        UpdateWorkspaceStep::EnsureDirectory { workspace_id: 3, path: "/x".to_string(), new_name: None },
        UpdateWorkspaceEvent::DirectoryEnsured(false),
    );
    assert!(matches!(bad, UpdateWorkspaceStep::Reply(Err(ApiStatus::BadRequest))));
    let s = update_workspace_step(s, UpdateWorkspaceEvent::DirectoryEnsured(true));
    let failed = update_workspace_step(
        UpdateWorkspaceStep::UpdatePath { workspace_id: 3, path: "/x".to_string(), new_name: None },
        UpdateWorkspaceEvent::PathUpdated(false),
    );
    assert!(matches!(failed, UpdateWorkspaceStep::Reply(Err(ApiStatus::InternalServerError))));
    match update_workspace_step(s, UpdateWorkspaceEvent::PathUpdated(true)) {
        UpdateWorkspaceStep::Reply(Ok(w)) => {
            assert_eq!((w.path.as_str(), w.name.as_str()), ("/b/new", "Mine"));
        }
        _ => panic!("expected a description"),
    }
}

#[test]
fn workspace_listing_and_names() {
    assert_eq!(name_for_path("/home/me/project"), "project");
    assert_eq!(name_for_path("/"), "Unknown");
    assert_eq!(name_for_path("/a/.."), "Unknown");
    let list = workspace_summaries(&vec![session("/x/one"), session("/")]);
    assert_eq!(list.len(), 2);
    assert_eq!((list[0].path.as_str(), list[0].name.as_str()), ("/x/one", "one"));
    assert_eq!(list[1].name, "Unknown");
}

#[test]
fn command_answers() {
    assert_eq!(command_directory(None), ".");
    assert_eq!(command_directory(Some("/w".to_string())), "/w");
    let r = command_response(Ok("out".to_string()));
    assert_eq!((r.output.as_str(), r.error), ("out", None));
    let r = command_response(Err("bad".to_string()));
    assert_eq!((r.output.as_str(), r.error.as_deref()), ("", Some("bad")));
}
