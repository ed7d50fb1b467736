use web_service::auth::{
    validate_gemini_api_key, validate_vertex_ai, AuthCheck, AuthError, AuthManager, AuthRequest,
    AuthType,
};
use web_service::config::Config;
use web_service::json::JsonValue;

fn s(x: &str) -> String {
    x.to_string()
}

fn obj(entries: Vec<(&str, JsonValue)>) -> JsonValue {
    JsonValue::Object(entries.into_iter().map(|(k, v)| (s(k), v)).collect())
}

fn text(x: &str) -> JsonValue {
    JsonValue::Str(s(x))
}

fn config(auth_file: Option<&str>) -> Config {
    Config { host: s("127.0.0.1"), port: 3000, gemini_cli_path: None, auth_file: auth_file.map(s) }
}

#[test]
fn api_key_missing_is_an_error() {
    assert_eq!(validate_gemini_api_key(&obj(vec![])), Err(AuthError::MissingApiKey));
    assert_eq!(
        validate_gemini_api_key(&obj(vec![("api_key", JsonValue::Number(s("12345678901")))])),
        Err(AuthError::MissingApiKey)
    );
    assert_eq!(validate_gemini_api_key(&JsonValue::Null), Err(AuthError::MissingApiKey));
}

#[test]
fn api_key_rules() {
    // shorter than 10 bytes
    assert_eq!(validate_gemini_api_key(&obj(vec![("api_key", text("AIshort"))])), Ok(false));
    assert_eq!(validate_gemini_api_key(&obj(vec![("api_key", text(""))])), Ok(false));
    // starts with AI and long enough
    assert_eq!(validate_gemini_api_key(&obj(vec![("api_key", text("AIzaSy1234"))])), Ok(true));
    // 15 bytes, not starting with AI
    assert_eq!(validate_gemini_api_key(&obj(vec![("api_key", text("xyzxyzxyzxyzxyz"))])), Ok(false));
    // 21 bytes, not starting with AI
    assert_eq!(
        validate_gemini_api_key(&obj(vec![("api_key", text("abcdefghijklmnopqrstu"))])),
        Ok(true)
    );
}

#[test]
fn api_key_length_counts_bytes() {
    // 5 characters, 10 bytes: long enough to be judged, too short to pass
    assert_eq!(validate_gemini_api_key(&obj(vec![("api_key", text("ééééé"))])), Ok(false));
    // 11 characters, 22 bytes: more than 20 bytes passes
    assert_eq!(validate_gemini_api_key(&obj(vec![("api_key", text("ééééééééééé"))])), Ok(true));
}

#[test]
fn vertex_rules() {
    assert_eq!(validate_vertex_ai(&obj(vec![])), Err(AuthError::MissingProjectId));
    assert_eq!(validate_vertex_ai(&obj(vec![("project_id", text(""))])), Ok(false));
    assert_eq!(validate_vertex_ai(&obj(vec![("project_id", text("proj"))])), Ok(true));
    assert_eq!(
        validate_vertex_ai(&obj(vec![("project_id", text("proj")), ("location", text(""))])),
        Ok(false)
    );
    assert_eq!(
        validate_vertex_ai(&obj(vec![("project_id", text("proj")), ("location", text("eu"))])),
        Ok(true)
    );
    // a non-string location falls back to the default
    assert_eq!(
        validate_vertex_ai(&obj(vec![("project_id", text("p")), ("location", JsonValue::Bool(true))])),
        Ok(true)
    );
}

#[test]
fn login_path_resolution() {
    let m = AuthManager::new(config(None));
    let with_path = obj(vec![("login_path", text("/creds/a.json"))]);
    assert_eq!(m.login_path(&with_path, None, None).ok(), Some(s("/creds/a.json")));
    let empty = obj(vec![]);
    assert_eq!(
        m.login_path(&empty, Some(s("/home/u")), Some(s("/other"))).ok(),
        Some(s("/home/u/.gemini/auth.json"))
    );
    assert_eq!(
        m.login_path(&empty, None, Some(s("/profile"))).ok(),
        Some(s("/profile/.gemini/auth.json"))
    );
    assert_eq!(m.login_path(&empty, None, None).err(), Some(AuthError::NoHomeDirectory));
    let m2 = AuthManager::new(config(Some("/etc/auth.json")));
    assert_eq!(m2.auth_file_path(), Some(&s("/etc/auth.json")));
    assert_eq!(m2.login_path(&empty, None, None).ok(), Some(s("/etc/auth.json")));
    assert_eq!(m2.login_path(&with_path, None, None).ok(), Some(s("/creds/a.json")));
}

#[test]
fn validate_auth_dispatches_on_type() {
    let m = AuthManager::new(config(None));
    let req = AuthRequest {
        auth_type: AuthType::GeminiApiKey,
        config: obj(vec![("api_key", text("AIzaSy1234"))]),
        workspace_path: s("/w"),
    };
    assert!(matches!(m.validate_auth(&req, None, None), Ok(AuthCheck::Decided(true))));
    let req = AuthRequest {
        auth_type: AuthType::VertexAi,
        config: obj(vec![]),
        workspace_path: s("/w"),
    };
    assert!(matches!(m.validate_auth(&req, None, None), Err(AuthError::MissingProjectId)));
    let req = AuthRequest {
        auth_type: AuthType::ExistingLogin,
        config: obj(vec![]),
        workspace_path: s("/w"),
    };
    match m.validate_auth(&req, Some(s("/h")), None) {
        Ok(AuthCheck::CheckLoginFile(p)) => assert_eq!(p, "/h/.gemini/auth.json"),
        _ => panic!("expected a file check"),
    }
    assert!(matches!(m.validate_auth(&req, None, None), Err(AuthError::NoHomeDirectory)));
}

#[test]
fn authenticate_records_accepted_credentials() {
    let mut m = AuthManager::new(config(None));
    assert!(!m.is_authenticated(7));
    assert!(m.get_auth_info(7).is_none());
    let req = AuthRequest {
        auth_type: AuthType::VertexAi,
        config: obj(vec![("project_id", text("p"))]),
        workspace_path: s("/w"),
    };
    let resp = m.authenticate(7, req, Ok(true)).unwrap();
    assert!(resp.success);
    assert_eq!(resp.message, "Authentication successful");
    assert!(m.is_authenticated(7));
    assert!(!m.is_authenticated(8));
    let info = m.get_auth_info(7).unwrap();
    assert!(info.authenticated);
    assert_eq!(info.auth_type, AuthType::VertexAi);
    assert_eq!(info.workspace_path, "/w");
}

#[test]
fn authenticate_rejects_failed_credentials() {
    let mut m = AuthManager::new(config(None));
    let req = AuthRequest {
        auth_type: AuthType::GeminiApiKey,
        config: obj(vec![]),
        workspace_path: s("/w"),
    };
    let r = m.authenticate(3, req, Ok(false));
    assert!(matches!(r, Err(AuthError::AuthenticationFailed)));
    assert_eq!(AuthError::AuthenticationFailed.message(), "Authentication failed");
    assert_eq!(AuthError::MissingApiKey.message(), "Missing API key");
    assert_eq!(AuthError::MissingProjectId.message(), "Missing project_id");
    assert_eq!(AuthError::NoHomeDirectory.message(), "Could not determine home directory");
    assert!(!m.is_authenticated(3));
    assert!(m.get_auth_info(3).is_none());
}

#[test]
fn authenticate_passes_on_check_errors() {
    let mut m = AuthManager::new(config(None));
    let req = AuthRequest {
        auth_type: AuthType::GeminiApiKey,
        config: obj(vec![]),
        workspace_path: s("/w"),
    };
    let check = validate_gemini_api_key(&req.config);
    let r = m.authenticate(4, req, check);
    assert!(matches!(r, Err(AuthError::MissingApiKey)));
    assert!(!m.is_authenticated(4));
    let req = AuthRequest {
        auth_type: AuthType::VertexAi,
        config: obj(vec![]),
        workspace_path: s("/w"),
    };
    let r = m.authenticate(4, req, Err(AuthError::MissingProjectId));
    assert!(matches!(r, Err(AuthError::MissingProjectId)));
    assert!(m.get_auth_info(4).is_none());
}

#[test]
fn authenticated_exactly_after_an_accepted_check() {
    let mut m = AuthManager::new(config(None));
    let req = |p: &str| AuthRequest {
        auth_type: AuthType::VertexAi,
        config: obj(vec![("project_id", text(p))]),
        workspace_path: s("/w"),
    };
    assert!(m.authenticate(1, req("a"), Ok(false)).is_err());
    assert!(m.authenticate(2, req("b"), Err(AuthError::MissingApiKey)).is_err());
    assert!(!m.is_authenticated(1));
    assert!(!m.is_authenticated(2));
    assert!(m.authenticate(1, req("c"), Ok(true)).is_ok());
    assert!(m.is_authenticated(1));
    assert!(m.authenticate(1, req("d"), Ok(false)).is_err());
    assert!(m.is_authenticated(1));
    assert!(!m.is_authenticated(2));
}
