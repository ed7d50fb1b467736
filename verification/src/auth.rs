//! Credential checks and the per-workspace authentication records.

use vstd::prelude::*;
use std::collections::HashMap;
use crate::config::Config;
use crate::json::{JsonValue, JsonView};
use crate::paths::{join_path, path_join};
use crate::text::{seq_starts_with, str_starts_with};

verus! {

broadcast use vstd::std_specs::hash::group_hash_axioms;

/// How a workspace authenticates against the model service.
#[derive(Clone, Copy, Debug, PartialEq, Eq, Structural)]
pub enum AuthType {
    GeminiApiKey,
    VertexAi,
    ExistingLogin,
}

/// A request to authenticate a workspace; `config` carries the type-specific settings.
pub struct AuthRequest {
    pub auth_type: AuthType,
    pub config: JsonValue,
    pub workspace_path: String,
}

/// The answer to a successful authentication.
pub struct AuthResponse {
    pub success: bool,
    pub message: String,
}

/// What is recorded of a workspace's authentication.
pub struct AuthInfo {
    pub auth_type: AuthType,
    pub config: JsonValue,
    pub workspace_path: String,
    pub authenticated: bool,
}

/// The model of an [`AuthInfo`].
pub struct AuthInfoView {
    pub auth_type: AuthType,
    pub config: JsonView,
    pub workspace_path: Seq<char>,
    pub authenticated: bool,
}

impl View for AuthInfo {
    type V = AuthInfoView;

    open spec fn view(&self) -> AuthInfoView {
        AuthInfoView {
            auth_type: self.auth_type,
            config: self.config@,
            workspace_path: self.workspace_path@,
            authenticated: self.authenticated,
        }
    }
}

impl AuthInfo {
    /// A copy of the record with the same model.
    pub fn duplicate(&self) -> (r: AuthInfo)
        ensures
            r@ == self@,
    {
        AuthInfo {
            auth_type: self.auth_type,
            config: self.config.duplicate(),
            workspace_path: self.workspace_path.clone(),
            authenticated: self.authenticated,
        }
    }
}

/// Why an authentication could not be carried out.
#[derive(Clone, Copy, Debug, PartialEq, Eq, Structural)]
pub enum AuthError {
    /// The settings hold no string `api_key`.
    MissingApiKey,
    /// The settings hold no string `project_id`.
    MissingProjectId,
    /// Neither `HOME` nor `USERPROFILE` names a home directory.
    NoHomeDirectory,
    /// The credentials were checked and found wanting.
    AuthenticationFailed,
}

impl AuthError {
    /// The text of the error.
    pub open spec fn spec_message(self) -> Seq<char> {
        match self {
            AuthError::MissingApiKey => "Missing API key"@,
            AuthError::MissingProjectId => "Missing project_id"@,
            AuthError::NoHomeDirectory => "Could not determine home directory"@,
            AuthError::AuthenticationFailed => "Authentication failed"@,
        }
    }

    /// The text of the error.
    pub fn message(&self) -> (s: String)
        ensures
            s@ == self.spec_message(),
    {
        match self {
            AuthError::MissingApiKey => String::from_str("Missing API key"),
            AuthError::MissingProjectId => String::from_str("Missing project_id"),
            AuthError::NoHomeDirectory => String::from_str("Could not determine home directory"),
            AuthError::AuthenticationFailed => String::from_str("Authentication failed"),
        }
    }
}

/// The outcome of checking a request's settings: either a verdict, or the
/// credentials file whose existence decides it.
pub enum AuthCheck {
    Decided(bool),
    CheckLoginFile(String),
}

/// The length of a text in UTF-8 bytes, as `str::len` counts it.
pub open spec fn byte_len(s: Seq<char>) -> nat {
    (vstd::utf8::encode_utf8(s).len() as usize) as nat
}

/// The verdict on API-key settings: the key must be present as a string; a key of
/// fewer than 10 bytes is rejected; otherwise it must start with `AI` or be longer
/// than 20 bytes.
pub open spec fn api_key_verdict(config: JsonView) -> Result<bool, AuthError> {
    match config.get_str("api_key"@) {
        None => Err(AuthError::MissingApiKey),
        Some(key) => if byte_len(key) < 10 {
            Ok(false)
        } else {
            Ok(seq_starts_with(key, "AI"@) || byte_len(key) > 20)
        },
    }
}

/// The location used when the settings name none.
pub open spec fn default_location() -> Seq<char> {
    "us-central1"@
}

/// The verdict on Vertex AI settings: `project_id` must be present as a string, and
/// both it and the location (by default `us-central1`) must be non-empty.
pub open spec fn vertex_verdict(config: JsonView) -> Result<bool, AuthError> {
    match config.get_str("project_id"@) {
        None => Err(AuthError::MissingProjectId),
        Some(project) => {
            let location = match config.get_str("location"@) {
                Some(l) => l,
                None => default_location(),
            };
            Ok(project.len() > 0 && location.len() > 0)
        },
    }
}

/// The credentials file for an existing login: the `login_path` setting, else the
/// configured file, else `.gemini/auth.json` under the home directory (`HOME`, else
/// `USERPROFILE`).
pub open spec fn login_path_for(
    config: JsonView,
    auth_file: Option<Seq<char>>,
    home: Option<Seq<char>>,
    profile: Option<Seq<char>>,
) -> Result<Seq<char>, AuthError> {
    match config.get_str("login_path"@) {
        Some(p) => Ok(p),
        None => match auth_file {
            Some(f) => Ok(f),
            None => {
                let dir = match home {
                    Some(h) => Some(h),
                    None => profile,
                };
                match dir {
                    Some(d) => Ok(path_join(path_join(d, ".gemini"@), "auth.json"@)),
                    None => Err(AuthError::NoHomeDirectory),
                }
            },
        },
    }
}

/// The rules for API keys: a settings object without a string `api_key` is an
/// error; a key shorter than 10 bytes is rejected; a key of at least 10 bytes that
/// starts with `AI` is accepted, and so is any key longer than 20 bytes; a key of
/// 10 to 20 bytes that does not start with `AI` is rejected.
pub proof fn law_api_key_rules(config: JsonView)
    ensures
        config.get_str("api_key"@) is None ==> api_key_verdict(config) == Err::<bool, AuthError>(
            AuthError::MissingApiKey,
        ),
        config.get_str("api_key"@) matches Some(key) ==> {
            &&& byte_len(key) < 10 ==> api_key_verdict(config) == Ok::<bool, AuthError>(false)
            &&& byte_len(key) >= 10 && seq_starts_with(key, "AI"@) ==> api_key_verdict(config)
                == Ok::<bool, AuthError>(true)
            &&& byte_len(key) > 20 ==> api_key_verdict(config) == Ok::<bool, AuthError>(true)
            &&& 10 <= byte_len(key) <= 20 && !seq_starts_with(key, "AI"@) ==> api_key_verdict(
                config,
            ) == Ok::<bool, AuthError>(false)
        },
{
}

/// The rules for Vertex AI settings: without a string `project_id` they are an
/// error; otherwise they are accepted exactly when the project and the location
/// (the `location` setting, or `us-central1` when there is none) are non-empty.
pub proof fn law_vertex_rules(config: JsonView)
    ensures
        config.get_str("project_id"@) is None ==> vertex_verdict(config) == Err::<bool, AuthError>(
            AuthError::MissingProjectId,
        ),
        config.get_str("project_id"@) matches Some(project) ==> (config.get_str("location"@) matches Some(
            l,
        ) ==> vertex_verdict(config) == Ok::<bool, AuthError>(project.len() > 0 && l.len() > 0)),
        config.get_str("project_id"@) matches Some(project) ==> (config.get_str("location"@) is None
            ==> vertex_verdict(config) == Ok::<bool, AuthError>(project.len() > 0)),
{
    reveal_strlit("us-central1");
}

/// Which credentials file decides an existing login, in order of precedence: the
/// request's own `login_path`; else the file the manager was configured with,
/// whatever the home directory; else `.gemini/auth.json` under `HOME`, else under
/// `USERPROFILE`; with none of these there is no file to check.
pub proof fn law_login_path_precedence(
    config: JsonView,
    auth_file: Option<Seq<char>>,
    home: Option<Seq<char>>,
    profile: Option<Seq<char>>,
)
    ensures
        config.get_str("login_path"@) matches Some(p) ==> login_path_for(
            config,
            auth_file,
            home,
            profile,
        ) == Ok::<Seq<char>, AuthError>(p),
        config.get_str("login_path"@) is None ==> (auth_file matches Some(f) ==> login_path_for(
            config,
            auth_file,
            home,
            profile,
        ) == Ok::<Seq<char>, AuthError>(f)),
        config.get_str("login_path"@) is None && auth_file is None ==> (home matches Some(h)
            ==> login_path_for(config, auth_file, home, profile) == Ok::<Seq<char>, AuthError>(
            path_join(path_join(h, ".gemini"@), "auth.json"@),
        )),
        config.get_str("login_path"@) is None && auth_file is None && home is None ==> (
        profile matches Some(u) ==> login_path_for(config, auth_file, home, profile) == Ok::<
            Seq<char>,
            AuthError,
        >(path_join(path_join(u, ".gemini"@), "auth.json"@))),
        config.get_str("login_path"@) is None && auth_file is None && home is None && profile is None
            ==> login_path_for(config, auth_file, home, profile) == Err::<Seq<char>, AuthError>(
            AuthError::NoHomeDirectory,
        ),
{
}

/// The view of an optional string.
pub open spec fn opt_view(s: Option<String>) -> Option<Seq<char>> {
    match s {
        Some(x) => Some(x@),
        None => None,
    }
}

/// The record kept for a request whose credentials were accepted.
pub open spec fn accepted_info(request: AuthRequest) -> AuthInfo {
    AuthInfo {
        auth_type: request.auth_type,
        config: request.config,
        workspace_path: request.workspace_path,
        authenticated: true,
    }
}

/// Whether the records mark `workspace_id` as authenticated.
pub open spec fn is_authenticated_in(infos: Map<u128, AuthInfo>, workspace_id: u128) -> bool {
    infos.contains_key(workspace_id) && infos[workspace_id].authenticated
}

/// The records after one call of [`AuthManager::authenticate`] whose check gave
/// `validation`: only an accepted check stores a record.
pub open spec fn authenticate_records(
    infos: Map<u128, AuthInfo>,
    workspace_id: u128,
    request: AuthRequest,
    validation: Result<bool, AuthError>,
) -> Map<u128, AuthInfo> {
    match validation {
        Ok(true) => infos.insert(workspace_id, accepted_info(request)),
        _ => infos,
    }
}

/// The records of a manager that started empty and then saw the given calls of
/// [`AuthManager::authenticate`], each a workspace, a request and the check's outcome.
pub open spec fn replay_authentications(
    calls: Seq<(u128, AuthRequest, Result<bool, AuthError>)>,
) -> Map<u128, AuthInfo>
    decreases calls.len(),
{
    if calls.len() == 0 {
        Map::empty()
    } else {
        let last = calls.last();
        authenticate_records(replay_authentications(calls.drop_last()), last.0, last.1, last.2)
    }
}

/// Whether one of the calls accepted the credentials of `workspace_id`.
pub open spec fn accepted_before(
    calls: Seq<(u128, AuthRequest, Result<bool, AuthError>)>,
    workspace_id: u128,
) -> bool {
    exists|i: int|
        0 <= i < calls.len() && (#[trigger] calls[i]).0 == workspace_id && calls[i].2 == Ok::<
            bool,
            AuthError,
        >(true)
}

/// Over any run of authentications from an empty manager, a workspace is
/// authenticated exactly when some call accepted its credentials, and every record
/// kept is marked authenticated and belongs to such a workspace.
pub proof fn law_authenticated_iff_accepted_before(
    calls: Seq<(u128, AuthRequest, Result<bool, AuthError>)>,
    workspace_id: u128,
)
    ensures
        is_authenticated_in(replay_authentications(calls), workspace_id) <==> accepted_before(
            calls,
            workspace_id,
        ),
        replay_authentications(calls).contains_key(workspace_id) ==> replay_authentications(
            calls,
        )[workspace_id].authenticated,
    decreases calls.len(),
{
    if calls.len() > 0 {
        let prefix = calls.drop_last();
        let last = calls.last();
        law_authenticated_iff_accepted_before(prefix, workspace_id);
        if accepted_before(prefix, workspace_id) {
            let i = choose|i: int|
                0 <= i < prefix.len() && (#[trigger] prefix[i]).0 == workspace_id && prefix[i].2
                    == Ok::<bool, AuthError>(true);
            assert(calls[i] == prefix[i]);
        }
        if accepted_before(calls, workspace_id) {
            let i = choose|i: int|
                0 <= i < calls.len() && (#[trigger] calls[i]).0 == workspace_id && calls[i].2
                    == Ok::<bool, AuthError>(true);
            if i < calls.len() - 1 {
                assert(prefix[i] == calls[i]);
            }
        }
        if last.0 == workspace_id && last.2 == Ok::<bool, AuthError>(true) {
            assert(calls[calls.len() - 1] == last);
        }
    }
}

/// Checks API-key settings (see [`api_key_verdict`]).
pub fn validate_gemini_api_key(config: &JsonValue) -> (r: Result<bool, AuthError>)
    ensures
        r == api_key_verdict(config@),
{
    let key = match config.get("api_key") {
        Some(v) => v.as_str(),
        None => None,
    };
    match key {
        None => {
            Err(AuthError::MissingApiKey)
        },
        Some(key) => {
            let n = key.as_str().len();
            if key.as_str().is_empty() || n < 10 {
                Ok(false)
            } else {
                Ok(str_starts_with(key.as_str(), "AI") || n > 20)
            }
        },
    }
}

/// Checks Vertex AI settings (see [`vertex_verdict`]).
pub fn validate_vertex_ai(config: &JsonValue) -> (r: Result<bool, AuthError>)
    ensures
        r == vertex_verdict(config@),
{
    let project = match config.get("project_id") {
        Some(v) => v.as_str(),
        None => None,
    };
    let project = match project {
        Some(p) => p,
        None => {
            return Err(AuthError::MissingProjectId);
        },
    };
    let location_set = match config.get("location") {
        Some(v) => v.as_str(),
        None => None,
    };
    let location_empty = match location_set {
        Some(l) => l.as_str().is_empty(),
        None => {
            let d = "us-central1";
            proof {
                reveal_strlit("us-central1");
            }
            d.is_empty()
        },
    };
    if project.as_str().is_empty() {
        return Ok(false);
    }
    Ok(!project.as_str().is_empty() && !location_empty)
}

/// Keeps the authentication records of the workspaces.
pub struct AuthManager {
    auth_info: HashMap<u128, AuthInfo>,
    config: Config,
}

/// A workspace whose credentials were accepted counts as authenticated afterwards,
/// and its record holds the request's type, settings and path.
pub proof fn law_accepted_means_authenticated(
    before: Map<u128, AuthInfo>,
    workspace_id: u128,
    request: AuthRequest,
)
    ensures
        is_authenticated_in(before.insert(workspace_id, accepted_info(request)), workspace_id),
        before.insert(workspace_id, accepted_info(request))[workspace_id]@ == (AuthInfoView {
            auth_type: request.auth_type,
            config: request.config@,
            workspace_path: request.workspace_path@,
            authenticated: true,
        }),
{
}

/// Recording one workspace's authentication leaves the status of every other
/// workspace as it was.
pub proof fn law_other_workspaces_unaffected(
    before: Map<u128, AuthInfo>,
    workspace_id: u128,
    request: AuthRequest,
    other: u128,
)
    requires
        other != workspace_id,
    ensures
        is_authenticated_in(before.insert(workspace_id, accepted_info(request)), other)
            == is_authenticated_in(before, other),
{
}

/// A workspace without a record is not authenticated; in particular a new manager
/// authenticates no workspace.
pub proof fn law_unknown_not_authenticated(infos: Map<u128, AuthInfo>, workspace_id: u128)
    requires
        !infos.contains_key(workspace_id),
    ensures
        !is_authenticated_in(infos, workspace_id),
        !is_authenticated_in(Map::<u128, AuthInfo>::empty(), workspace_id),
{
}

impl AuthManager {
    /// The records, by workspace.
    pub closed spec fn infos(&self) -> Map<u128, AuthInfo> {
        self.auth_info@
    }

    /// The configuration the manager was made with.
    pub closed spec fn spec_config(&self) -> Config {
        self.config
    }

    /// A manager with no records.
    pub fn new(config: Config) -> (m: AuthManager)
        ensures
            m.infos() == Map::<u128, AuthInfo>::empty(),
            m.spec_config() == config,
    {
        AuthManager { auth_info: HashMap::new(), config }
    }

    /// The configured credentials file, when there is one.
    pub fn auth_file_path(&self) -> (r: Option<&String>)
        ensures
            match r {
                Some(p) => self.spec_config().auth_file == Some(*p),
                None => self.spec_config().auth_file is None,
            },
    {
        match &self.config.auth_file {
            Some(p) => Some(p),
            None => None,
        }
    }

    /// The credentials file that decides an existing-login request (see
    /// [`login_path_for`]); `home` and `profile` are the values of `HOME` and
    /// `USERPROFILE`.
    pub fn login_path(&self, config: &JsonValue, home: Option<String>, profile: Option<String>) -> (r:
        Result<String, AuthError>)
        ensures
            match r {
                Ok(p) => login_path_for(
                    config@,
                    opt_view(self.spec_config().auth_file),
                    opt_view(home),
                    opt_view(profile),
                ) == Ok::<Seq<char>, AuthError>(p@),
                Err(e) => login_path_for(
                    config@,
                    opt_view(self.spec_config().auth_file),
                    opt_view(home),
                    opt_view(profile),
                ) == Err::<Seq<char>, AuthError>(e),
            },
    {
        match config.get("login_path") {
            Some(v) => match v.as_str() {
                Some(p) => {
                    return Ok(p.clone());
                },
                None => {},
            },
            None => {},
        }
        match &self.config.auth_file {
            Some(f) => {
                return Ok(f.clone());
            },
            None => {},
        }
        let dir = match home {
            Some(h) => Some(h),
            None => profile,
        };
        match dir {
            Some(d) => {
                let base = join_path(d.as_str(), ".gemini");
                Ok(join_path(base.as_str(), "auth.json"))
            },
            None => Err(AuthError::NoHomeDirectory),
        }
    }

    /// Checks a request's settings by its type. API keys and Vertex AI settings are
    /// decided here; an existing login is decided by whether the returned
    /// credentials file exists.
    pub fn validate_auth(&self, request: &AuthRequest, home: Option<String>, profile: Option<String>) -> (r:
        Result<AuthCheck, AuthError>)
        ensures
            request.auth_type == AuthType::GeminiApiKey ==> match api_key_verdict(request.config@) {
                Ok(b) => (r matches Ok(AuthCheck::Decided(v)) && v == b),
                Err(e) => r == Err::<AuthCheck, AuthError>(e),
            },
            request.auth_type == AuthType::VertexAi ==> match vertex_verdict(request.config@) {
                Ok(b) => (r matches Ok(AuthCheck::Decided(v)) && v == b),
                Err(e) => r == Err::<AuthCheck, AuthError>(e),
            },
            request.auth_type == AuthType::ExistingLogin ==> match login_path_for(
                request.config@,
                opt_view(self.spec_config().auth_file),
                opt_view(home),
                opt_view(profile),
            ) {
                Ok(p) => (r matches Ok(AuthCheck::CheckLoginFile(f)) && f@ == p),
                Err(e) => r == Err::<AuthCheck, AuthError>(e),
            },
    {
        match request.auth_type {
            AuthType::GeminiApiKey => match validate_gemini_api_key(&request.config) {
                Ok(b) => Ok(AuthCheck::Decided(b)),
                Err(e) => Err(e),
            },
            AuthType::VertexAi => match validate_vertex_ai(&request.config) {
                Ok(b) => Ok(AuthCheck::Decided(b)),
                Err(e) => Err(e),
            },
            AuthType::ExistingLogin => match self.login_path(&request.config, home, profile) {
                Ok(p) => Ok(AuthCheck::CheckLoginFile(p)),
                Err(e) => Err(e),
            },
        }
    }

    /// Records the outcome of checking `request` for `workspace_id`: accepted
    /// credentials are stored as authenticated, replacing any earlier record;
    /// rejected ones leave the records as they were and answer "Authentication
    /// failed"; an error of the check itself is passed on unchanged.
    pub fn authenticate(
        &mut self,
        workspace_id: u128,
        request: AuthRequest,
        validation: Result<bool, AuthError>,
    ) -> (r: Result<AuthResponse, AuthError>)
        ensures
            final(self).spec_config() == old(self).spec_config(),
            final(self).infos() == authenticate_records(
                old(self).infos(),
                workspace_id,
                request,
                validation,
            ),
            validation == Ok::<bool, AuthError>(true) ==> (r matches Ok(resp) && resp.success
                && resp.message@ == "Authentication successful"@),
            validation == Ok::<bool, AuthError>(false) ==> r == Err::<AuthResponse, AuthError>(
                AuthError::AuthenticationFailed,
            ),
            validation matches Err(e) ==> r == Err::<AuthResponse, AuthError>(e),
    {
        match validation {
            Ok(true) => {
                let info = AuthInfo {
                    auth_type: request.auth_type,
                    config: request.config,
                    workspace_path: request.workspace_path,
                    authenticated: true,
                };
                self.auth_info.insert(workspace_id, info);
                Ok(
                    AuthResponse {
                        success: true,
                        message: String::from_str("Authentication successful"),
                    },
                )
            },
            Ok(false) => Err(AuthError::AuthenticationFailed),
            Err(e) => Err(e),
        }
    }

    /// Whether `workspace_id` has an authenticated record.
    pub fn is_authenticated(&self, workspace_id: u128) -> (r: bool)
        ensures
            r == is_authenticated_in(self.infos(), workspace_id),
    {
        match self.auth_info.get(&workspace_id) {
            Some(info) => info.authenticated,
            None => false,
        }
    }

    /// A copy of the record of `workspace_id`, when there is one.
    pub fn get_auth_info(&self, workspace_id: u128) -> (r: Option<AuthInfo>)
        ensures
            match r {
                Some(info) => self.infos().contains_key(workspace_id) && info@ == self.infos()[workspace_id]@,
                None => !self.infos().contains_key(workspace_id),
            },
    {
        match self.auth_info.get(&workspace_id) {
            Some(info) => Some(info.duplicate()),
            None => None,
        }
    }
}

} // verus!
