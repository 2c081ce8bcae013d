//! Shared data types and service interfaces of the runtime, its connectors and
//! its control surfaces.

use vstd::prelude::*;
use std::collections::BTreeMap;

verus! {

pub type ProfileId = String;

pub type BackendId = String;

pub type RunId = String;

pub type EventCursor = String;

/// How a backend authenticates requests.
#[derive(Debug, Clone, Copy, PartialEq, Eq, Structural)]
pub enum AuthMode {
    ApiKey,
    Bearer,
    Mtls,
}

#[derive(Debug, Clone)]
pub struct BackendAuth {
    pub mode: AuthMode,
    /// Name under which the secret is looked up.
    pub secret_ref: String,
}

#[derive(Debug, Clone)]
pub struct BackendConfig {
    pub backend_id: BackendId,
    pub base_url: String,
    pub auth: BackendAuth,
    pub connect_timeout_ms: u64,
    pub request_timeout_ms: u64,
    pub extra_headers: BTreeMap<String, String>,
}

#[derive(Debug, Clone, Copy, PartialEq, Eq, Structural)]
pub struct BackendCapabilities {
    pub supports_streaming: bool,
    pub supports_write: bool,
    pub supports_history: bool,
}

#[derive(Debug, Clone)]
pub struct Intent {
    pub intent_type: String,
    pub payload: BTreeMap<String, String>,
}

#[derive(Debug, Clone)]
pub struct ExecutionResult {
    pub run_id: RunId,
    pub status: String,
    pub output: BTreeMap<String, String>,
}

#[derive(Debug, Clone)]
pub struct RuntimeStatus {
    pub active_profile: ProfileId,
    pub active_backend: BackendId,
    pub running_jobs: usize,
    pub queue_depth: usize,
}

#[derive(Debug, Clone)]
pub struct DomainEvent {
    pub cursor: EventCursor,
    pub ts_unix_ms: i64,
    pub kind: String,
    pub run_id: Option<RunId>,
    pub attributes: BTreeMap<String, String>,
}

/// Errors of the runtime and its connectors.
#[derive(Debug, Clone)]
pub enum LoglineError {
    Validation(String),
    Auth(String),
    Connection(String),
    Conflict(String),
    NotFound(String),
    Internal(String),
}

impl LoglineError {
    /// The message, prefixed by the kind of error.
    pub fn message(&self) -> String {
        let (prefix, text) = match self {
            LoglineError::Validation(m) => ("validation error: ", m),
            LoglineError::Auth(m) => ("authentication error: ", m),
            LoglineError::Connection(m) => ("connection error: ", m),
            LoglineError::Conflict(m) => ("conflict error: ", m),
            LoglineError::NotFound(m) => ("not found: ", m),
            LoglineError::Internal(m) => ("internal error: ", m),
        };
        String::from_str(prefix).concat(text.as_str())
    }
}

/// Looks secrets up by reference.
pub trait SecretStore {
    fn get(&self, secret_ref: &str) -> Result<String, LoglineError>;
}

/// A backend the runtime can send intents to.
pub trait BackendConnector {
    fn id(&self) -> &str;

    fn capabilities(&self) -> BackendCapabilities;

    fn health(&self) -> Result<(), LoglineError>;

    fn execute(&self, intent: &Intent) -> Result<ExecutionResult, LoglineError>;

    fn stop(&self, run_id: &RunId) -> Result<(), LoglineError>;

    fn events_since(&self, cursor: Option<&EventCursor>) -> Result<Vec<DomainEvent>, LoglineError>;
}

/// Builds connectors from backend configuration.
pub trait ConnectorFactory {
    fn build(
        &self,
        cfg: &BackendConfig,
        secrets: &dyn SecretStore,
    ) -> Result<Box<dyn BackendConnector>, LoglineError>;
}

/// The runtime as its control surfaces see it.
pub trait RuntimeEngine {
    fn status(&self) -> Result<RuntimeStatus, LoglineError>;

    fn run_intent(&self, intent: Intent) -> Result<ExecutionResult, LoglineError>;

    fn stop_run(&self, run_id: RunId) -> Result<(), LoglineError>;

    fn events_since(&self, cursor: Option<EventCursor>) -> Result<Vec<DomainEvent>, LoglineError>;

    fn test_backend(&self, backend_id: BackendId) -> Result<(), LoglineError>;

    fn select_profile(&self, profile_id: ProfileId) -> Result<(), LoglineError>;
}

} // verus!
