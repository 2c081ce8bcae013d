//! The built-in backend connector and its factory.

use vstd::prelude::*;
use std::collections::BTreeMap;
use crate::api::{
    BackendCapabilities, BackendConfig, BackendConnector, ConnectorFactory, DomainEvent,
    EventCursor, ExecutionResult, Intent, LoglineError, RunId, SecretStore,
};
use crate::number::decimal;

verus! {

/// Relies on `SystemTime::now`: milliseconds since the epoch, 0 before it.
#[verifier::external_body]
fn now_ms() -> u64 {
    std::time::SystemTime::now().duration_since(std::time::UNIX_EPOCH).map_or(0, |d| d.as_millis() as u64)
}

/// A connector that accepts every intent and reports a heartbeat as its event stream.
pub struct HttpLikeConnector {
    id: String,
    base_url: String,
}

impl HttpLikeConnector {
    pub fn new(id: String, base_url: String) -> (r: Self)
        ensures
            r.connector_id() == id,
            r.target() == base_url,
    {
        HttpLikeConnector { id, base_url }
    }

    pub closed spec fn connector_id(&self) -> String {
        self.id
    }

    pub closed spec fn target(&self) -> String {
        self.base_url
    }
}

impl BackendConnector for HttpLikeConnector {
    fn id(&self) -> &str {
        self.id.as_str()
    }

    fn capabilities(&self) -> BackendCapabilities {
        BackendCapabilities { supports_streaming: true, supports_write: true, supports_history: true }
    }

    fn health(&self) -> Result<(), LoglineError> {
        if self.base_url.unicode_len() == 0 {
            return Err(LoglineError::Connection(String::from_str("base_url is empty")));
        }
        Ok(())
    }

    fn execute(&self, intent: &Intent) -> Result<ExecutionResult, LoglineError> {
        let run_id = String::from_str("run-").concat(decimal(now_ms()).as_str());
        let mut output: BTreeMap<String, String> = BTreeMap::new();
        output.insert(String::from_str("backend"), self.id.clone());
        output.insert(String::from_str("intent_type"), intent.intent_type.clone());
        output.insert(String::from_str("target"), self.base_url.clone());
        Ok(ExecutionResult { run_id, status: String::from_str("accepted"), output })
    }

    fn stop(&self, _run_id: &RunId) -> Result<(), LoglineError> {
        Ok(())
    }

    fn events_since(&self, cursor: Option<&EventCursor>) -> Result<Vec<DomainEvent>, LoglineError> {
        let now = now_ms();
        let since = match cursor {
            Some(c) => c.clone(),
            None => String::from_str("none"),
        };
        let mut attributes: BTreeMap<String, String> = BTreeMap::new();
        attributes.insert(String::from_str("backend"), self.id.clone());
        attributes.insert(String::from_str("since"), since);
        let ts: i64 = if now <= i64::MAX as u64 {
            now as i64
        } else {
            i64::MAX
        };
        let event = DomainEvent {
            cursor: decimal(now),
            ts_unix_ms: ts,
            kind: String::from_str("heartbeat"),
            run_id: None,
            attributes,
        };
        Ok(vec![event])
    }
}

/// Builds an `HttpLikeConnector` for every backend.
#[derive(Default)]
pub struct DefaultConnectorFactory;

impl ConnectorFactory for DefaultConnectorFactory {
    fn build(
        &self,
        cfg: &BackendConfig,
        _secrets: &dyn SecretStore,
    ) -> Result<Box<dyn BackendConnector>, LoglineError> {
        let connector = HttpLikeConnector::new(cfg.backend_id.clone(), cfg.base_url.clone());
        Ok(Box::new(connector))
    }
}

} // verus!
