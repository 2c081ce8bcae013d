//! The runtime: one connector per backend, and the active profile.

use vstd::prelude::*;
use crate::api::{
    BackendConnector, ConnectorFactory, DomainEvent, EventCursor, ExecutionResult, Intent,
    LoglineError, RunId, RuntimeStatus, SecretStore,
};
use crate::catalog::{catalog_consistent, dangling_text, validate_catalog, ConnectionCatalog};
use crate::connectors::DefaultConnectorFactory;
use crate::named::NameMap;

verus! {

/// A runtime over a validated catalog.
pub struct LoglineRuntime {
    catalog: ConnectionCatalog,
    connectors: NameMap<Box<dyn BackendConnector>>,
    active_profile: String,
    active_backend: String,
    running_jobs: usize,
}

fn not_loaded(backend_id: &str) -> (r: LoglineError)
    ensures
        r is NotFound,
{
    LoglineError::NotFound(String::from_str("backend ").concat(backend_id).concat(" not loaded"))
}

impl LoglineRuntime {
    pub closed spec fn active_profile_name(&self) -> Seq<char> {
        self.active_profile@
    }

    pub closed spec fn active_backend_name(&self) -> Seq<char> {
        self.active_backend@
    }

    /// Does the catalog have a profile of this name?
    pub closed spec fn knows_profile(&self, name: Seq<char>) -> bool {
        self.catalog.profiles.has(name)
    }

    /// Is a connector loaded for the backend of this name?
    pub closed spec fn has_connector(&self, name: Seq<char>) -> bool {
        self.connectors.has(name)
    }

    /// A runtime with the built-in connector factory.
    pub fn from_catalog(catalog: ConnectionCatalog, secrets: &dyn SecretStore) -> (r: Result<
        Self,
        LoglineError,
    >)
        ensures
            !catalog_consistent(catalog) ==> r is Err && r->Err_0 is Validation && exists|i: int|
                0 <= i < catalog.profiles.values().len() && !catalog.backends.has(
                    #[trigger] catalog.profiles.values()[i].backend_id@,
                ) && r->Err_0->Validation_0@ == dangling_text(
                    catalog.profiles.names()[i],
                    catalog.profiles.values()[i].backend_id@,
                ),
            catalog.profiles.names().len() == 0 ==> r is Err,
            r is Ok ==> r->Ok_0.active_profile_name() == catalog.profiles.names()[0]
                && r->Ok_0.active_backend_name() == catalog.profiles.values()[0].backend_id@,
    {
        validate_catalog(&catalog)?;
        let factory = DefaultConnectorFactory;
        LoglineRuntime::from_catalog_with_factory(catalog, &factory, secrets)
    }

    /// A runtime whose connectors the factory builds, one per backend. The active
    /// profile is the first by name, and the active backend the one it points to.
    pub fn from_catalog_with_factory(
        catalog: ConnectionCatalog,
        factory: &dyn ConnectorFactory,
        secrets: &dyn SecretStore,
    ) -> (r: Result<Self, LoglineError>)
        ensures
            !catalog_consistent(catalog) ==> r is Err && r->Err_0 is Validation && exists|i: int|
                0 <= i < catalog.profiles.values().len() && !catalog.backends.has(
                    #[trigger] catalog.profiles.values()[i].backend_id@,
                ) && r->Err_0->Validation_0@ == dangling_text(
                    catalog.profiles.names()[i],
                    catalog.profiles.values()[i].backend_id@,
                ),
            catalog.profiles.names().len() == 0 ==> r is Err,
            r is Ok ==> r->Ok_0.active_profile_name() == catalog.profiles.names()[0]
                && r->Ok_0.active_backend_name() == catalog.profiles.values()[0].backend_id@,
    {
        validate_catalog(&catalog)?;
        let mut connectors: NameMap<Box<dyn BackendConnector>> = NameMap::new();
        let mut i: usize = 0;
        while i < catalog.backends.len()
            invariant
                i <= catalog.backends.names().len(),
                catalog_consistent(catalog),
            decreases catalog.backends.names().len() - i,
        {
            proof {
                catalog.backends.lemma_lengths();
            }
            let connector = factory.build(catalog.backends.value_at(i), secrets)?;
            connectors.insert(catalog.backends.name_at(i).clone(), connector);
            i = i + 1;
        }
        proof {
            catalog.profiles.lemma_lengths();
        }
        if catalog.profiles.len() == 0 {
            return Err(LoglineError::Validation(String::from_str("no profiles configured")));
        }
        let active_profile = catalog.profiles.name_at(0).clone();
        let active_backend = catalog.profiles.value_at(0).backend_id.clone();
        Ok(LoglineRuntime { catalog, connectors, active_profile, active_backend, running_jobs: 0 })
    }

    pub fn status(&self) -> (r: RuntimeStatus)
        ensures
            r.active_profile@ == self.active_profile_name(),
            r.active_backend@ == self.active_backend_name(),
            r.queue_depth == 0,
    {
        RuntimeStatus {
            active_profile: self.active_profile.clone(),
            active_backend: self.active_backend.clone(),
            running_jobs: self.running_jobs,
            queue_depth: 0,
        }
    }

    fn active_connector(&self) -> (r: Result<&Box<dyn BackendConnector>, LoglineError>)
        ensures
            r is Err ==> r->Err_0 is NotFound,
    {
        match self.connectors.get(self.active_backend.as_str()) {
            Some(c) => Ok(c),
            None => Err(not_loaded(self.active_backend.as_str())),
        }
    }

    /// Sends an intent to the active backend.
    pub fn run_intent(&self, intent: Intent) -> Result<ExecutionResult, LoglineError> {
        let connector = self.active_connector()?;
        connector.execute(&intent)
    }

    /// Stops a run on the active backend.
    pub fn stop_run(&self, run_id: RunId) -> Result<(), LoglineError> {
        let connector = self.active_connector()?;
        connector.stop(&run_id)
    }

    /// Events of the active backend after `cursor`.
    pub fn events_since(&self, cursor: Option<EventCursor>) -> Result<Vec<DomainEvent>, LoglineError> {
        let connector = self.active_connector()?;
        let c = match &cursor {
            Some(s) => Some(s),
            None => None,
        };
        connector.events_since(c)
    }

    /// Checks the health of one loaded backend.
    pub fn test_backend(&self, backend_id: String) -> (r: Result<(), LoglineError>)
        ensures
            !self.has_connector(backend_id@) ==> r is Err && r->Err_0 is NotFound,
    {
        match self.connectors.get(backend_id.as_str()) {
            Some(c) => c.health(),
            None => Err(not_loaded(backend_id.as_str())),
        }
    }

    /// Makes a profile active, with the backend it points to, if that backend is loaded.
    pub fn select_profile(&mut self, profile_id: String) -> (r: Result<(), LoglineError>)
        ensures
            !old(self).knows_profile(profile_id@) ==> r is Err && r->Err_0 is NotFound,
            r is Err ==> final(self).active_profile_name() == old(self).active_profile_name()
                && final(self).active_backend_name() == old(self).active_backend_name(),
            r is Ok ==> final(self).active_profile_name() == profile_id@,
    {
        let backend_id = match self.catalog.profiles.get(profile_id.as_str()) {
            Some(p) => p.backend_id.clone(),
            None => {
                return Err(
                    LoglineError::NotFound(
                        String::from_str("profile ").concat(profile_id.as_str()).concat(" not found"),
                    ),
                );
            },
        };
        if !self.connectors.contains_key(backend_id.as_str()) {
            return Err(not_loaded(backend_id.as_str()));
        }
        self.active_profile = profile_id;
        self.active_backend = backend_id;
        Ok(())
    }
}

} // verus!
