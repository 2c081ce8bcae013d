//! The connection catalog: named profiles and the backends they point to.

use vstd::prelude::*;
use std::collections::BTreeMap;
use crate::api::{AuthMode, BackendAuth, BackendConfig, LoglineError};
use crate::named::NameMap;

verus! {

/// Limits the runtime applies to runs.
#[derive(Debug, Clone, Copy, PartialEq, Eq, Structural)]
pub struct RuntimePolicy {
    pub max_concurrent_runs: usize,
    pub default_queue_capacity: usize,
    pub stop_grace_seconds: u64,
}

impl Default for RuntimePolicy {
    fn default() -> (r: Self)
        ensures
            r.max_concurrent_runs == 4,
            r.default_queue_capacity == 200,
            r.stop_grace_seconds == 15,
    {
        RuntimePolicy { max_concurrent_runs: 4, default_queue_capacity: 200, stop_grace_seconds: 15 }
    }
}

/// A named way of working against one backend.
#[derive(Debug, Clone)]
pub struct Profile {
    pub id: String,
    pub backend_id: String,
    pub readonly: bool,
}

/// Profiles and backends, each by name.
#[derive(Debug)]
pub struct ConnectionCatalog {
    pub profiles: NameMap<Profile>,
    pub backends: NameMap<BackendConfig>,
}

impl Default for ConnectionCatalog {
    fn default() -> (r: Self)
        ensures
            r.profiles.names().len() == 0,
            r.backends.names().len() == 0,
    {
        ConnectionCatalog { profiles: NameMap::new(), backends: NameMap::new() }
    }
}

/// Does every profile point to a backend of the catalog?
pub open spec fn catalog_consistent(catalog: ConnectionCatalog) -> bool {
    forall|i: int|
        0 <= i < catalog.profiles.values().len() ==> catalog.backends.has(
            #[trigger] catalog.profiles.values()[i].backend_id@,
        )
}

/// Checks that every profile points to an existing backend.
/// The message for the first profile, in name order, that points to a missing backend.
pub open spec fn dangling_text(name: Seq<char>, backend: Seq<char>) -> Seq<char> {
    "profile "@ + name + " points to missing backend "@ + backend
}

pub fn validate_catalog(catalog: &ConnectionCatalog) -> (r: Result<(), LoglineError>)
    ensures
        r is Ok <==> catalog_consistent(*catalog),
        r is Err ==> r->Err_0 is Validation && exists|i: int|
            0 <= i < catalog.profiles.values().len() && !catalog.backends.has(
                #[trigger] catalog.profiles.values()[i].backend_id@,
            ) && (forall|k: int|
                0 <= k < i ==> catalog.backends.has(
                    #[trigger] catalog.profiles.values()[k].backend_id@,
                )) && r->Err_0->Validation_0@ == dangling_text(
                catalog.profiles.names()[i],
                catalog.profiles.values()[i].backend_id@,
            ),
{
    proof {
        reveal_strlit("profile ");
        reveal_strlit(" points to missing backend ");
    }
    proof {
        catalog.profiles.lemma_lengths();
    }
    let mut i: usize = 0;
    while i < catalog.profiles.len()
        invariant
            i <= catalog.profiles.values().len(),
            catalog.profiles.names().len() == catalog.profiles.values().len(),
            forall|k: int|
                0 <= k < i ==> catalog.backends.has(#[trigger] catalog.profiles.values()[k].backend_id@),
        decreases catalog.profiles.values().len() - i,
    {
        let profile = catalog.profiles.value_at(i);
        if !catalog.backends.contains_key(profile.backend_id.as_str()) {
            let msg = String::from_str("profile ").concat(catalog.profiles.name_at(i).as_str()).concat(
                " points to missing backend ",
            ).concat(profile.backend_id.as_str());
            return Err(LoglineError::Validation(msg));
        }
        i = i + 1;
    }
    Ok(())
}

/// A catalog with one local profile on one local backend.
pub fn demo_catalog() -> (r: ConnectionCatalog)
    ensures
        catalog_consistent(r),
        r.profiles.names() == seq!["local"@],
        r.backends.names() == seq!["local-main"@],
        ({
            let p = r.profiles.values()[0];
            &&& r.profiles.values().len() == 1
            &&& p.id@ == "local"@ && p.backend_id@ == "local-main"@ && !p.readonly
        }),
        ({
            let b = r.backends.values()[0];
            &&& r.backends.values().len() == 1
            &&& b.backend_id@ == "local-main"@
            &&& b.base_url@ == "http://127.0.0.1:8787"@
            &&& b.auth.mode == AuthMode::ApiKey
            &&& b.auth.secret_ref@ == "LOGLINE_LOCAL_API_KEY"@
            &&& b.connect_timeout_ms == 2_000
            &&& b.request_timeout_ms == 10_000
        }),
{
    let backend = BackendConfig {
        backend_id: String::from_str("local-main"),
        base_url: String::from_str("http://127.0.0.1:8787"),
        auth: BackendAuth {
            mode: AuthMode::ApiKey,
            secret_ref: String::from_str("LOGLINE_LOCAL_API_KEY"),
        },
        connect_timeout_ms: 2_000,
        request_timeout_ms: 10_000,
        extra_headers: BTreeMap::new(),
    };
    let profile = Profile {
        id: String::from_str("local"),
        backend_id: String::from_str("local-main"),
        readonly: false,
    };
    let ghost backend_id = profile.backend_id@;
    let profiles = NameMap::singleton(String::from_str("local"), profile);
    let backends = NameMap::singleton(String::from_str("local-main"), backend);
    let r = ConnectionCatalog { profiles, backends };
    proof {
        assert(r.profiles.names()[0] == "local"@);
        assert(r.backends.names()[0] == "local-main"@);
        assert(r.backends.names()[0] == backend_id);
    }
    r
}

} // verus!
