//! Health and readiness reports.
use vstd::prelude::*;
use vstd::string::StringExecFns;
use crate::api::ErrorResponse;

verus! {

/// Status of the service or of one component.
#[derive(Debug, Clone, Copy, PartialEq, Eq, Structural)]
pub enum ServiceStatus {
    Healthy,
    Degraded,
    Unhealthy,
}

/// Health of one component, with the error that made it unhealthy.
#[derive(Debug, Clone, PartialEq, Eq)]
pub struct ComponentHealth {
    pub name: String,
    pub status: ServiceStatus,
    pub error: Option<String>,
}

impl ComponentHealth {
    pub fn healthy(name: &str) -> (r: ComponentHealth)
        ensures
            r.name@ == name@,
            r.status == ServiceStatus::Healthy,
            r.error.is_none(),
    {
        ComponentHealth { name: String::from_str(name), status: ServiceStatus::Healthy, error: None }
    }

    pub fn unhealthy(name: &str, error: &str) -> (r: ComponentHealth)
        ensures
            r.name@ == name@,
            r.status == ServiceStatus::Unhealthy,
            r.error.is_some() && r.error.unwrap()@ == error@,
    {
        ComponentHealth {
            name: String::from_str(name),
            status: ServiceStatus::Unhealthy,
            error: Some(String::from_str(error)),
        }
    }
}

/// Overall status, version and component list.
#[derive(Debug, Clone)]
pub struct HealthResponse {
    pub status: ServiceStatus,
    pub version: String,
    pub components: Vec<ComponentHealth>,
}

/// What the health endpoints report about the service itself.
#[derive(Debug, Clone)]
pub struct HealthState {
    pub version: String,
}

impl HealthState {
    pub fn new(version: String) -> (r: HealthState)
        ensures
            r.version == version,
    {
        HealthState { version }
    }
}

fn storage_component(storage: &Result<(), String>) -> (r: ComponentHealth)
    ensures
        r.name@ == "storage"@,
        storage.is_ok() ==> r.status == ServiceStatus::Healthy && r.error.is_none(),
        storage.is_err() ==> r.status == ServiceStatus::Unhealthy && r.error == Some(
            storage->Err_0,
        ),
{
    match storage {
        Ok(()) => ComponentHealth::healthy("storage"),
        Err(e) => ComponentHealth {
            name: String::from_str("storage"),
            status: ServiceStatus::Unhealthy,
            error: Some(e.clone()),
        },
    }
}

/// Full health report from the outcome of the storage check: a failed storage
/// check degrades the service.
pub fn health_report(state: &HealthState, storage: &Result<(), String>) -> (r: HealthResponse)
    ensures
        r.version == state.version,
        r.status == (if storage.is_ok() {
            ServiceStatus::Healthy
        } else {
            ServiceStatus::Degraded
        }),
        r.components@.len() == 1,
        r.components@[0].name@ == "storage"@,
        storage.is_ok() ==> r.components@[0].status == ServiceStatus::Healthy,
        storage.is_err() ==> r.components@[0].status == ServiceStatus::Unhealthy
            && r.components@[0].error == Some(storage->Err_0),
{
    let mut components: Vec<ComponentHealth> = Vec::new();
    components.push(storage_component(storage));
    let status = if storage.is_ok() {
        ServiceStatus::Healthy
    } else {
        ServiceStatus::Degraded
    };
    HealthResponse { status, version: state.version.clone(), components }
}

/// Readiness report from the outcome of the storage check: ready only when
/// storage is healthy, otherwise the `unhealthy` error response.
pub fn readiness_report(state: &HealthState, storage: &Result<(), String>) -> (r: Result<
    HealthResponse,
    ErrorResponse,
>)
    ensures
        storage.is_ok() <==> r.is_ok(),
        r.is_ok() ==> r->Ok_0.status == ServiceStatus::Healthy && r->Ok_0.version
            == state.version && r->Ok_0.components@.len() == 1
            && r->Ok_0.components@[0].name@ == "storage"@
            && r->Ok_0.components@[0].status == ServiceStatus::Healthy,
        r.is_err() ==> r->Err_0.code@ == "unhealthy"@ && r->Err_0.message@
            == "Service is unhealthy"@ && r->Err_0.details.is_none(),
{
    if storage.is_ok() {
        let mut components: Vec<ComponentHealth> = Vec::new();
        components.push(storage_component(storage));
        Ok(HealthResponse { status: ServiceStatus::Healthy, version: state.version.clone(), components })
    } else {
        Err(ErrorResponse::new("unhealthy", "Service is unhealthy"))
    }
}

} // verus!
