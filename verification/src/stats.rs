//! Per-workload status for the heartbeat stream and the monitoring
//! endpoints: which local port a workload answers on, what a probe's
//! outcome means, and the records the endpoints serve. Sampling CPU and
//! memory, and the probes themselves, happen outside.

use vstd::prelude::*;

use crate::storage::ProjectConfig;

verus! {

/// One workload's reachability, as reported in a stats sample.
#[derive(Clone)]
pub struct ServiceStatus {
    pub id: String,
    pub name: String,
    pub status: String,
    pub latency_ms: u32,
    pub domains: Vec<String>,
}

/// Seconds between two stats samples on the heartbeat stream.
pub const STATS_INTERVAL_SECS: u64 = 5;

/// Build one workload's status from its config and the outcome of a TCP
/// probe: a connect that took some milliseconds means `UP` with that
/// latency, a failed connect means `DOWN` with none. The display name is
/// the first domain, or `unknown` without one.
pub fn service_status(project: &ProjectConfig, probe_latency_ms: Option<u32>) -> (r: ServiceStatus)
    ensures
        r.id@ == project.id@,
        r.domains@.len() == project.domains@.len(),
        forall|i: int| 0 <= i < r.domains@.len() ==> r.domains@[i]@ == project.domains@[i]@,
        project.domains@.len() > 0 ==> r.name@ == project.domains@[0]@,
        project.domains@.len() == 0 ==> r.name@ == "unknown"@,
        probe_latency_ms matches Some(ms) ==> r.status@ == "UP"@ && r.latency_ms == ms,
        probe_latency_ms is None ==> r.status@ == "DOWN"@ && r.latency_ms == 0,
{
    let name = if project.domains.len() > 0 {
        project.domains[0].clone()
    } else {
        String::from_str("unknown")
    };
    let (status, latency_ms) = match probe_latency_ms {
        Some(ms) => (String::from_str("UP"), ms),
        None => (String::from_str("DOWN"), 0u32),
    };
    let mut domains: Vec<String> = Vec::new();
    let n = project.domains.len();
    for i in 0..n
        invariant
            n == project.domains@.len(),
            domains@.len() == i,
            forall|j: int| 0 <= j < i ==> domains@[j]@ == project.domains@[j]@,
    {
        domains.push(project.domains[i].clone());
    }
    ServiceStatus { id: project.id.clone(), name, status, latency_ms, domains }
}

/// One project's supervision state, as the monitoring endpoint reports
/// it.
pub struct ProjectStatus {
    pub status: String,
    pub active: bool,
}

/// Interpret the supervisor's state string: the project is active
/// exactly when the supervisor says `active`.
pub fn project_status_from_unit(status: String) -> (r: ProjectStatus)
    ensures
        r.status@ == status@,
        r.active <==> status@ == "active"@,
{
    let active = crate::text::str_eq(status.as_str(), "active");
    ProjectStatus { status, active }
}

/// A page of log lines.
pub struct LogsResponse {
    pub logs: Vec<String>,
}

/// How many log lines a request asks for.
pub struct LogsQuery {
    pub limit: usize,
}

/// The default number of log lines served.
pub fn default_limit() -> (r: usize)
    ensures
        r == 100,
{
    100
}

} // verus!
