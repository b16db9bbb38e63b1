//! Data model: runners, their host managers, filter bundles, and the small
//! derived records (health summary, flattened manager rows).

use vstd::prelude::*;

verus! {

/// A host process reporting as the execution backend of a runner.
/// The parent runner's manager list owns it; order is API-supplied.
#[derive(Debug, Clone, PartialEq)]
pub struct RunnerManager {
    pub id: u64,
    pub system_id: String,
    pub created_at: String,
    pub contacted_at: Option<String>,
    pub ip_address: Option<String>,
    pub status: String,
    pub version: Option<String>,
    pub revision: Option<String>,
    pub platform: Option<String>,
    pub architecture: Option<String>,
}

/// A registered CI build agent, as assembled by one aggregation pass.
#[derive(Debug, Clone, PartialEq)]
pub struct Runner {
    pub id: u64,
    pub runner_type: String,
    pub active: bool,
    pub paused: bool,
    pub description: Option<String>,
    pub created_at: Option<String>,
    pub ip_address: Option<String>,
    pub is_shared: bool,
    pub status: String,
    pub version: Option<String>,
    pub revision: Option<String>,
    pub tag_list: Vec<String>,
    pub managers: Vec<RunnerManager>,
}

/// Optional predicate bundle for a runner query. Status, type and paused
/// are served by the transport; the tag set and version prefix are applied
/// client-side after full aggregation.
#[derive(Debug, Clone, PartialEq)]
pub struct RunnerFilters {
    pub tag_list: Option<Vec<String>>,
    pub status: Option<String>,
    pub version_prefix: Option<String>,
    pub runner_type: Option<String>,
    pub paused: Option<bool>,
}

impl Default for RunnerFilters {
    /// The empty bundle: no filter at all.
    fn default() -> (f: RunnerFilters)
        ensures
            f.tag_list is None,
            f.status is None,
            f.version_prefix is None,
            f.runner_type is None,
            f.paused is None,
    {
        RunnerFilters {
            tag_list: None,
            status: None,
            version_prefix: None,
            runner_type: None,
            paused: None,
        }
    }
}

/// An account record as the remote API reports it.
#[derive(Debug, Clone, PartialEq)]
pub struct User {
    pub username: String,
    pub name: String,
    pub avatar_url: Option<String>,
    pub bot: bool,
    pub can_create_group: bool,
    pub can_create_project: bool,
    pub last_sign_in_at: Option<String>,
    pub locked: bool,
    pub state: String,
}

/// Online/total ratio derived from first-manager status across a
/// runner collection.
#[derive(Debug, Clone, PartialEq)]
pub struct HealthSummary {
    pub online_count: usize,
    pub total_count: usize,
}

impl Default for HealthSummary {
    /// The empty summary: nothing seen, nothing online.
    fn default() -> (h: HealthSummary)
        ensures
            h.online_count == 0,
            h.total_count == 0,
    {
        HealthSummary { online_count: 0, total_count: 0 }
    }
}

impl HealthSummary {
    /// A collection is healthy exactly when every runner is online and
    /// there is at least one runner: an empty result set is never healthy.
    pub fn is_healthy(&self) -> (healthy: bool)
        ensures
            healthy == (self.online_count == self.total_count && self.total_count > 0),
    {
        self.online_count == self.total_count && self.total_count > 0
    }
}

/// One row per (runner, manager) pair: every runner's manager list
/// flattened, carrying the parent runner's id and tags alongside.
#[derive(Debug, Clone)]
pub struct ManagerRow {
    pub runner_id: u64,
    pub runner_tags: Vec<String>,
    pub manager: RunnerManager,
}

} // verus!
