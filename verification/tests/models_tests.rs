use igor::config::AppConfig;
use igor::models::{HealthSummary, ManagerRow, Runner, RunnerFilters, RunnerManager};
use igor::session::{AppMode, ResultsViewType};

fn create_test_runner(id: u64, status: &str, manager_status: Option<&str>) -> Runner {
    let managers = match manager_status {
        Some(s) => vec![RunnerManager {
            id: id * 10,
            system_id: format!("host-{}", id),
            created_at: "2024-01-15T10:30:00.000Z".to_string(),
            contacted_at: Some("2024-01-20T14:22:00.000Z".to_string()),
            ip_address: Some("10.0.1.1".to_string()),
            status: s.to_string(),
            version: Some("17.5.0".to_string()),
            revision: None,
            platform: None,
            architecture: None,
        }],
        None => vec![],
    };

    Runner {
        id,
        runner_type: "group_type".to_string(),
        active: true,
        paused: false,
        description: None,
        created_at: Some("2024-01-15T10:30:00.000Z".to_string()),
        ip_address: None,
        is_shared: false,
        status: status.to_string(),
        version: Some("17.5.0".to_string()),
        revision: None,
        tag_list: vec!["alm".to_string()],
        managers,
    }
}

#[test]
fn test_default_config() {
    let config = AppConfig::default();
    assert_eq!(config.poll_interval_secs, 30);
    assert_eq!(config.poll_timeout_secs, 1800);
    assert!(config.gitlab_host.is_none());
    assert!(config.gitlab_token.is_none());
}

#[test]
fn test_manager_clone() {
    let manager = RunnerManager {
        id: 1,
        system_id: "test".to_string(),
        created_at: "2024-01-01T00:00:00Z".to_string(),
        contacted_at: Some("2024-01-02T00:00:00Z".to_string()),
        ip_address: Some("192.168.1.1".to_string()),
        status: "online".to_string(),
        version: Some("17.0.0".to_string()),
        revision: Some("abc123".to_string()),
        platform: Some("linux".to_string()),
        architecture: Some("amd64".to_string()),
    };

    let cloned = manager.clone();
    assert_eq!(manager, cloned);
}

#[test]
fn test_runner_filters_default() {
    let filters = RunnerFilters::default();
    assert!(filters.tag_list.is_none());
    assert!(filters.status.is_none());
    assert!(filters.version_prefix.is_none());
    assert!(filters.runner_type.is_none());
    assert!(filters.paused.is_none());
}

#[test]
fn test_runner_filters_with_tags() {
    let filters = RunnerFilters {
        tag_list: Some(vec!["alm".to_string(), "production".to_string()]),
        status: None,
        version_prefix: None,
        runner_type: None,
        paused: None,
    };

    let tags = filters.tag_list.unwrap();
    assert_eq!(tags.len(), 2);
    assert!(tags.contains(&"alm".to_string()));
}

#[test]
fn test_filter_runners_with_online_managers() {
    let runners = [
        create_test_runner(1, "online", Some("online")),
        create_test_runner(2, "online", Some("offline")),
        create_test_runner(3, "online", None),
    ];

    // Filter for runners with online managers
    let online: Vec<_> = runners
        .iter()
        .filter(|r| {
            r.managers
                .first()
                .map(|m| m.status == "online")
                .unwrap_or(false)
        })
        .collect();

    assert_eq!(online.len(), 1);
    assert_eq!(online[0].id, 1);
}

#[test]
fn test_filter_runners_without_managers() {
    let runners = [
        create_test_runner(1, "online", Some("online")),
        create_test_runner(2, "online", None),
        create_test_runner(3, "never_contacted", None),
    ];

    let empty: Vec<_> = runners.iter().filter(|r| r.managers.is_empty()).collect();

    assert_eq!(empty.len(), 2);
    assert!(empty.iter().any(|r| r.id == 2));
    assert!(empty.iter().any(|r| r.id == 3));
}

#[test]
fn test_health_summary_default() {
    let summary = HealthSummary::default();
    assert_eq!(summary.online_count, 0);
    assert_eq!(summary.total_count, 0);
}

#[test]
fn test_app_mode_default() {
    let mode = AppMode::default();
    assert_eq!(mode, AppMode::CommandSelection);
}

#[test]
fn test_results_view_type_default() {
    let view_type = ResultsViewType::default();
    assert_eq!(view_type, ResultsViewType::Runners);
}

#[test]
fn test_manager_row_creation() {
    let manager = RunnerManager {
        id: 1,
        system_id: "test-host".to_string(),
        created_at: "2024-01-15T10:30:00.000Z".to_string(),
        contacted_at: Some("2024-01-20T14:22:00.000Z".to_string()),
        ip_address: Some("10.0.1.1".to_string()),
        status: "online".to_string(),
        version: Some("17.5.0".to_string()),
        revision: None,
        platform: None,
        architecture: None,
    };

    let row = ManagerRow {
        runner_id: 12345,
        runner_tags: vec!["alm".to_string(), "prod".to_string()],
        manager: manager.clone(),
    };

    assert_eq!(row.runner_id, 12345);
    assert_eq!(row.runner_tags.len(), 2);
    assert_eq!(row.manager.system_id, "test-host");
}
