use igor::models::{Runner, RunnerFilters, RunnerManager};
use igor::views::{
    apply_client_filters, check_runner_statuses, detect_rotating_runners, flatten_manager_rows,
    health_summary, list_offline_runners, list_runners_without_managers, uncontacted_runners,
    UNCONTACTED_THRESHOLD_SECS,
};

fn manager(id: u64, status: &str, contacted_at: Option<&str>) -> RunnerManager {
    RunnerManager {
        id,
        system_id: format!("host-{}", id),
        created_at: "2024-01-15T10:30:00.000Z".to_string(),
        contacted_at: contacted_at.map(|s| s.to_string()),
        ip_address: None,
        status: status.to_string(),
        version: Some("17.5.0".to_string()),
        revision: None,
        platform: None,
        architecture: None,
    }
}

fn runner(id: u64, tags: &[&str], managers: Vec<RunnerManager>) -> Runner {
    Runner {
        id,
        runner_type: "group_type".to_string(),
        active: true,
        paused: false,
        description: None,
        created_at: None,
        ip_address: None,
        is_shared: false,
        status: "online".to_string(),
        version: Some("17.5.0".to_string()),
        revision: None,
        tag_list: tags.iter().map(|t| t.to_string()).collect(),
        managers,
    }
}

#[test]
fn offline_takes_runners_whose_first_manager_is_not_online() {
    let rs = vec![
        runner(1, &[], vec![manager(10, "online", None)]),
        runner(2, &[], vec![manager(20, "offline", None)]),
        runner(3, &[], vec![manager(30, "stale", None)]),
    ];
    let offline = list_offline_runners(rs);
    let ids: Vec<u64> = offline.iter().map(|r| r.id).collect();
    assert_eq!(ids, vec![2, 3]);
}

#[test]
fn runners_with_zero_managers_are_not_offline_not_uncontacted_but_without_managers() {
    let rs = vec![runner(1, &[], vec![])];
    assert!(list_offline_runners(rs.clone()).is_empty());
    assert!(uncontacted_runners(rs.clone(), UNCONTACTED_THRESHOLD_SECS, 1_000_000).is_empty());
    let empty = list_runners_without_managers(rs);
    assert_eq!(empty.len(), 1);
    assert_eq!(empty[0].id, 1);
}

#[test]
fn rotating_takes_exactly_the_runners_with_more_than_one_manager() {
    let rs = vec![
        runner(1, &[], vec![]),
        runner(2, &[], vec![manager(20, "online", None)]),
        runner(
            3,
            &[],
            vec![manager(30, "offline", None), manager(31, "online", None)],
        ),
    ];
    let rotating = detect_rotating_runners(rs);
    assert_eq!(rotating.len(), 1);
    assert_eq!(rotating[0].id, 3);
}

#[test]
fn rotating_runner_with_offline_first_manager_is_also_offline() {
    // Two managers: the old host offline, the new one online. The runner
    // is mid-rotation, and the offline view judges the first manager.
    let rs = vec![runner(
        1,
        &[],
        vec![manager(10, "offline", None), manager(11, "online", None)],
    )];
    let rotating = detect_rotating_runners(rs.clone());
    assert_eq!(rotating.len(), 1);
    let offline = list_offline_runners(rs);
    assert_eq!(offline.len(), 1);
    assert_eq!(offline[0].id, 1);
}

#[test]
fn uncontacted_includes_missing_unparseable_and_stale_timestamps() {
    // "1970-01-01T01:00:00Z" is epoch second 3600.
    let rs = vec![
        runner(1, &[], vec![manager(10, "online", Some("1970-01-01T01:00:00Z"))]),
        runner(2, &[], vec![manager(20, "online", None)]),
        runner(3, &[], vec![manager(30, "online", Some("not a timestamp"))]),
        runner(4, &[], vec![]),
    ];
    // At 3600 + 3601 the first runner's silence exceeds the threshold.
    let stale = uncontacted_runners(rs.clone(), 3600, 3600 + 3601);
    let ids: Vec<u64> = stale.iter().map(|r| r.id).collect();
    assert_eq!(ids, vec![1, 2, 3]);
    // At 3600 + 3600 it does not (strictly greater is required).
    let fresh = uncontacted_runners(rs, 3600, 3600 + 3600);
    let ids: Vec<u64> = fresh.iter().map(|r| r.id).collect();
    assert_eq!(ids, vec![2, 3]);
}

#[test]
fn health_summary_counts_first_manager_online() {
    let rs = vec![
        runner(1, &[], vec![manager(10, "online", None)]),
        runner(2, &[], vec![manager(20, "offline", None), manager(21, "online", None)]),
        runner(3, &[], vec![]),
    ];
    let h = health_summary(&rs);
    assert_eq!(h.online_count, 1);
    assert_eq!(h.total_count, 3);
    assert!(!h.is_healthy());
    let counts = check_runner_statuses(&rs);
    assert_eq!(counts, (1, 3));
}

#[test]
fn health_summary_is_healthy_iff_all_online_and_nonempty() {
    let all = vec![
        runner(1, &[], vec![manager(10, "online", None)]),
        runner(2, &[], vec![manager(20, "online", None)]),
    ];
    let h = health_summary(&all);
    assert_eq!(h.online_count, 2);
    assert_eq!(h.total_count, 2);
    assert!(h.is_healthy());
    let none: Vec<Runner> = vec![];
    let h = health_summary(&none);
    assert_eq!(h.online_count, 0);
    assert_eq!(h.total_count, 0);
    assert!(!h.is_healthy());
}

#[test]
fn empty_filter_bundle_keeps_every_runner() {
    let rs = vec![
        runner(1, &["alm"], vec![]),
        runner(2, &[], vec![manager(20, "online", None)]),
    ];
    let kept = apply_client_filters(rs.clone(), &RunnerFilters::default());
    assert_eq!(kept.len(), 2);
    assert_eq!(kept[0].id, 1);
    assert_eq!(kept[1].id, 2);
    // An explicitly empty tag set asks for nothing either.
    let filters = RunnerFilters { tag_list: Some(vec![]), ..RunnerFilters::default() };
    let kept = apply_client_filters(rs, &filters);
    assert_eq!(kept.len(), 2);
}

#[test]
fn tag_filter_keeps_runners_whose_tags_intersect() {
    let rs = vec![
        runner(1, &["alm", "linux"], vec![]),
        runner(2, &["windows"], vec![]),
        runner(3, &[], vec![]),
    ];
    let filters = RunnerFilters {
        tag_list: Some(vec!["linux".to_string(), "mac".to_string()]),
        ..RunnerFilters::default()
    };
    let kept = apply_client_filters(rs, &filters);
    assert_eq!(kept.len(), 1);
    assert_eq!(kept[0].id, 1);
}

#[test]
fn version_prefix_filter_keeps_matching_versions_only() {
    let mut old = runner(2, &[], vec![]);
    old.version = Some("16.11.1".to_string());
    let mut unknown = runner(3, &[], vec![]);
    unknown.version = None;
    let rs = vec![runner(1, &[], vec![]), old, unknown];
    let filters = RunnerFilters {
        version_prefix: Some("17.".to_string()),
        ..RunnerFilters::default()
    };
    let kept = apply_client_filters(rs, &filters);
    assert_eq!(kept.len(), 1);
    assert_eq!(kept[0].id, 1);
}

#[test]
fn manager_rows_flatten_every_pair_in_order() {
    let rs = vec![
        runner(1, &["alm"], vec![manager(10, "online", None), manager(11, "offline", None)]),
        runner(2, &["prod"], vec![]),
        runner(3, &[], vec![manager(30, "online", None)]),
    ];
    let rows = flatten_manager_rows(rs);
    assert_eq!(rows.len(), 3);
    assert_eq!(rows[0].runner_id, 1);
    assert_eq!(rows[0].manager.id, 10);
    assert_eq!(rows[0].runner_tags, vec!["alm".to_string()]);
    assert_eq!(rows[1].runner_id, 1);
    assert_eq!(rows[1].manager.id, 11);
    assert_eq!(rows[2].runner_id, 3);
    assert_eq!(rows[2].manager.id, 30);
    assert!(rows[2].runner_tags.is_empty());
}
