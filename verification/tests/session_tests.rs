use igor::config::AppConfig;
use igor::models::{Runner, RunnerManager};
use igor::session::{
    command_at, run_command, App, AppMode, Command, KeyAction, KeyInput, ResultsViewType,
    COMMAND_COUNT,
};

fn manager(id: u64, status: &str) -> RunnerManager {
    RunnerManager {
        id,
        system_id: format!("host-{}", id),
        created_at: "2024-01-15T10:30:00.000Z".to_string(),
        contacted_at: None,
        ip_address: None,
        status: status.to_string(),
        version: None,
        revision: None,
        platform: None,
        architecture: None,
    }
}

fn runner(id: u64, managers: Vec<RunnerManager>) -> Runner {
    Runner {
        id,
        runner_type: "group_type".to_string(),
        active: true,
        paused: false,
        description: None,
        created_at: None,
        ip_address: None,
        is_shared: false,
        status: "online".to_string(),
        version: None,
        revision: None,
        tag_list: vec!["alm".to_string()],
        managers,
    }
}

fn fresh_app() -> App {
    App::new(AppConfig::default())
}

#[test]
fn new_session_starts_in_command_selection() {
    let app = fresh_app();
    assert_eq!(app.mode, AppMode::CommandSelection);
    assert!(!app.should_quit);
    assert!(app.runners.is_empty());
    assert!(app.manager_rows.is_empty());
    assert!(app.health_summary.is_none());
    assert_eq!(app.selected_command_index, 0);
    assert!(app.input_buffer.is_empty());
    assert!(app.table_selected.is_none());
    assert!(!app.is_loading);
    assert!(app.error_message.is_none());
    assert!(!app.polling_active);
}

#[test]
fn command_order_matches_the_selection_list() {
    let names: Vec<&str> = (0..COMMAND_COUNT).map(|i| command_at(i).name()).collect();
    assert_eq!(
        names,
        vec!["fetch", "lights", "switch", "workers", "flames", "empty", "rotate"]
    );
}

#[test]
fn command_parse_reads_each_name_and_rejects_unknown_ones() {
    assert_eq!(Command::parse("fetch"), Some(Command::Fetch));
    assert_eq!(Command::parse("lights"), Some(Command::Lights));
    assert_eq!(Command::parse("switch"), Some(Command::Switch));
    assert_eq!(Command::parse("workers"), Some(Command::Workers));
    assert_eq!(Command::parse("flames"), Some(Command::Flames));
    assert_eq!(Command::parse("empty"), Some(Command::Empty));
    assert_eq!(Command::parse("rotate"), Some(Command::Rotate));
    assert_eq!(Command::parse("Fetch"), None);
    assert_eq!(Command::parse(""), None);
    assert_eq!(Command::parse("bogus"), None);
}

#[test]
fn seven_next_presses_wrap_the_selection_back() {
    // The selection wraps: as many steps as there are commands lead home.
    let mut app = fresh_app();
    app.selected_command_index = 3;
    for _ in 0..COMMAND_COUNT {
        app.next_command();
    }
    assert_eq!(app.selected_command_index, 3);
}

#[test]
fn next_and_previous_command_wrap_at_both_ends() {
    let mut app = fresh_app();
    app.previous_command();
    assert_eq!(app.selected_command_index, COMMAND_COUNT - 1);
    app.next_command();
    assert_eq!(app.selected_command_index, 0);
}

#[test]
fn enter_confirms_selection_and_clears_the_buffer() {
    let mut app = fresh_app();
    app.input_buffer = "stale".to_string();
    let action = app.handle_key(KeyInput::Enter, 0);
    assert_eq!(action, KeyAction::Idle);
    assert_eq!(app.mode, AppMode::FilterInput);
    assert!(app.input_buffer.is_empty());
}

#[test]
fn filter_input_edits_the_buffer_and_enter_asks_for_the_search() {
    let mut app = fresh_app();
    app.handle_key(KeyInput::Enter, 0);
    for c in "alm, prod".chars() {
        assert_eq!(app.handle_key(KeyInput::Char(c), 0), KeyAction::Idle);
    }
    assert_eq!(app.input_buffer, "alm, prod");
    app.handle_key(KeyInput::Backspace, 0);
    assert_eq!(app.input_buffer, "alm, pro");
    let action = app.handle_key(KeyInput::Enter, 0);
    assert_eq!(action, KeyAction::StartSearch);
    assert_eq!(app.mode, AppMode::FilterInput);
}

#[test]
fn escape_from_filter_input_returns_to_command_selection() {
    let mut app = fresh_app();
    app.handle_key(KeyInput::Enter, 0);
    app.error_message = Some("old error".to_string());
    app.handle_key(KeyInput::Esc, 0);
    assert_eq!(app.mode, AppMode::CommandSelection);
    assert!(app.error_message.is_none());
}

#[test]
fn help_opens_from_any_non_filter_mode_and_any_key_closes_it() {
    let mut app = fresh_app();
    app.handle_key(KeyInput::Char('?'), 0);
    assert_eq!(app.mode, AppMode::Help);
    app.handle_key(KeyInput::Char('x'), 0);
    assert_eq!(app.mode, AppMode::CommandSelection);
    app.mode = AppMode::ResultsView;
    app.handle_key(KeyInput::Char('?'), 0);
    assert_eq!(app.mode, AppMode::Help);
    app.handle_key(KeyInput::Up, 0);
    assert_eq!(app.mode, AppMode::CommandSelection);
}

#[test]
fn quit_key_and_escape_from_command_selection_quit() {
    let mut app = fresh_app();
    app.handle_key(KeyInput::Char('q'), 0);
    assert!(app.should_quit);
    let mut app = fresh_app();
    app.handle_key(KeyInput::Esc, 0);
    assert!(app.should_quit);
}

#[test]
fn navigation_keys_move_the_selection_in_command_selection() {
    let mut app = fresh_app();
    app.handle_key(KeyInput::Down, 0);
    assert_eq!(app.selected_command_index, 1);
    app.handle_key(KeyInput::Char('j'), 0);
    assert_eq!(app.selected_command_index, 2);
    app.handle_key(KeyInput::Up, 0);
    assert_eq!(app.selected_command_index, 1);
    app.handle_key(KeyInput::Char('k'), 0);
    assert_eq!(app.selected_command_index, 0);
}

#[test]
fn results_navigation_wraps_over_the_current_results() {
    let mut app = fresh_app();
    app.mode = AppMode::ResultsView;
    app.results_view_type = ResultsViewType::Runners;
    app.runners = vec![runner(1, vec![]), runner(2, vec![]), runner(3, vec![])];
    app.next_result();
    assert_eq!(app.table_selected, Some(0));
    app.next_result();
    assert_eq!(app.table_selected, Some(1));
    app.previous_result();
    assert_eq!(app.table_selected, Some(0));
    app.previous_result();
    assert_eq!(app.table_selected, Some(2));
    app.next_result();
    assert_eq!(app.table_selected, Some(0));
}

#[test]
fn results_navigation_on_empty_results_leaves_the_cursor_alone() {
    let mut app = fresh_app();
    app.mode = AppMode::ResultsView;
    app.next_result();
    assert_eq!(app.table_selected, None);
    app.previous_result();
    assert_eq!(app.table_selected, None);
}

#[test]
fn escape_from_results_view_clears_the_error_and_returns() {
    let mut app = fresh_app();
    app.mode = AppMode::ResultsView;
    app.error_message = Some("boom".to_string());
    app.handle_key(KeyInput::Esc, 0);
    assert_eq!(app.mode, AppMode::CommandSelection);
    assert!(app.error_message.is_none());
}

#[test]
fn polling_toggle_is_results_view_only_and_records_the_moment() {
    let mut app = fresh_app();
    app.handle_key(KeyInput::Char('p'), 100);
    assert!(!app.polling_active);
    app.mode = AppMode::ResultsView;
    app.handle_key(KeyInput::Char('p'), 100);
    assert!(app.polling_active);
    assert_eq!(app.poll_started_at, Some(100));
    assert_eq!(app.last_poll_at, Some(100));
    app.handle_key(KeyInput::Char('p'), 160);
    assert!(!app.polling_active);
    assert_eq!(app.poll_started_at, None);
    assert_eq!(app.last_poll_at, None);
}

#[test]
fn poll_elapsed_and_timeout_follow_the_clock() {
    let mut app = fresh_app();
    assert_eq!(app.poll_elapsed_secs(500), 0);
    app.toggle_polling(100);
    assert_eq!(app.poll_elapsed_secs(160), 60);
    assert!(!app.poll_timed_out(160));
    assert!(app.poll_timed_out(100 + 1800));
}

#[test]
fn should_poll_now_needs_results_view_idle_interval_and_no_timeout() {
    let mut app = fresh_app();
    app.mode = AppMode::ResultsView;
    app.toggle_polling(100);
    // Interval (30) not yet elapsed.
    assert!(!app.should_poll_now(120));
    assert!(app.should_poll_now(130));
    // A poll just issued resets the interval.
    app.record_poll(130);
    assert!(!app.should_poll_now(140));
    assert!(app.should_poll_now(160));
    // Not while loading, not outside the results view, not after timeout.
    app.is_loading = true;
    assert!(!app.should_poll_now(160));
    app.is_loading = false;
    app.mode = AppMode::CommandSelection;
    assert!(!app.should_poll_now(160));
    app.mode = AppMode::ResultsView;
    assert!(!app.should_poll_now(100 + 1800));
    // Polling off: never due.
    app.toggle_polling(2000);
    assert!(!app.should_poll_now(2100));
}

#[test]
fn tick_advances_the_spinner_only_while_loading() {
    let mut app = fresh_app();
    app.tick();
    assert_eq!(app.spinner_frame, 0);
    app.is_loading = true;
    app.tick();
    assert_eq!(app.spinner_frame, 1);
    for _ in 0..9 {
        app.tick();
    }
    assert_eq!(app.spinner_frame, 0);
}

#[test]
fn spinner_char_cycles_through_ten_glyphs() {
    let mut app = fresh_app();
    app.is_loading = true;
    let first = app.spinner_char();
    let mut seen = vec![first];
    for _ in 0..9 {
        app.tick();
        seen.push(app.spinner_char());
    }
    app.tick();
    assert_eq!(app.spinner_char(), first);
    seen.dedup();
    assert_eq!(seen.len(), 10);
}

#[test]
fn begin_search_reads_the_tag_filter_from_the_buffer() {
    let mut app = fresh_app();
    app.handle_key(KeyInput::Enter, 0);
    for c in " alm , production ,linux".chars() {
        app.handle_key(KeyInput::Char(c), 0);
    }
    let filters = app.begin_search();
    assert!(app.is_loading);
    assert!(app.error_message.is_none());
    assert_eq!(
        filters.tag_list,
        Some(vec![
            "alm".to_string(),
            "production".to_string(),
            "linux".to_string()
        ])
    );
    assert!(filters.status.is_none());
    assert!(filters.version_prefix.is_none());
    assert!(filters.runner_type.is_none());
    assert!(filters.paused.is_none());
}

#[test]
fn begin_search_with_empty_buffer_asks_for_no_tag_filter() {
    let mut app = fresh_app();
    let filters = app.begin_search();
    assert!(filters.tag_list.is_none());
    assert!(app.is_loading);
}

#[test]
fn begin_search_keeps_empty_pieces_between_commas() {
    let mut app = fresh_app();
    app.handle_key(KeyInput::Enter, 0);
    for c in "  a  ,b,, c ".chars() {
        app.handle_key(KeyInput::Char(c), 0);
    }
    let filters = app.begin_search();
    assert_eq!(
        filters.tag_list,
        Some(vec![
            "a".to_string(),
            "b".to_string(),
            "".to_string(),
            "c".to_string()
        ])
    );
}

#[test]
fn successful_fetch_populates_runners_and_selects_the_first_row() {
    let mut app = fresh_app();
    app.begin_search();
    let rs = vec![runner(1, vec![manager(10, "online")]), runner(2, vec![])];
    app.apply_search_result(Command::Fetch, Ok(rs));
    assert!(!app.is_loading);
    assert_eq!(app.mode, AppMode::ResultsView);
    assert_eq!(app.results_view_type, ResultsViewType::Runners);
    assert_eq!(app.runners.len(), 2);
    assert!(app.manager_rows.is_empty());
    assert!(app.health_summary.is_none());
    assert_eq!(app.table_selected, Some(0));
    assert!(app.error_message.is_none());
}

#[test]
fn successful_empty_result_leaves_the_cursor_unset() {
    let mut app = fresh_app();
    app.table_selected = Some(4);
    app.begin_search();
    app.apply_search_result(Command::Fetch, Ok(vec![]));
    assert_eq!(app.mode, AppMode::ResultsView);
    assert!(app.runners.is_empty());
    assert_eq!(app.table_selected, None);
}

#[test]
fn workers_command_populates_manager_rows_only() {
    let mut app = fresh_app();
    app.begin_search();
    let rs = vec![
        runner(1, vec![manager(10, "online"), manager(11, "offline")]),
        runner(2, vec![]),
    ];
    app.apply_search_result(Command::Workers, Ok(rs));
    assert_eq!(app.results_view_type, ResultsViewType::Workers);
    assert!(app.runners.is_empty());
    assert_eq!(app.manager_rows.len(), 2);
    assert_eq!(app.manager_rows[0].runner_id, 1);
    assert_eq!(app.manager_rows[0].manager.id, 10);
    assert_eq!(app.manager_rows[1].manager.id, 11);
    assert_eq!(app.table_selected, Some(0));
}

#[test]
fn lights_command_populates_the_health_summary() {
    let mut app = fresh_app();
    app.begin_search();
    let rs = vec![
        runner(1, vec![manager(10, "online")]),
        runner(2, vec![manager(20, "offline")]),
    ];
    app.apply_search_result(Command::Lights, Ok(rs));
    assert_eq!(app.results_view_type, ResultsViewType::HealthCheck);
    assert_eq!(app.runners.len(), 2);
    let h = app.health_summary.clone().unwrap();
    assert_eq!(h.online_count, 1);
    assert_eq!(h.total_count, 2);
    assert!(!h.is_healthy());
}

#[test]
fn rotate_command_shows_the_rotation_view() {
    let mut app = fresh_app();
    app.begin_search();
    let rs = vec![runner(3, vec![manager(30, "online"), manager(31, "online")])];
    app.apply_search_result(Command::Rotate, Ok(rs));
    assert_eq!(app.results_view_type, ResultsViewType::Rotation);
    assert_eq!(app.runners.len(), 1);
}

#[test]
fn failed_search_shows_the_error_in_the_results_view() {
    let mut app = fresh_app();
    app.runners = vec![runner(9, vec![])];
    app.begin_search();
    app.apply_search_result(Command::Fetch, Err("GitLab API request failed".to_string()));
    assert!(!app.is_loading);
    assert_eq!(app.mode, AppMode::ResultsView);
    assert_eq!(app.error_message, Some("GitLab API request failed".to_string()));
    // Failure leaves the previous results alone.
    assert_eq!(app.runners.len(), 1);
}

#[test]
fn run_command_maps_each_command_to_its_derivation() {
    let rs = vec![
        runner(1, vec![manager(10, "online")]),
        runner(2, vec![manager(20, "offline"), manager(21, "online")]),
        runner(3, vec![]),
    ];
    let fetched = run_command(Command::Fetch, rs.clone(), 0);
    assert_eq!(fetched.len(), 3);
    let offline = run_command(Command::Switch, rs.clone(), 0);
    assert_eq!(offline.len(), 1);
    assert_eq!(offline[0].id, 2);
    let empty = run_command(Command::Empty, rs.clone(), 0);
    assert_eq!(empty.len(), 1);
    assert_eq!(empty[0].id, 3);
    let rotating = run_command(Command::Rotate, rs.clone(), 0);
    assert_eq!(rotating.len(), 1);
    assert_eq!(rotating[0].id, 2);
    // No manager has a contact timestamp, so all runners with managers
    // count as uncontacted at any moment.
    let flames = run_command(Command::Flames, rs, 1_000_000);
    assert_eq!(flames.len(), 2);
}

#[test]
fn clear_error_dismisses_the_message() {
    let mut app = fresh_app();
    app.error_message = Some("boom".to_string());
    app.clear_error();
    assert!(app.error_message.is_none());
}
