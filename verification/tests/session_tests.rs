//! Session behaviour: navigation over the filtered view, refresh clamping,
//! search mode, status expiry, and kill-outcome reporting.

use std::collections::HashSet;

use portkiller_core::App;
use portkiller_core::Error;
use portkiller_core::PortInfo;
use portkiller_core::WatchedPort;

fn sample_ports() -> Vec<PortInfo> {
    vec![
        PortInfo::active(3000, 1234, "node", "*", "user", "node server.js", "19u"),
        PortInfo::active(5432, 5678, "postgres", "*", "postgres", "postgres", "6u"),
        PortInfo::active(80, 1, "nginx", "*", "root", "nginx", "6u"),
        PortInfo::active(8080, 9999, "java", "*", "user", "java -jar app.jar", "10u"),
    ]
}

fn sample_app() -> App {
    App::new(sample_ports(), HashSet::new(), &[], 0)
}

#[test]
fn test_navigation_wraps_forward() {
    // As many `next` calls as the view has records return to the start.
    let mut app = sample_app();
    assert_eq!(app.selected, 0);
    for _ in 0..4 {
        app.next();
    }
    assert_eq!(app.selected, 0);
    app.next();
    assert_eq!(app.selected, 1);
}

#[test]
fn test_navigation_wraps_backward() {
    let mut app = sample_app();
    app.previous();
    assert_eq!(app.selected, 3);
    app.previous();
    assert_eq!(app.selected, 2);
}

#[test]
fn test_first_and_last() {
    let mut app = sample_app();
    app.last();
    assert_eq!(app.selected, 3);
    app.first();
    assert_eq!(app.selected, 0);
}

#[test]
fn test_navigation_empty_view_is_noop() {
    let mut app = App::new(vec![], HashSet::new(), &[], 0);
    app.next();
    app.previous();
    app.last();
    assert_eq!(app.selected, 0);
    assert!(app.selected_port().is_none());
}

#[test]
fn test_selected_port_follows_cursor() {
    let mut app = sample_app();
    app.next();
    let p = app.selected_port().unwrap();
    assert_eq!(p.port, 5432);
}

#[test]
fn test_search_narrows_view() {
    let mut app = sample_app();
    app.start_search();
    assert!(app.is_searching());
    app.search_input('n');
    app.search_input('o');
    app.search_input('d');
    app.search_input('e');
    app.end_search();
    assert!(!app.is_searching());
    let view = app.filtered_ports();
    assert_eq!(view.len(), 1);
    assert_eq!(view[0].port, 3000);
}

#[test]
fn test_search_backspace_widens_view() {
    let mut app = sample_app();
    app.start_search();
    app.search_input('n');
    app.search_input('z');
    assert_eq!(app.filtered_ports().len(), 0);
    app.search_backspace();
    // Query "n" matches node, nginx and "node server.js".
    assert_eq!(app.filtered_ports().len(), 2);
    assert_eq!(app.selected, 0);
}

#[test]
fn test_refresh_clamps_selection() {
    // Prior selection beyond the new filtered length moves to the last
    // record; an emptied view pins it to zero.
    let mut app = sample_app();
    app.last();
    assert_eq!(app.selected, 3);
    let two = vec![
        PortInfo::active(3000, 1234, "node", "*", "user", "node server.js", "19u"),
        PortInfo::active(80, 1, "nginx", "*", "root", "nginx", "6u"),
    ];
    app.refresh(two, HashSet::new(), &[], 1000);
    assert_eq!(app.selected, 1);
    app.refresh(vec![], HashSet::new(), &[], 2000);
    assert_eq!(app.selected, 0);
}

#[test]
fn test_refresh_updates_snapshots_and_status() {
    let mut app = sample_app();
    let mut favorites = HashSet::new();
    favorites.insert(80u16);
    let watched = vec![WatchedPort::new(5432)];
    app.refresh(sample_ports(), favorites.clone(), &watched, 1000);
    assert!(app.favorites.contains(&80));
    assert!(app.watched.contains(&5432));
    assert!(!app.watched.contains(&80));
    assert_eq!(app.get_status(1000), Some("Refreshed"));
}

#[test]
fn test_should_refresh_after_interval() {
    let app = App::new(vec![], HashSet::new(), &[], 0);
    assert!(!app.should_refresh(5000));
    assert!(app.should_refresh(5001));
}

#[test]
fn test_status_visibility_window() {
    // A message set at time t is visible at t + 2900 ms and gone at
    // t + 3100 ms.
    let mut app = sample_app();
    app.refresh(sample_ports(), HashSet::new(), &[], 10_000);
    assert_eq!(app.get_status(12_900), Some("Refreshed"));
    assert_eq!(app.get_status(13_100), None);
}

#[test]
fn test_kill_outcome_success_sets_status_and_asks_refresh() {
    let mut app = sample_app();
    let refresh = app.apply_kill_outcome(Ok(true), "node", 3000, 1234, 500);
    assert!(refresh);
    assert_eq!(app.get_status(500), Some("Killed node on port 3000"));
}

#[test]
fn test_kill_outcome_already_terminated() {
    // An attempt on a pid that no longer exists reports it and never fails
    // the session.
    let mut app = sample_app();
    let refresh = app.apply_kill_outcome(Ok(false), "node", 3000, 1234, 500);
    assert!(!refresh);
    let status = app.get_status(500).unwrap();
    assert_eq!(status, "Process 1234 already terminated");
    assert!(status.contains("already terminated"));
}

#[test]
fn test_kill_outcome_failure_becomes_status() {
    let mut app = sample_app();
    let e = Error::PermissionDenied("Permission denied to kill process 1234".to_string());
    let refresh = app.apply_kill_outcome(Err(e), "node", 3000, 1234, 500);
    assert!(!refresh);
    assert_eq!(
        app.get_status(500),
        Some("Failed to kill: Permission denied to kill process 1234")
    );
}

#[test]
fn test_kill_selected_no_selection_is_noop() {
    let killer = portkiller_core::ProcessKiller::new();
    let mut app = App::new(vec![], HashSet::new(), &[], 0);
    let refresh = app.kill_selected(&killer, 100);
    assert!(!refresh);
    assert_eq!(app.get_status(100), None);
}

#[test]
fn test_kill_selected_gone_process_sets_status() {
    // The selected record's pid no longer exists: the session reports it
    // and asks for no refresh, without failing.
    let killer = portkiller_core::ProcessKiller::new();
    let ports = vec![PortInfo::active(4000, 999999999, "ghost", "*", "user", "ghost", "1u")];
    let mut app = App::new(ports, HashSet::new(), &[], 0);
    let refresh = app.kill_selected(&killer, 100);
    assert!(!refresh);
    let status = app.get_status(100).unwrap();
    assert!(status.contains("already terminated"));
    assert_eq!(status, "Process 999999999 already terminated");
}

#[test]
fn test_kill_selected_out_of_range_pid_fails_without_signalling() {
    // A pid beyond the platform's signed pid range cannot name a single
    // process: the session records a failure and asks for no refresh.
    let killer = portkiller_core::ProcessKiller::new();
    let ports = vec![PortInfo::active(4000, 2147483648, "ghost", "*", "user", "ghost", "1u")];
    let mut app = App::new(ports, HashSet::new(), &[], 0);
    let refresh = app.kill_selected(&killer, 100);
    assert!(!refresh);
    assert_eq!(
        app.get_status(100),
        Some(
            "Failed to kill: Failed to kill process 2147483648: \
             process id exceeds the platform's process-identifier range"
        )
    );
}

#[test]
fn test_favorite_toggle_roundtrip() {
    let mut app = sample_app();
    let (port, add) = app.favorite_toggle_plan().unwrap();
    assert_eq!(port, 3000);
    assert!(add);
    app.apply_favorite_toggle(port, add, 100);
    assert!(app.favorites.contains(&3000));
    assert_eq!(app.get_status(100), Some("Added 3000 to favorites"));

    let (port, add) = app.favorite_toggle_plan().unwrap();
    assert_eq!(port, 3000);
    assert!(!add);
    app.apply_favorite_toggle(port, add, 200);
    assert!(!app.favorites.contains(&3000));
    assert_eq!(app.get_status(200), Some("Removed 3000 from favorites"));
}

#[test]
fn test_watch_toggle_roundtrip() {
    let mut app = sample_app();
    let (port, add) = app.watch_toggle_plan().unwrap();
    assert_eq!(port, 3000);
    assert!(add);
    app.apply_watch_toggle(port, add, 100);
    assert!(app.watched.contains(&3000));
    assert_eq!(app.get_status(100), Some("Now watching 3000"));

    let (port, add) = app.watch_toggle_plan().unwrap();
    assert!(!add);
    app.apply_watch_toggle(port, add, 200);
    assert!(!app.watched.contains(&3000));
    assert_eq!(app.get_status(200), Some("Stopped watching 3000"));
}

#[test]
fn test_filtered_view_keeps_table_order() {
    let mut app = sample_app();
    app.start_search();
    app.search_input('n');
    // "n" matches node (name), nginx (name); order follows the table.
    let view = app.filtered_ports();
    let ports: Vec<u16> = view.iter().map(|p| p.port).collect();
    assert_eq!(ports, vec![3000, 80]);
}

#[test]
fn test_start_search_clears_prior_query() {
    let mut app = sample_app();
    app.start_search();
    app.search_input('z');
    app.end_search();
    assert_eq!(app.filtered_ports().len(), 0);
    app.start_search();
    assert_eq!(app.filtered_ports().len(), 4);
}
