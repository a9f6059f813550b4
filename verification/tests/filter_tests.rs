//! Filter behaviour: the original unit tests of the filter module, on the
//! sample table of four listening ports.

use std::collections::HashSet;

use portkiller_core::PortFilter;
use portkiller_core::PortInfo;
use portkiller_core::ProcessType;
use portkiller_core::WatchedPort;
use portkiller_core::filter_ports;

fn sample_ports() -> Vec<PortInfo> {
    vec![
        PortInfo::active(3000, 1234, "node", "*", "user", "node server.js", "19u"),
        PortInfo::active(5432, 5678, "postgres", "*", "postgres", "postgres", "6u"),
        PortInfo::active(80, 1, "nginx", "*", "root", "nginx", "6u"),
        PortInfo::active(8080, 9999, "java", "*", "user", "java -jar app.jar", "10u"),
    ]
}

#[test]
fn test_default_filter_matches_all() {
    let filter = PortFilter::new();
    let ports = sample_ports();
    let favorites = HashSet::new();
    let watched = vec![];

    for port in &ports {
        assert!(filter.matches(port, &favorites, &watched));
    }
}

#[test]
fn test_search_filter() {
    let filter = PortFilter::new().with_search("node");
    let ports = sample_ports();
    let favorites = HashSet::new();
    let watched = vec![];

    let filtered = filter_ports(&ports, &filter, &favorites, &watched);
    assert_eq!(filtered.len(), 1);
    assert_eq!(filtered[0].process_name, "node");
}

#[test]
fn test_port_range_filter() {
    let filter = PortFilter::new().with_port_range(Some(1000), Some(6000));
    let ports = sample_ports();
    let favorites = HashSet::new();
    let watched = vec![];

    let filtered = filter_ports(&ports, &filter, &favorites, &watched);
    assert_eq!(filtered.len(), 2); // 3000 and 5432
}

#[test]
fn test_process_type_filter() {
    let filter = PortFilter::new().with_process_types(&[ProcessType::WebServer]);
    let ports = sample_ports();
    let favorites = HashSet::new();
    let watched = vec![];

    let filtered = filter_ports(&ports, &filter, &favorites, &watched);
    assert_eq!(filtered.len(), 1);
    assert_eq!(filtered[0].process_name, "nginx");
}

#[test]
fn test_favorites_filter() {
    let filter = PortFilter::new().with_favorites_only(true);
    let ports = sample_ports();
    let mut favorites = HashSet::new();
    favorites.insert(3000);
    favorites.insert(80);
    let watched = vec![];

    let filtered = filter_ports(&ports, &filter, &favorites, &watched);
    assert_eq!(filtered.len(), 2);
}

#[test]
fn test_watched_filter() {
    let filter = PortFilter::new().with_watched_only(true);
    let ports = sample_ports();
    let favorites = HashSet::new();
    let watched = vec![WatchedPort::new(5432)];

    let filtered = filter_ports(&ports, &filter, &favorites, &watched);
    assert_eq!(filtered.len(), 1);
    assert_eq!(filtered[0].port, 5432);
}

#[test]
fn test_is_active() {
    let default_filter = PortFilter::new();
    assert!(!default_filter.is_active());

    let search_filter = PortFilter::new().with_search("test");
    assert!(search_filter.is_active());

    let favorites_filter = PortFilter::new().with_favorites_only(true);
    assert!(favorites_filter.is_active());
}

#[test]
fn test_reset() {
    let mut filter = PortFilter::new().with_search("test").with_favorites_only(true);
    assert!(filter.is_active());

    filter.reset();
    assert!(!filter.is_active());
}

#[test]
fn test_filter_preserves_order() {
    // Min-port 1000 keeps records 3000, 5432 and 8080, in table order.
    let filter = PortFilter::new().with_port_range(Some(1000), None);
    let ports = sample_ports();
    let favorites = HashSet::new();
    let watched = vec![];

    let filtered = filter_ports(&ports, &filter, &favorites, &watched);
    let kept: Vec<u16> = filtered.iter().map(|p| p.port).collect();
    assert_eq!(kept, vec![3000, 5432, 8080]);
}

#[test]
fn test_search_is_case_insensitive() {
    // An upper-case query still matches a lower-case process name.
    let filter = PortFilter::new().with_search("NODE");
    let ports = sample_ports();
    let favorites = HashSet::new();
    let watched = vec![];

    let filtered = filter_ports(&ports, &filter, &favorites, &watched);
    assert_eq!(filtered.len(), 1);
    assert_eq!(filtered[0].port, 3000);
}

#[test]
fn test_search_matches_port_digits() {
    // A numeric query matches the decimal rendering of the port.
    let filter = PortFilter::new().with_search("543");
    let ports = sample_ports();
    let favorites = HashSet::new();
    let watched = vec![];

    let filtered = filter_ports(&ports, &filter, &favorites, &watched);
    assert_eq!(filtered.len(), 1);
    assert_eq!(filtered[0].port, 5432);
}

#[test]
fn test_search_matches_command() {
    // A query matching only the full command still matches the record.
    let filter = PortFilter::new().with_search("server.js");
    let ports = sample_ports();
    let favorites = HashSet::new();
    let watched = vec![];

    let filtered = filter_ports(&ports, &filter, &favorites, &watched);
    assert_eq!(filtered.len(), 1);
    assert_eq!(filtered[0].port, 3000);
}

#[test]
fn test_empty_table_filters_to_empty() {
    let filter = PortFilter::new().with_search("node");
    let ports: Vec<PortInfo> = vec![];
    let favorites = HashSet::new();
    let watched = vec![];

    let filtered = filter_ports(&ports, &filter, &favorites, &watched);
    assert!(filtered.is_empty());
}

#[test]
fn test_empty_process_type_set_means_no_restriction() {
    // An empty type set admits every record, like the full set.
    let filter = PortFilter::new().with_process_types(&[]);
    let ports = sample_ports();
    let favorites = HashSet::new();
    let watched = vec![];

    let filtered = filter_ports(&ports, &filter, &favorites, &watched);
    assert_eq!(filtered.len(), 4);
}

#[test]
fn test_process_classification() {
    let ports = sample_ports();
    assert_eq!(ports[0].process_type(), ProcessType::LanguageRuntime); // node
    assert_eq!(ports[1].process_type(), ProcessType::Database); // postgres
    assert_eq!(ports[2].process_type(), ProcessType::WebServer); // nginx
    assert_eq!(ports[3].process_type(), ProcessType::LanguageRuntime); // java
}
