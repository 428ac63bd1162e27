//! Tests for the two-tier table-configuration store and the error adapter.

use basable_core::config::{BackendSpec, Config, SimulatedBackend};
use basable_core::errors::{
    adapt, ConfigError, ConnectionError, CoreError, ErrorCategory, QueryError, RegistryError,
};
use basable_core::handle::Handle;
use basable_core::table::{RemoteStore, TableConfig, TableSummary};

fn summary(name: &str, rows: u64, cols: u64) -> TableSummary {
    TableSummary { name: name.to_string(), row_count: rows, column_count: cols }
}

fn sim_config(tables: Vec<TableSummary>, reachable: bool, auth_ok: bool, healthy_ops: u64) -> Config {
    Config {
        host: "db1".to_string(),
        port: 3306,
        username: "alice".to_string(),
        password: "secret".to_string(),
        database: Some("shop".to_string()),
        backend: BackendSpec::Simulated(SimulatedBackend { reachable, auth_ok, tables, healthy_ops }),
    }
}

fn healthy_handle(user: &str) -> Handle {
    Handle::new(sim_config(vec![summary("users", 10, 4)], true, true, u64::MAX), user).unwrap()
}

fn cfg(page_size: u64, cols: Vec<&str>) -> TableConfig {
    TableConfig {
        page_size,
        visible_columns: cols.into_iter().map(|c| c.to_string()).collect(),
    }
}

#[test]
fn local_round_trip_returns_saved_config() {
    let mut h = healthy_handle("alice");
    let mut remote = RemoteStore::new();
    let saved = cfg(25, vec!["id", "name"]);
    h.save_table_config("users", cfg(25, vec!["id", "name"]), false, &mut remote).unwrap();
    let got = h.get_table_config("users", false, &remote).unwrap();
    assert_eq!(got, saved);
}

#[test]
fn local_save_last_write_wins() {
    let mut h = healthy_handle("alice");
    let mut remote = RemoteStore::new();
    h.save_table_config("users", cfg(10, vec![]), false, &mut remote).unwrap();
    h.save_table_config("users", cfg(50, vec!["id"]), false, &mut remote).unwrap();
    let got = h.get_table_config("users", false, &remote).unwrap();
    assert_eq!(got, cfg(50, vec!["id"]));
}

#[test]
fn local_get_of_never_saved_name_is_not_found() {
    let h = healthy_handle("alice");
    let remote = RemoteStore::new();
    let err = h.get_table_config("orders", false, &remote).unwrap_err();
    assert!(matches!(err, CoreError::Config(ConfigError::NotFound)));
}

#[test]
fn remote_get_ignores_local_only_save() {
    let mut h = healthy_handle("alice");
    let mut remote = RemoteStore::new();
    h.save_table_config("users", cfg(20, vec![]), false, &mut remote).unwrap();
    let err = h.get_table_config("users", true, &remote).unwrap_err();
    assert!(matches!(err, CoreError::Config(ConfigError::NotFound)));
}

#[test]
fn local_get_ignores_remote_only_save() {
    let mut h = healthy_handle("alice");
    let mut remote = RemoteStore::new();
    h.save_table_config("users", cfg(20, vec![]), true, &mut remote).unwrap();
    let err = h.get_table_config("users", false, &remote).unwrap_err();
    assert!(matches!(err, CoreError::Config(ConfigError::NotFound)));
}

#[test]
fn remote_round_trip_outlives_the_session() {
    let mut h = healthy_handle("alice");
    let mut remote = RemoteStore::new();
    h.save_table_config("users", cfg(40, vec!["id"]), true, &mut remote).unwrap();
    drop(h);
    let h2 = healthy_handle("alice");
    let got = h2.get_table_config("users", true, &remote).unwrap();
    assert_eq!(got, cfg(40, vec!["id"]));
}

#[test]
fn remote_failure_leaves_local_tier_unchanged() {
    let mut h = healthy_handle("alice");
    let mut remote = RemoteStore::new();
    remote.set_available(false);
    let err = h.save_table_config("users", cfg(20, vec![]), true, &mut remote).unwrap_err();
    assert!(matches!(err, CoreError::Config(ConfigError::PersistFailed { .. })));
    // no partial write in either tier
    let local_err = h.get_table_config("users", false, &remote).unwrap_err();
    assert!(matches!(local_err, CoreError::Config(ConfigError::NotFound)));
    remote.set_available(true);
    let remote_err = h.get_table_config("users", true, &remote).unwrap_err();
    assert!(matches!(remote_err, CoreError::Config(ConfigError::NotFound)));
}

#[test]
fn remote_get_while_unavailable_is_persist_failed() {
    let h = healthy_handle("alice");
    let mut remote = RemoteStore::new();
    remote.set_available(false);
    let err = h.get_table_config("users", true, &remote).unwrap_err();
    assert!(matches!(err, CoreError::Config(ConfigError::PersistFailed { .. })));
}

#[test]
fn adapter_maps_connection_errors_to_service_unavailable() {
    let e = adapt(&CoreError::Connection(ConnectionError::Unreachable {
        message: "host down".to_string(),
    }));
    assert_eq!(e.category, ErrorCategory::ServiceUnavailable);
    assert_eq!(e.message, "host down");

    let e = adapt(&CoreError::Connection(ConnectionError::AuthFailed {
        message: "bad password".to_string(),
    }));
    assert_eq!(e.category, ErrorCategory::ServiceUnavailable);
    assert_eq!(e.message, "bad password");

    let e = adapt(&CoreError::Connection(ConnectionError::Lost));
    assert_eq!(e.category, ErrorCategory::ServiceUnavailable);
    assert_eq!(e.message, "connection lost");
}

#[test]
fn adapter_maps_query_errors_by_cause() {
    let e = adapt(&CoreError::Query(QueryError::Malformed { message: "syntax".to_string() }));
    assert_eq!(e.category, ErrorCategory::BadRequest);
    assert_eq!(e.message, "syntax");

    let e = adapt(&CoreError::Query(QueryError::BackendFault { message: "disk full".to_string() }));
    assert_eq!(e.category, ErrorCategory::Internal);
    assert_eq!(e.message, "disk full");
}

#[test]
fn adapter_maps_missing_entries_to_not_found() {
    let e = adapt(&CoreError::Config(ConfigError::NotFound));
    assert_eq!(e.category, ErrorCategory::NotFound);
    assert_eq!(e.message, "no table configuration found");

    let e = adapt(&CoreError::Registry(RegistryError::NotFound));
    assert_eq!(e.category, ErrorCategory::NotFound);
    assert_eq!(e.message, "no session for this identifier");
}

#[test]
fn adapter_maps_persist_failure_to_internal() {
    let e = adapt(&CoreError::Config(ConfigError::PersistFailed {
        message: "remote persistence unavailable".to_string(),
    }));
    assert_eq!(e.category, ErrorCategory::Internal);
    assert_eq!(e.message, "remote persistence unavailable");
}
