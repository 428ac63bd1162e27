//! Tests for handle construction, the broken-connection state machine, the
//! connector, and the shared connection registry.

use basable_core::config::{BackendKind, BackendSpec, Config, SimulatedBackend};
use basable_core::connector::Connector;
use basable_core::errors::{ConfigError, ConnectionError, CoreError, QueryError, RegistryError};
use basable_core::handle::Handle;
use basable_core::registry::Registry;
use basable_core::table::{RemoteStore, TableConfig, TableSummary};

fn summary(name: &str, rows: u64, cols: u64) -> TableSummary {
    TableSummary { name: name.to_string(), row_count: rows, column_count: cols }
}

fn sim_config(tables: Vec<TableSummary>, reachable: bool, auth_ok: bool, healthy_ops: u64) -> Config {
    Config {
        host: "db1".to_string(),
        port: 3306,
        username: "svc".to_string(),
        password: "secret".to_string(),
        database: None,
        backend: BackendSpec::Simulated(SimulatedBackend { reachable, auth_ok, tables, healthy_ops }),
    }
}

fn two_tables() -> Vec<TableSummary> {
    vec![summary("users", 12, 5), summary("orders", 40, 7)]
}

#[test]
fn new_handle_reports_its_user_and_is_reachable() {
    let h = Handle::new(sim_config(two_tables(), true, true, 8), "alice").unwrap();
    let d = h.details();
    assert_eq!(d.user_id, "alice");
    assert_eq!(d.backend, BackendKind::Simulated);
    assert!(d.reachable);
}

#[test]
fn session_ids_differ_across_handles() {
    let a = Handle::new(sim_config(two_tables(), true, true, 8), "alice").unwrap();
    let b = Handle::new(sim_config(two_tables(), true, true, 8), "alice").unwrap();
    let c = Handle::new(sim_config(two_tables(), true, true, 8), "bob").unwrap();
    assert_ne!(a.details().session_id, b.details().session_id);
    assert_ne!(a.details().session_id, c.details().session_id);
    assert_ne!(b.details().session_id, c.details().session_id);
}

#[test]
fn unreachable_backend_fails_construction() {
    let err = match Handle::new(sim_config(two_tables(), false, true, 8), "alice") {
        Err(e) => e,
        Ok(_) => panic!("construction should fail"),
    };
    assert!(matches!(err, ConnectionError::Unreachable { .. }));
}

#[test]
fn rejected_credentials_fail_construction() {
    let err = match Handle::new(sim_config(two_tables(), true, false, 8), "alice") {
        Err(e) => e,
        Ok(_) => panic!("construction should fail"),
    };
    assert!(matches!(err, ConnectionError::AuthFailed { .. }));
}

#[test]
fn load_tables_returns_the_scripted_tables() {
    let mut h = Handle::new(sim_config(two_tables(), true, true, 8), "alice").unwrap();
    let list = h.load_tables().unwrap();
    assert_eq!(list.len(), 2);
    assert_eq!(list[0].name, "users");
    assert_eq!(list[1].name, "orders");
    assert_eq!(list[1].row_count, 40);
    assert_eq!(list[1].column_count, 7);
}

#[test]
fn table_exists_follows_the_scripted_tables() {
    let mut h = Handle::new(sim_config(two_tables(), true, true, 8), "alice").unwrap();
    assert!(h.table_exists("users").unwrap());
    assert!(!h.table_exists("Users").unwrap());
    assert!(!h.table_exists("payments").unwrap());
}

#[test]
fn lost_connection_breaks_the_handle_for_every_operation() {
    let mut h = Handle::new(sim_config(two_tables(), true, true, 1), "alice").unwrap();
    let mut remote = RemoteStore::new();
    // the single scripted healthy operation succeeds
    assert_eq!(h.load_tables().unwrap().len(), 2);
    // the next backend operation loses the connection
    let err = h.load_tables().unwrap_err();
    assert!(matches!(err, CoreError::Connection(ConnectionError::Lost)));
    assert!(!h.details().reachable);
    // every subsequent operation fails the same way, without a backend call
    assert!(matches!(h.load_tables().unwrap_err(), CoreError::Connection(ConnectionError::Lost)));
    assert!(matches!(
        h.table_exists("users").unwrap_err(),
        CoreError::Connection(ConnectionError::Lost)
    ));
    assert!(matches!(
        h.save_table_config("users", TableConfig { page_size: 1, visible_columns: vec![] }, false, &mut remote)
            .unwrap_err(),
        CoreError::Connection(ConnectionError::Lost)
    ));
    assert!(matches!(
        h.get_table_config("users", false, &remote).unwrap_err(),
        CoreError::Connection(ConnectionError::Lost)
    ));
}

#[test]
fn connector_rejects_an_empty_statement() {
    let mut c = Connector::new(sim_config(two_tables(), true, true, 8)).unwrap();
    let err = match c.execute("") {
        Err(e) => e,
        Ok(_) => panic!("an empty statement should be rejected"),
    };
    assert!(matches!(err, CoreError::Query(QueryError::Malformed { .. })));
    let rows = c.execute("SELECT 1").unwrap();
    assert!(rows.is_empty());
}

#[test]
fn connector_with_spent_budget_reports_lost() {
    let mut c = Connector::new(sim_config(two_tables(), true, true, 0)).unwrap();
    let err = match c.execute("SELECT 1") {
        Err(e) => e,
        Ok(_) => panic!("a spent budget should report a lost connection"),
    };
    assert!(matches!(err, CoreError::Connection(ConnectionError::Lost)));
}

#[test]
fn get_or_create_reuses_the_active_handle() {
    let mut reg = Registry::new();
    let sid1 = reg.get_or_create("alice", sim_config(two_tables(), true, true, 8)).unwrap();
    let sid2 = reg.get_or_create("alice", sim_config(two_tables(), true, true, 8)).unwrap();
    assert_eq!(sid1, sid2);
    assert_eq!(reg.len(), 1);
    let sid3 = reg.get_or_create("bob", sim_config(two_tables(), true, true, 8)).unwrap();
    assert_ne!(sid1, sid3);
    assert_eq!(reg.len(), 2);
}

#[test]
fn get_or_create_replaces_a_broken_handle() {
    let mut reg = Registry::new();
    let sid1 = reg.get_or_create("alice", sim_config(two_tables(), true, true, 0)).unwrap();
    let err = reg
        .with_handle(sid1, |mut h: Handle| {
            let r = h.load_tables();
            (h, r)
        })
        .unwrap()
        .unwrap_err();
    assert!(matches!(err, CoreError::Connection(ConnectionError::Lost)));
    let sid2 = reg.get_or_create("alice", sim_config(two_tables(), true, true, 8)).unwrap();
    assert_ne!(sid1, sid2);
    assert_eq!(reg.len(), 1);
}

#[test]
fn get_or_create_propagates_construction_failure() {
    let mut reg = Registry::new();
    let err = reg.get_or_create("alice", sim_config(two_tables(), false, true, 8)).unwrap_err();
    assert!(matches!(err, ConnectionError::Unreachable { .. }));
    assert_eq!(reg.len(), 0);
}

#[test]
fn with_handle_on_unknown_session_is_not_found() {
    let mut reg = Registry::new();
    let err = reg.with_handle(7, |h: Handle| (h, ())).unwrap_err();
    assert!(matches!(err, RegistryError::NotFound));
}

#[test]
fn with_handle_serializes_read_modify_write() {
    let mut reg = Registry::new();
    let mut remote = RemoteStore::new();
    let sid = reg.get_or_create("alice", sim_config(two_tables(), true, true, 8)).unwrap();
    reg.with_handle(sid, |mut h: Handle| {
        let r = h.save_table_config(
            "users",
            TableConfig { page_size: 1, visible_columns: vec![] },
            false,
            &mut remote,
        );
        (h, r)
    })
    .unwrap()
    .unwrap();
    // two read-modify-write steps, each atomic under the registry's lock
    for _ in 0..2 {
        reg.with_handle(sid, |mut h: Handle| {
            let current = h.get_table_config("users", false, &remote).unwrap();
            let r = h.save_table_config(
                "users",
                TableConfig { page_size: current.page_size + 1, visible_columns: vec![] },
                false,
                &mut remote,
            );
            (h, r)
        })
        .unwrap()
        .unwrap();
    }
    let got = reg
        .with_handle(sid, |h: Handle| {
            let r = h.get_table_config("users", false, &remote);
            (h, r)
        })
        .unwrap()
        .unwrap();
    assert_eq!(got.page_size, 3);
}

#[test]
fn with_handle_leaves_other_sessions_untouched() {
    let mut reg = Registry::new();
    let mut remote = RemoteStore::new();
    let sid_a = reg.get_or_create("alice", sim_config(two_tables(), true, true, 8)).unwrap();
    let sid_b = reg.get_or_create("bob", sim_config(two_tables(), true, true, 8)).unwrap();
    reg.with_handle(sid_a, |mut h: Handle| {
        let r = h.save_table_config(
            "users",
            TableConfig { page_size: 9, visible_columns: vec![] },
            false,
            &mut remote,
        );
        (h, r)
    })
    .unwrap()
    .unwrap();
    let err = reg
        .with_handle(sid_b, |h: Handle| {
            let r = h.get_table_config("users", false, &remote);
            (h, r)
        })
        .unwrap()
        .unwrap_err();
    assert!(matches!(err, CoreError::Config(ConfigError::NotFound)));
}

#[test]
fn remove_evicts_and_is_idempotent() {
    let mut reg = Registry::new();
    let sid = reg.get_or_create("alice", sim_config(two_tables(), true, true, 8)).unwrap();
    assert_eq!(reg.len(), 1);
    reg.remove(sid);
    assert_eq!(reg.len(), 0);
    reg.remove(sid);
    assert_eq!(reg.len(), 0);
    let err = reg.with_handle(sid, |h: Handle| (h, ())).unwrap_err();
    assert!(matches!(err, RegistryError::NotFound));
}

#[test]
fn scenario_alice_browses_and_configures() {
    let cfg = Config {
        host: "db1".to_string(),
        port: 3306,
        username: "alice".to_string(),
        password: "secret".to_string(),
        database: None,
        backend: BackendSpec::Simulated(SimulatedBackend {
            reachable: true,
            auth_ok: true,
            tables: vec![summary("users", 3, 2), summary("orders", 5, 4)],
            healthy_ops: 100,
        }),
    };
    let mut reg = Registry::new();
    let mut remote = RemoteStore::new();
    let sid = reg.get_or_create("alice", cfg).unwrap();

    let list = reg
        .with_handle(sid, |mut h: Handle| {
            let r = h.load_tables();
            (h, r)
        })
        .unwrap()
        .unwrap();
    assert_eq!(list.len(), 2);
    let names: Vec<&str> = list.iter().map(|t| t.name.as_str()).collect();
    assert!(names.contains(&"users"));
    assert!(names.contains(&"orders"));

    reg.with_handle(sid, |mut h: Handle| {
        let r = h.save_table_config(
            "users",
            TableConfig { page_size: 20, visible_columns: vec![] },
            false,
            &mut remote,
        );
        (h, r)
    })
    .unwrap()
    .unwrap();

    let got = reg
        .with_handle(sid, |h: Handle| {
            let r = h.get_table_config("users", false, &remote);
            (h, r)
        })
        .unwrap()
        .unwrap();
    assert_eq!(got.page_size, 20);

    let err = reg
        .with_handle(sid, |h: Handle| {
            let r = h.get_table_config("orders", false, &remote);
            (h, r)
        })
        .unwrap()
        .unwrap_err();
    assert!(matches!(err, CoreError::Config(ConfigError::NotFound)));
}

#[test]
fn empty_backend_lists_no_tables() {
    let mut h = Handle::new(sim_config(vec![], true, true, 8), "alice").unwrap();
    assert!(h.load_tables().unwrap().is_empty());
    assert!(!h.table_exists("users").unwrap());
}

#[test]
fn removed_session_can_be_recreated() {
    let mut reg = Registry::new();
    let sid1 = reg.get_or_create("alice", sim_config(two_tables(), true, true, 8)).unwrap();
    reg.remove(sid1);
    let sid2 = reg.get_or_create("alice", sim_config(two_tables(), true, true, 8)).unwrap();
    assert_ne!(sid1, sid2);
    assert_eq!(reg.len(), 1);
}
