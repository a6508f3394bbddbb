use std::cell::Cell;

use healthcheck::executor::check_service;
use healthcheck::gate::{
    gate_needs_probe, skip_detail, unreachable_detail, verify_service_gate, wait_window_open,
    CONNECT_ATTEMPT_TIMEOUT_MS, GATE_WAIT_TIMEOUT_MS, RETRY_SLEEP_MS,
};
use healthcheck::outcome::Status;

#[test]
fn disabled_flag_skips_without_probe() {
    let flag = String::from("false");
    let reach_called = Cell::new(false);
    let probe_called = Cell::new(false);
    let r = check_service(
        "Kafka",
        "rust-rdkafka",
        "ENABLE_KAFKA",
        Some(&flag),
        false,
        "kafka",
        29092,
        || {
            reach_called.set(true);
            true
        },
        || {
            probe_called.set(true);
            Ok(String::from("unexpected"))
        },
    );
    assert_eq!(r.status, Status::Skip);
    assert_eq!(r.detail, "ENABLE_KAFKA=false -> service intentionally disabled");
    assert_eq!(r.duration_ms, 0);
    assert!(!reach_called.get());
    assert!(!probe_called.get());
}

#[test]
fn unreachable_service_fails_without_probe() {
    let probe_called = Cell::new(false);
    let r = check_service(
        "PostgreSQL",
        "rust-postgres",
        "ENABLE_POSTGRES",
        None,
        true,
        "postgres",
        5432,
        || false,
        || {
            probe_called.set(true);
            Ok(String::from("unexpected"))
        },
    );
    assert_eq!(r.status, Status::Fail);
    assert_eq!(r.detail, "postgres:5432 is not reachable");
    assert_eq!(r.duration_ms, 0);
    assert!(!probe_called.get());
}

#[test]
fn port_zero_skips_reachability_entirely() {
    let reach_called = Cell::new(false);
    let r = check_service(
        "MinIO",
        "rust-s3",
        "ENABLE_MINIO",
        None,
        true,
        "minio",
        0,
        || {
            reach_called.set(true);
            false
        },
        || Ok(String::from("went through")),
    );
    assert_eq!(r.status, Status::Pass);
    assert_eq!(r.detail, "went through");
    assert!(!reach_called.get());
}

#[test]
fn reachable_enabled_service_runs_probe() {
    let r = check_service(
        "Valkey",
        "rust-redis",
        "ENABLE_VALKEY",
        Some(&String::from("on")),
        false,
        "valkey",
        6379,
        || true,
        || Err(String::from("boom")),
    );
    assert_eq!(r.status, Status::Fail);
    assert_eq!(r.detail, "boom");
}

#[test]
fn gate_returns_none_when_enabled_and_reachable() {
    let r = verify_service_gate(
        "MySQL",
        "rust-mysql",
        "ENABLE_MYSQL",
        Some(&String::from("1")),
        false,
        "mysql",
        3306,
        true,
    );
    assert!(r.is_none());
}

#[test]
fn gate_skip_carries_service_and_client() {
    let r = verify_service_gate(
        "MySQL",
        "rust-mysql",
        "ENABLE_MYSQL",
        None,
        false,
        "mysql",
        3306,
        true,
    )
    .unwrap();
    assert_eq!(r.service, "MySQL");
    assert_eq!(r.client, "rust-mysql");
    assert_eq!(r.status, Status::Skip);
    assert_eq!(r.detail, "ENABLE_MYSQL=false -> service intentionally disabled");
    assert_eq!(r.duration_ms, 0);
}

#[test]
fn gate_fail_names_host_and_port() {
    let r = verify_service_gate(
        "OpenSearch",
        "rust-opensearch",
        "ENABLE_OPENSEARCH",
        Some(&String::from("true")),
        false,
        "opensearch",
        9200,
        false,
    )
    .unwrap();
    assert_eq!(r.status, Status::Fail);
    assert!(r.detail.contains("opensearch:9200 is not reachable"));
    assert_eq!(r.duration_ms, 0);
}

#[test]
fn needs_probe_only_when_enabled_with_port() {
    assert!(gate_needs_probe(None, true, 5432));
    assert!(!gate_needs_probe(None, true, 0));
    assert!(!gate_needs_probe(None, false, 5432));
    let off = String::from("false");
    assert!(!gate_needs_probe(Some(&off), true, 5432));
}

#[test]
fn detail_builders_write_the_exact_text() {
    assert_eq!(
        skip_detail("ENABLE_POSTGRES"),
        "ENABLE_POSTGRES=false -> service intentionally disabled"
    );
    assert_eq!(unreachable_detail("kafka", 29092), "kafka:29092 is not reachable");
}

#[test]
fn wait_constants_and_decision() {
    assert_eq!(GATE_WAIT_TIMEOUT_MS, 2000);
    assert_eq!(CONNECT_ATTEMPT_TIMEOUT_MS, 500);
    assert_eq!(RETRY_SLEEP_MS, 200);
    assert!(wait_window_open(0, 2000));
    assert!(wait_window_open(1999, 2000));
    assert!(!wait_window_open(2000, 2000));
    assert!(!wait_window_open(5000, 2000));
}
