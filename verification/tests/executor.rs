use healthcheck::executor::run_check;
use healthcheck::outcome::Status;

#[test]
fn success_becomes_pass_with_detail() {
    let r = run_check("PostgreSQL", "rust-postgres", || Ok(String::from("ok")));
    assert_eq!(r.status, Status::Pass);
    assert_eq!(r.detail, "ok");
    assert_eq!(r.service, "PostgreSQL");
    assert_eq!(r.client, "rust-postgres");
    assert!(r.duration_ms >= 0);
}

#[test]
fn failure_becomes_fail_with_message() {
    let r = run_check("Kafka", "rust-rdkafka", || Err(String::from("boom")));
    assert_eq!(r.status, Status::Fail);
    assert!(r.detail.contains("boom"));
}

#[test]
fn failure_is_contained_not_propagated() {
    let r = run_check("MinIO", "rust-s3", || {
        let failing: Result<String, String> = String::from_utf8(vec![0xff])
            .map(|s| s)
            .map_err(|e| e.to_string());
        failing
    });
    assert_eq!(r.status, Status::Fail);
    assert!(!r.detail.is_empty());
}
