use postgres_backup::job::BackupJob;
use postgres_backup::outcome::ExecutionOutcome;
use postgres_backup::pipeline::{Pipeline, PipelineError, Stage};
use postgres_backup::transport::{transport_outcome, TransportError, WRITE_TIMEOUT_MS, WRITE_TIMEOUT_NANOS};

fn job_with_host(host: &str) -> BackupJob {
    BackupJob::wal_job(
        String::from("/tmp/a.wal"),
        String::from("a.wal"),
        String::from("/tmp/out"),
        false,
        String::from(host),
        String::from("secret"),
        String::from("idx"),
        String::from("h1"),
    )
}

fn started(host: &str) -> Pipeline {
    match Pipeline::new(job_with_host(host)) {
        Ok(p) => p,
        Err(_) => panic!("expected the pipeline to start"),
    }
}

#[test]
fn empty_host_is_rejected_before_anything_runs() {
    match Pipeline::new(job_with_host("")) {
        Err(PipelineError::Input(m)) => assert_eq!(m, "ELK host is needed"),
        _ => panic!("expected an input error"),
    }
}

#[test]
fn successful_job_with_delivered_report_succeeds() {
    let mut p = started("collector:5000");
    assert!(matches!(p.stage, Stage::Started));
    p.record_outcome(ExecutionOutcome::Success { source_bytes: 8, result_bytes: 8 });
    p.build_report();
    let payload = p.payload();
    let v: serde_json::Value =
        serde_json::from_slice(&payload).expect("payload parses as JSON");
    assert_eq!(v["version"], "1");
    assert_eq!(v["password"], "secret");
    assert_eq!(v["index_name"], "idx");
    assert_eq!(v["host"], "h1");
    assert_eq!(v["message"]["error"], "");
    assert_eq!(v["message"]["orig_size"], 8);
    assert_eq!(v["message"]["back_size"], 8);
    p.record_delivery(Ok(payload.len() as u64));
    assert!(p.finish().is_ok());
}

#[test]
fn report_timestamp_is_utc_shaped() {
    let mut p = started("collector:5000");
    p.record_outcome(ExecutionOutcome::Success { source_bytes: 1, result_bytes: 1 });
    p.build_report();
    let v: serde_json::Value =
        serde_json::from_slice(&p.payload()).expect("payload parses as JSON");
    let ts = v["timestamp"].as_str().expect("timestamp is a string");
    assert_eq!(ts.len(), 24, "timestamp: {ts}");
    let b = ts.as_bytes();
    for i in [0, 1, 2, 3, 5, 6, 8, 9, 11, 12, 14, 15, 17, 18, 20, 21, 22] {
        assert!(b[i].is_ascii_digit(), "timestamp: {ts}");
    }
    assert_eq!(b[4], b'-');
    assert_eq!(b[7], b'-');
    assert_eq!(b[10], b'T');
    assert_eq!(b[13], b':');
    assert_eq!(b[16], b':');
    assert_eq!(b[19], b'.');
    assert_eq!(b[23], b'Z');
    p.record_delivery(Ok(1));
    assert!(p.finish().is_ok());
}

#[test]
fn execution_failure_is_still_reported_then_surfaces() {
    let mut p = started("collector:5000");
    p.record_outcome(ExecutionOutcome::Failure {
        message: String::from("Destination dir does not exists: /tmp/out"),
    });
    p.build_report();
    let payload = p.payload();
    let v: serde_json::Value =
        serde_json::from_slice(&payload).expect("payload parses as JSON");
    assert_eq!(v["message"]["error"], "Destination dir does not exists: /tmp/out");
    assert_eq!(v["message"]["orig_size"], 0);
    assert_eq!(v["message"]["back_size"], 0);
    p.record_delivery(Ok(payload.len() as u64));
    match p.finish() {
        Err(PipelineError::Execution(m)) => {
            assert_eq!(m, "Destination dir does not exists: /tmp/out");
        }
        _ => panic!("expected the execution failure to surface"),
    }
}

#[test]
fn transport_failure_outranks_execution_failure() {
    let mut p = started("collector:5000");
    p.record_outcome(ExecutionOutcome::Failure { message: String::from("copy failed") });
    p.build_report();
    let _payload = p.payload();
    p.record_delivery(Err(TransportError::Write(String::from("timed out"))));
    match p.finish() {
        Err(PipelineError::Transport(TransportError::Write(e))) => {
            assert_eq!(e, "timed out");
        }
        _ => panic!("expected the transport error to take precedence"),
    }
}

#[test]
fn transport_failure_fails_an_otherwise_successful_job() {
    let mut p = started("collector:5000");
    p.record_outcome(ExecutionOutcome::Success { source_bytes: 1, result_bytes: 1 });
    p.build_report();
    let _payload = p.payload();
    p.record_delivery(Err(TransportError::Connect(String::from("refused"))));
    assert!(matches!(
        p.finish(),
        Err(PipelineError::Transport(TransportError::Connect(_)))
    ));
}

#[test]
fn write_deadline_is_a_quarter_second() {
    assert_eq!(WRITE_TIMEOUT_MS, 250);
    assert_eq!(WRITE_TIMEOUT_NANOS, 250_000_000);
    assert_eq!(WRITE_TIMEOUT_MS as u32 * 1_000_000, WRITE_TIMEOUT_NANOS);
}

#[test]
fn failed_connect_decides_alone() {
    match transport_outcome(Err(String::from("refused")), None, None) {
        Err(TransportError::Connect(e)) => assert_eq!(e, "refused"),
        _ => panic!("expected a connect error"),
    }
}

#[test]
fn failed_deadline_configuration_is_its_own_error() {
    match transport_outcome(Ok(()), Some(Err(String::from("bad fd"))), None) {
        Err(TransportError::Configure(e)) => assert_eq!(e, "bad fd"),
        _ => panic!("expected a configure error"),
    }
}

#[test]
fn failed_write_is_its_own_error() {
    match transport_outcome(Ok(()), Some(Ok(())), Some(Err(String::from("timed out")))) {
        Err(TransportError::Write(e)) => assert_eq!(e, "timed out"),
        _ => panic!("expected a write error"),
    }
}

#[test]
fn successful_write_reports_the_byte_count() {
    match transport_outcome(Ok(()), Some(Ok(())), Some(Ok(123))) {
        Ok(n) => assert_eq!(n, 123),
        Err(_) => panic!("expected success"),
    }
}
