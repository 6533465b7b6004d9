use postgres_backup::job::BackupJob;
use postgres_backup::message::Record;
use postgres_backup::outcome::ExecutionOutcome;
use postgres_backup::report::build_record;

fn job() -> BackupJob {
    BackupJob::wal_job(
        String::from("/tmp/a.wal"),
        String::from("a.wal"),
        String::from("/tmp/out"),
        true,
        String::from("collector:5000"),
        String::from("secret"),
        String::from("idx"),
        String::from("h1"),
    )
}

#[test]
fn success_populates_sizes_and_empty_error() {
    let outcome = ExecutionOutcome::Success { source_bytes: 8, result_bytes: 170 };
    let r = build_record(&job(), &outcome, String::from("ts"), 42);
    assert_eq!(r.timestamp, "ts");
    assert_eq!(r.index_name, "idx");
    assert_eq!(r.version, "1");
    assert_eq!(r.password, "secret");
    assert_eq!(r.host, "h1");
    let m = r.message.expect("message is always present");
    assert_eq!(m.source, "/tmp/a.wal");
    assert_eq!(m.filename, "a.wal");
    assert_eq!(m.dst, "/tmp/out");
    assert_eq!(m.error, "");
    assert_eq!(m.orig_size, 8);
    assert_eq!(m.back_size, 170);
    assert_eq!(m.time_spent_ms, 42);
}

#[test]
fn failure_keeps_sizes_at_zero() {
    let outcome = ExecutionOutcome::Failure { message: String::from("Can`t copy file: oops") };
    let r = build_record(&job(), &outcome, String::from("ts"), 42);
    let m = r.message.expect("message is always present");
    assert_eq!(m.error, "Can`t copy file: oops");
    assert_eq!(m.orig_size, 0);
    assert_eq!(m.back_size, 0);
}

fn shape_of(r: &Record) -> (String, String, String, String, Vec<String>, u64, u64) {
    let m = r.message.as_ref().expect("message is always present");
    (
        r.index_name.clone(),
        r.version.clone(),
        r.password.clone(),
        r.host.clone(),
        vec![m.source.clone(), m.filename.clone(), m.dst.clone(), m.error.clone()],
        m.orig_size,
        m.back_size,
    )
}

#[test]
fn identical_jobs_and_outcomes_give_the_same_shape() {
    let outcome1 = ExecutionOutcome::Success { source_bytes: 5, result_bytes: 6 };
    let outcome2 = ExecutionOutcome::Success { source_bytes: 5, result_bytes: 6 };
    let r1 = build_record(&job(), &outcome1, String::from("2024-01-01T00:00:00.000Z"), 10);
    let r2 = build_record(&job(), &outcome2, String::from("2024-06-30T12:34:56.789Z"), 9999);
    assert_eq!(shape_of(&r1), shape_of(&r2));
    assert_ne!(r1.timestamp, r2.timestamp);
    let (m1, m2) = (r1.message.unwrap(), r2.message.unwrap());
    assert_ne!(m1.time_spent_ms, m2.time_spent_ms);
}
