use postgres_backup::executor::{
    archive_outcome, copy_outcome, full_backup_args, full_outcome, io_failure_outcome, precheck,
    FsProbe, IoStep, ToolOutput,
};
use postgres_backup::job::{BackupJob, BackupVariant};
use postgres_backup::outcome::ExecutionOutcome;

fn wal_job() -> BackupJob {
    BackupJob::wal_job(
        String::from("/tmp/a.wal"),
        String::from("a.wal"),
        String::from("/tmp/out"),
        false,
        String::from("collector:5000"),
        String::from("secret"),
        String::from("idx"),
        String::from("h1"),
    )
}

fn clean_probe() -> FsProbe {
    FsProbe {
        canonical: Ok(String::from("/tmp/a.wal")),
        source_exists: true,
        source_is_dir: false,
        dst_exists: true,
        dst_is_dir: true,
        dst_file_exists: false,
        dst_file_path: String::from("/tmp/out/a.wal"),
    }
}

#[test]
fn clean_probe_passes_precheck() {
    assert_eq!(precheck(&wal_job(), &clean_probe()), None);
}

#[test]
fn unresolvable_source_is_reported_first() {
    let mut p = clean_probe();
    p.canonical = Err(String::from("No such file or directory"));
    p.dst_file_exists = true;
    assert_eq!(
        precheck(&wal_job(), &p),
        Some(String::from("File does not exist: No such file or directory"))
    );
}

#[test]
fn missing_source_is_reported() {
    let mut p = clean_probe();
    p.source_exists = false;
    assert_eq!(
        precheck(&wal_job(), &p),
        Some(String::from("Source file not exists or dir: /tmp/a.wal"))
    );
}

#[test]
fn directory_source_is_reported() {
    let mut p = clean_probe();
    p.source_is_dir = true;
    assert_eq!(
        precheck(&wal_job(), &p),
        Some(String::from("Source file not exists or dir: /tmp/a.wal"))
    );
}

#[test]
fn missing_destination_dir_is_reported() {
    let mut p = clean_probe();
    p.dst_exists = false;
    assert_eq!(
        precheck(&wal_job(), &p),
        Some(String::from("Destination dir does not exists: /tmp/out"))
    );
}

#[test]
fn existing_destination_file_is_never_overwritten() {
    let mut p = clean_probe();
    p.dst_file_exists = true;
    assert_eq!(
        precheck(&wal_job(), &p),
        Some(String::from("Can`t rewrite path: /tmp/out/a.wal"))
    );
}

#[test]
fn plain_copy_records_both_sizes() {
    for n in [0u64, 1, 10 * 1024 * 1024] {
        match copy_outcome(Ok(n), Ok(n)) {
            ExecutionOutcome::Success { source_bytes, result_bytes } => {
                assert_eq!(source_bytes, n);
                assert_eq!(result_bytes, n);
            }
            ExecutionOutcome::Failure { .. } => panic!("expected success"),
        }
    }
}

#[test]
fn truncated_destination_is_visible_in_result_size() {
    match copy_outcome(Ok(100), Ok(60)) {
        ExecutionOutcome::Success { source_bytes, result_bytes } => {
            assert_eq!(source_bytes, 100);
            assert_eq!(result_bytes, 60);
        }
        ExecutionOutcome::Failure { .. } => panic!("expected success"),
    }
}

#[test]
fn copy_error_is_captured() {
    match copy_outcome(Err(String::from("disk full")), Err(String::from("unused"))) {
        ExecutionOutcome::Failure { message } => {
            assert_eq!(message, "Can`t copy file: disk full");
        }
        ExecutionOutcome::Success { .. } => panic!("expected failure"),
    }
}

#[test]
fn stat_error_is_captured() {
    match copy_outcome(Ok(8), Err(String::from("gone"))) {
        ExecutionOutcome::Failure { message } => {
            assert_eq!(message, "Can`t read backup size: gone");
        }
        ExecutionOutcome::Success { .. } => panic!("expected failure"),
    }
}

#[test]
fn archive_outcome_uses_entry_bytes_and_disk_length() {
    match archive_outcome(8, Ok(170)) {
        ExecutionOutcome::Success { source_bytes, result_bytes } => {
            assert_eq!(source_bytes, 8);
            assert_eq!(result_bytes, 170);
        }
        ExecutionOutcome::Failure { .. } => panic!("expected success"),
    }
}

#[test]
fn io_failure_messages_carry_their_step_prefix() {
    let cases = [
        (IoStep::ReadSource, "Can`t read backup file: e1"),
        (IoStep::CreateDestination, "Can`t write backup file: e1"),
        (IoStep::CopyFile, "Can`t copy file: e1"),
        (IoStep::StatDestination, "Can`t read backup size: e1"),
    ];
    for (step, expect) in cases {
        match io_failure_outcome(step, "e1") {
            ExecutionOutcome::Failure { message } => assert_eq!(message, expect),
            ExecutionOutcome::Success { .. } => panic!("expected failure"),
        }
    }
}

fn full_job(zip: bool, dbname: &str, debug: bool) -> BackupJob {
    BackupJob::full_job(
        String::from("/var/backup"),
        zip,
        String::from(dbname),
        debug,
        String::from("collector:5000"),
        String::from("secret"),
        String::new(),
        String::new(),
    )
}

#[test]
fn full_job_fixes_source_and_filename() {
    let job = full_job(false, "", false);
    assert_eq!(job.source, "");
    assert_eq!(job.filename, "FULL COPY");
    assert!(matches!(job.variant, BackupVariant::ExternalFull));
}

#[test]
fn base_args_for_a_plain_run() {
    let args = full_backup_args(&full_job(false, "", false));
    assert_eq!(args, vec!["-D", "/var/backup", "-Fp", "-R"]);
}

#[test]
fn compression_debug_and_dbname_extend_the_args() {
    let args = full_backup_args(&full_job(true, "host=db", true));
    assert_eq!(
        args,
        vec!["-D", "/var/backup", "-Fp", "-R", "-z", "-Z", "9", "-P", "--verbose", "--dbname", "host=db"]
    );
}

#[test]
fn spawn_probe_failure_is_captured() {
    match full_outcome(Err(String::from("not found")), None) {
        ExecutionOutcome::Failure { message } => {
            assert_eq!(message, "Command 'pg_basebackup -v' error: not found");
        }
        ExecutionOutcome::Success { .. } => panic!("expected failure"),
    }
}

#[test]
fn run_error_is_captured() {
    match full_outcome(Ok(()), Some(Err(String::from("broken pipe")))) {
        ExecutionOutcome::Failure { message } => {
            assert_eq!(message, "Execute error: broken pipe");
        }
        ExecutionOutcome::Success { .. } => panic!("expected failure"),
    }
}

#[test]
fn nonzero_exit_captures_the_tool_output() {
    let run = ToolOutput {
        success: false,
        stdout: String::from("out"),
        stderr: String::from("err"),
    };
    match full_outcome(Ok(()), Some(Ok(run))) {
        ExecutionOutcome::Failure { message } => {
            assert_eq!(message, "pg_basebackup failed: errout");
        }
        ExecutionOutcome::Success { .. } => panic!("expected failure"),
    }
}

#[test]
fn successful_run_has_zero_sizes() {
    let run = ToolOutput { success: true, stdout: String::from("done"), stderr: String::new() };
    match full_outcome(Ok(()), Some(Ok(run))) {
        ExecutionOutcome::Success { source_bytes, result_bytes } => {
            assert_eq!(source_bytes, 0);
            assert_eq!(result_bytes, 0);
        }
        ExecutionOutcome::Failure { .. } => panic!("expected success"),
    }
}
