use vstd::prelude::*;
use crate::job::{BackupJob, BackupJobView};
use crate::message::{Message, MessageView, Record, RecordView};
use crate::outcome::{outcome_described, ExecutionOutcome, ExecutionOutcomeView};

verus! {

/// The record a job with the given parameters and outcome reports:
/// the timestamp is the construction time, the version is the constant
/// "1", and the embedded message carries the job's paths together with
/// either the measured sizes (success, empty error text) or the failure
/// message (failure, both sizes zero).
pub open spec fn spec_build_record(
    job: BackupJobView,
    outcome: ExecutionOutcomeView,
    timestamp: Seq<char>,
    elapsed_ms: u64,
) -> RecordView {
    RecordView {
        timestamp: timestamp,
        index_name: job.index_name,
        version: "1"@,
        password: job.password,
        host: job.source_host,
        message: Some(MessageView {
            source: job.source,
            filename: job.filename,
            dst: job.dst_dir,
            error: match outcome {
                ExecutionOutcomeView::Success { .. } => Seq::<char>::empty(),
                ExecutionOutcomeView::Failure { message } => message,
            },
            orig_size: match outcome {
                ExecutionOutcomeView::Success { source_bytes, .. } => source_bytes,
                ExecutionOutcomeView::Failure { .. } => 0,
            },
            back_size: match outcome {
                ExecutionOutcomeView::Success { result_bytes, .. } => result_bytes,
                ExecutionOutcomeView::Failure { .. } => 0,
            },
            time_spent_ms: elapsed_ms,
        }),
    }
}

/// Builds the status record for one job invocation: a pure function of
/// the job, the outcome, the construction timestamp and the elapsed time.
pub fn build_record(
    job: &BackupJob,
    outcome: &ExecutionOutcome,
    timestamp: String,
    elapsed_ms: u64,
) -> (r: Record)
    ensures
        r@ == spec_build_record(job@, outcome@, timestamp@, elapsed_ms),
{
    let (error, orig_size, back_size): (String, u64, u64) = match outcome {
        ExecutionOutcome::Success { source_bytes, result_bytes } => {
            (String::new(), *source_bytes, *result_bytes)
        },
        ExecutionOutcome::Failure { message } => (message.clone(), 0, 0),
    };
    Record {
        timestamp,
        index_name: job.index_name.clone(),
        version: String::from_str("1"),
        password: job.password.clone(),
        host: job.source_host.clone(),
        message: Some(Message {
            source: job.source.clone(),
            filename: job.filename.clone(),
            dst: job.dst_dir.clone(),
            error,
            orig_size,
            back_size,
            time_spent_ms: elapsed_ms,
        }),
    }
}

/// Law (error text signals success): a record built from a described
/// outcome — one whose failure, if any, carries a message — has an
/// empty error text exactly when the backup step succeeded, so the
/// collector can read the error field as the success flag.
pub proof fn lemma_error_text_signals_success(
    job: BackupJobView,
    outcome: ExecutionOutcomeView,
    timestamp: Seq<char>,
    elapsed_ms: u64,
)
    requires
        outcome_described(outcome),
    ensures
        spec_build_record(job, outcome, timestamp, elapsed_ms).message matches Some(m) && (m.error.len()
            == 0 <==> outcome is Success),
{
}

/// Two records have the same shape when they agree on every field except
/// the timestamp and the elapsed-time measurement.
pub open spec fn same_shape(a: RecordView, b: RecordView) -> bool {
    &&& a.index_name == b.index_name
    &&& a.version == b.version
    &&& a.password == b.password
    &&& a.host == b.host
    &&& match (a.message, b.message) {
        (Some(ma), Some(mb)) => {
            &&& ma.source == mb.source
            &&& ma.filename == mb.filename
            &&& ma.dst == mb.dst
            &&& ma.error == mb.error
            &&& ma.orig_size == mb.orig_size
            &&& ma.back_size == mb.back_size
        },
        (None, None) => true,
        _ => false,
    }
}

/// Law: the report's shape is a function of the job parameters and the
/// outcome alone.  Two records built from identical parameters and
/// identical outcomes can differ only in their timestamp and
/// elapsed-time fields.
pub proof fn lemma_report_shape_deterministic(
    job: BackupJobView,
    outcome: ExecutionOutcomeView,
    ts1: Seq<char>,
    ms1: u64,
    ts2: Seq<char>,
    ms2: u64,
)
    ensures
        same_shape(
            spec_build_record(job, outcome, ts1, ms1),
            spec_build_record(job, outcome, ts2, ms2),
        ),
{
}

} // verus!
