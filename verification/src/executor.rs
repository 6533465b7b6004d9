use vstd::prelude::*;
use vstd::string::StringExecFns;
use crate::job::{BackupJob, BackupJobView};
use crate::outcome::{outcome_described, ExecutionOutcome, ExecutionOutcomeView};

verus! {

/// What a look at the filesystem found before any write was attempted.
/// The caller gathers these plain observations; the decisions taken on
/// them live here.
pub struct FsProbe {
    /// Canonicalized source path, or the error text when resolving failed.
    pub canonical: Result<String, String>,
    /// Whether the canonical source path exists.
    pub source_exists: bool,
    /// Whether the canonical source path is a directory.
    pub source_is_dir: bool,
    /// Whether the destination directory exists.
    pub dst_exists: bool,
    /// Whether the destination path is a directory.
    pub dst_is_dir: bool,
    /// Whether the destination file (directory joined with the logical
    /// filename) already exists.
    pub dst_file_exists: bool,
    /// The joined destination file path, as text.
    pub dst_file_path: String,
}

/// Model of a probe.
pub ghost struct FsProbeView {
    pub canonical: Result<Seq<char>, Seq<char>>,
    pub source_exists: bool,
    pub source_is_dir: bool,
    pub dst_exists: bool,
    pub dst_is_dir: bool,
    pub dst_file_exists: bool,
    pub dst_file_path: Seq<char>,
}

impl View for FsProbe {
    type V = FsProbeView;

    open spec fn view(&self) -> FsProbeView {
        FsProbeView {
            canonical: match self.canonical {
                Ok(ref p) => Ok(p@),
                Err(ref e) => Err(e@),
            },
            source_exists: self.source_exists,
            source_is_dir: self.source_is_dir,
            dst_exists: self.dst_exists,
            dst_is_dir: self.dst_is_dir,
            dst_file_exists: self.dst_file_exists,
            dst_file_path: self.dst_file_path@,
        }
    }
}

/// The first problem a probe reveals, or `None` when every precondition
/// holds.  The order is fixed: unresolvable source, then missing or
/// directory source, then missing destination directory, then an
/// already-existing destination file.  Later checks are not consulted
/// once one fails.
pub open spec fn spec_precheck(job: BackupJobView, p: FsProbeView) -> Option<Seq<char>> {
    match p.canonical {
        Err(e) => Some("File does not exist: "@ + e),
        Ok(_) => if !p.source_exists || p.source_is_dir {
            Some("Source file not exists or dir: "@ + job.source)
        } else if !(p.dst_exists && p.dst_is_dir) {
            Some("Destination dir does not exists: "@ + job.dst_dir)
        } else if p.dst_file_exists {
            Some("Can`t rewrite path: "@ + p.dst_file_path)
        } else {
            None
        },
    }
}

/// Every fixed message prefix this module emits is non-empty, so every
/// emitted failure message is too.
proof fn lemma_prefixes_nonempty()
    ensures
        "File does not exist: "@.len() > 0,
        "Source file not exists or dir: "@.len() > 0,
        "Destination dir does not exists: "@.len() > 0,
        "Can`t rewrite path: "@.len() > 0,
        "Can`t read backup file: "@.len() > 0,
        "Can`t write backup file: "@.len() > 0,
        "Can`t copy file: "@.len() > 0,
        "Can`t read backup size: "@.len() > 0,
        "Command 'pg_basebackup -v' error: "@.len() > 0,
        "Execute error: "@.len() > 0,
        "pg_basebackup failed: "@.len() > 0,
{
    reveal_strlit("File does not exist: ");
    reveal_strlit("Source file not exists or dir: ");
    reveal_strlit("Destination dir does not exists: ");
    reveal_strlit("Can`t rewrite path: ");
    reveal_strlit("Can`t read backup file: ");
    reveal_strlit("Can`t write backup file: ");
    reveal_strlit("Can`t copy file: ");
    reveal_strlit("Can`t read backup size: ");
    reveal_strlit("Command 'pg_basebackup -v' error: ");
    reveal_strlit("Execute error: ");
    reveal_strlit("pg_basebackup failed: ");
}

/// Checks the preconditions of a copy or archive job against what the
/// probe observed, reporting the first detected problem.  With `None`
/// the destination file does not exist, so no existing file can be
/// overwritten by the step that follows.  A reported problem is never
/// the empty string.
pub fn precheck(job: &BackupJob, p: &FsProbe) -> (r: Option<String>)
    ensures
        r.deep_view() == spec_precheck(job@, p@),
        r matches Some(m) ==> m@.len() > 0,
{
    proof {
        lemma_prefixes_nonempty();
    }
    match &p.canonical {
        Err(e) => Some(concat_msg("File does not exist: ", e.as_str())),
        Ok(_) => {
            if !p.source_exists || p.source_is_dir {
                Some(concat_msg("Source file not exists or dir: ", job.source.as_str()))
            } else if !(p.dst_exists && p.dst_is_dir) {
                Some(concat_msg("Destination dir does not exists: ", job.dst_dir.as_str()))
            } else if p.dst_file_exists {
                Some(concat_msg("Can`t rewrite path: ", p.dst_file_path.as_str()))
            } else {
                None
            }
        },
    }
}

/// Law (no overwrite): whenever the destination file already exists,
/// the precheck reports a problem — no probe can pass it — so the step
/// that writes is never reached and the existing file is left as it is.
pub proof fn lemma_no_overwrite(job: BackupJobView, p: FsProbeView)
    requires
        p.dst_file_exists,
    ensures
        spec_precheck(job, p) is Some,
{
}

/// The input/output steps whose failure the executor captures as text.
#[derive(Clone, Copy, PartialEq, Eq, Structural, Debug)]
pub enum IoStep {
    /// Reading the source file.
    ReadSource,
    /// Creating the destination file.
    CreateDestination,
    /// Copying the source to the destination.
    CopyFile,
    /// Reading the destination's byte length back from disk.
    StatDestination,
}

/// The failure message for a step: its fixed prefix, then the underlying
/// error text.
pub open spec fn spec_io_failure(step: IoStep, detail: Seq<char>) -> Seq<char> {
    match step {
        IoStep::ReadSource => "Can`t read backup file: "@ + detail,
        IoStep::CreateDestination => "Can`t write backup file: "@ + detail,
        IoStep::CopyFile => "Can`t copy file: "@ + detail,
        IoStep::StatDestination => "Can`t read backup size: "@ + detail,
    }
}

/// Captures the failure of an input/output step as a failure outcome;
/// its message is never empty.
pub fn io_failure_outcome(step: IoStep, detail: &str) -> (r: ExecutionOutcome)
    ensures
        r@ == (ExecutionOutcomeView::Failure { message: spec_io_failure(step, detail@) }),
        outcome_described(r@),
{
    proof {
        lemma_prefixes_nonempty();
    }
    let message = match step {
        IoStep::ReadSource => concat_msg("Can`t read backup file: ", detail),
        IoStep::CreateDestination => concat_msg("Can`t write backup file: ", detail),
        IoStep::CopyFile => concat_msg("Can`t copy file: ", detail),
        IoStep::StatDestination => concat_msg("Can`t read backup size: ", detail),
    };
    ExecutionOutcome::Failure { message }
}

/// The outcome of a plain copy, from the copy result and the destination
/// length read back from disk.
pub open spec fn spec_copy_outcome(
    copy: Result<u64, Seq<char>>,
    stat: Result<u64, Seq<char>>,
) -> ExecutionOutcomeView {
    match copy {
        Err(e) => ExecutionOutcomeView::Failure { message: spec_io_failure(IoStep::CopyFile, e) },
        Ok(n) => match stat {
            Err(e) => ExecutionOutcomeView::Failure {
                message: spec_io_failure(IoStep::StatDestination, e),
            },
            Ok(m) => ExecutionOutcomeView::Success { source_bytes: n, result_bytes: m },
        },
    }
}

/// Assembles the outcome of a plain copy.  `copy_result` is the byte
/// count the copy reported (the source length) or its error;
/// `stat_result` is the destination's length read back from disk, which
/// is taken as authoritative for the resulting size, or its error.
pub fn copy_outcome(copy_result: Result<u64, String>, stat_result: Result<u64, String>) -> (r:
    ExecutionOutcome)
    ensures
        r@ == spec_copy_outcome(size_result_view(copy_result), size_result_view(stat_result)),
        outcome_described(r@),
{
    match copy_result {
        Err(e) => io_failure_outcome(IoStep::CopyFile, e.as_str()),
        Ok(n) => match stat_result {
            Err(e) => io_failure_outcome(IoStep::StatDestination, e.as_str()),
            Ok(m) => ExecutionOutcome::Success { source_bytes: n, result_bytes: m },
        },
    }
}

/// The outcome of the archive variant once the entry was written:
/// the bytes stored into the entry, and the archive length read back
/// from disk.
pub open spec fn spec_archive_outcome(
    entry_bytes: u64,
    stat: Result<u64, Seq<char>>,
) -> ExecutionOutcomeView {
    match stat {
        Err(e) => ExecutionOutcomeView::Failure {
            message: spec_io_failure(IoStep::StatDestination, e),
        },
        Ok(m) => ExecutionOutcomeView::Success { source_bytes: entry_bytes, result_bytes: m },
    }
}

/// Assembles the outcome of an archive job.  `entry_bytes` is how many
/// bytes went into the archive entry; `stat_result` is the finished
/// archive's length read back from disk.
pub fn archive_outcome(entry_bytes: u64, stat_result: Result<u64, String>) -> (r: ExecutionOutcome)
    ensures
        r@ == spec_archive_outcome(entry_bytes, size_result_view(stat_result)),
        outcome_described(r@),
{
    match stat_result {
        Err(e) => io_failure_outcome(IoStep::StatDestination, e.as_str()),
        Ok(m) => ExecutionOutcome::Success { source_bytes: entry_bytes, result_bytes: m },
    }
}

/// A size measurement or its error text.
pub open spec fn size_result_view(r: Result<u64, String>) -> Result<u64, Seq<char>> {
    match r {
        Ok(n) => Ok(n),
        Err(e) => Err(e@),
    }
}

/// What running the external base-backup tool produced.
pub struct ToolOutput {
    /// Whether the tool exited successfully.
    pub success: bool,
    /// Everything the tool wrote to standard output.
    pub stdout: String,
    /// Everything the tool wrote to standard error.
    pub stderr: String,
}

/// Model of a tool run.
pub ghost struct ToolOutputView {
    pub success: bool,
    pub stdout: Seq<char>,
    pub stderr: Seq<char>,
}

impl View for ToolOutput {
    type V = ToolOutputView;

    open spec fn view(&self) -> ToolOutputView {
        ToolOutputView { success: self.success, stdout: self.stdout@, stderr: self.stderr@ }
    }
}

/// The outcome of the external-full variant.  `probe` is the result of
/// checking that the tool can be spawned at all; `run` is the tool run,
/// absent exactly when the probe failed.  A spawn failure or a non-zero
/// exit is a failure with the tool's output captured; on success both
/// sizes are zero, since the tool's output is opaque here.
pub open spec fn spec_full_outcome(
    probe: Result<(), Seq<char>>,
    run: Option<Result<ToolOutputView, Seq<char>>>,
) -> ExecutionOutcomeView {
    match probe {
        Err(e) => ExecutionOutcomeView::Failure {
            message: "Command 'pg_basebackup -v' error: "@ + e,
        },
        Ok(_) => match run {
            Some(Err(e)) => ExecutionOutcomeView::Failure { message: "Execute error: "@ + e },
            Some(Ok(out)) => if out.success {
                ExecutionOutcomeView::Success { source_bytes: 0, result_bytes: 0 }
            } else {
                ExecutionOutcomeView::Failure {
                    message: "pg_basebackup failed: "@ + out.stderr + out.stdout,
                }
            },
            None => ExecutionOutcomeView::Failure { message: Seq::<char>::empty() },
        },
    }
}

/// Model of the probe and run results handed to [`full_outcome`].
pub open spec fn probe_view(r: Result<(), String>) -> Result<(), Seq<char>> {
    match r {
        Ok(_) => Ok(()),
        Err(e) => Err(e@),
    }
}

/// Model of the optional tool run handed to [`full_outcome`].
pub open spec fn run_view(r: Option<Result<ToolOutput, String>>) -> Option<
    Result<ToolOutputView, Seq<char>>,
> {
    match r {
        Some(Ok(out)) => Some(Ok(out@)),
        Some(Err(e)) => Some(Err(e@)),
        None => None,
    }
}

/// Assembles the outcome of an external-full job from the spawn probe
/// and the tool run.
pub fn full_outcome(probe: Result<(), String>, run: Option<Result<ToolOutput, String>>) -> (r:
    ExecutionOutcome)
    requires
        probe is Ok <==> run is Some,
    ensures
        r@ == spec_full_outcome(probe_view(probe), run_view(run)),
        outcome_described(r@),
{
    proof {
        lemma_prefixes_nonempty();
    }
    match probe {
        Err(e) => ExecutionOutcome::Failure {
            message: concat_msg("Command 'pg_basebackup -v' error: ", e.as_str()),
        },
        Ok(_) => match run {
            Some(Err(e)) => ExecutionOutcome::Failure {
                message: concat_msg("Execute error: ", e.as_str()),
            },
            Some(Ok(out)) => {
                if out.success {
                    ExecutionOutcome::Success { source_bytes: 0, result_bytes: 0 }
                } else {
                    let mut message = String::from_str("pg_basebackup failed: ");
                    message.append(out.stderr.as_str());
                    message.append(out.stdout.as_str());
                    ExecutionOutcome::Failure { message }
                }
            },
            None => ExecutionOutcome::Failure { message: String::new() },
        },
    }
}

/// The argument list for the external base-backup tool, derived from the
/// job: the destination, the plain format, recovery configuration, then
/// optionally maximum compression, verbose progress, and the database
/// connection string.
pub open spec fn spec_full_args(job: BackupJobView) -> Seq<Seq<char>> {
    seq!["-D"@, job.dst_dir, "-Fp"@, "-R"@] + (if job.archive {
        seq!["-z"@, "-Z"@, "9"@]
    } else {
        Seq::<Seq<char>>::empty()
    }) + (if job.debug {
        seq!["-P"@, "--verbose"@]
    } else {
        Seq::<Seq<char>>::empty()
    }) + (if job.dbname.len() > 0 {
        seq!["--dbname"@, job.dbname]
    } else {
        Seq::<Seq<char>>::empty()
    })
}

/// Builds the argument list for the external base-backup tool.
pub fn full_backup_args(job: &BackupJob) -> (r: Vec<String>)
    ensures
        r.deep_view() == spec_full_args(job@),
{
    let mut args: Vec<String> = Vec::new();
    args.push(String::from_str("-D"));
    args.push(job.dst_dir.clone());
    args.push(String::from_str("-Fp"));
    args.push(String::from_str("-R"));
    if job.archive {
        args.push(String::from_str("-z"));
        args.push(String::from_str("-Z"));
        args.push(String::from_str("9"));
    }
    if job.debug {
        args.push(String::from_str("-P"));
        args.push(String::from_str("--verbose"));
    }
    if !job.dbname.as_str().is_empty() {
        args.push(String::from_str("--dbname"));
        args.push(job.dbname.clone());
    }
    proof {
        assert(args.deep_view() =~~= spec_full_args(job@));
    }
    args
}

/// Appends the detail text to a fixed prefix.
fn concat_msg(prefix: &str, detail: &str) -> (r: String)
    ensures
        r@ == prefix@ + detail@,
{
    let mut s = String::from_str(prefix);
    s.append(detail);
    s
}

} // verus!
