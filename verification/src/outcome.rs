use vstd::prelude::*;

verus! {

/// What the backup step produced: metrics on success, a descriptive
/// message on any failure.  Exactly one variant exists per execution.
pub enum ExecutionOutcome {
    /// The backup step finished; both sizes were measured.
    Success {
        /// Bytes taken from the source (file length for a plain copy,
        /// bytes written into the archive entry for the archive variant,
        /// zero for the external-full variant).
        source_bytes: u64,
        /// Byte length of the written destination, read back from disk;
        /// zero for the external-full variant.
        result_bytes: u64,
    },
    /// The backup step failed; the first detected problem, as text.
    Failure {
        /// Human-readable description of the failure.
        message: String,
    },
}

/// Model of an outcome: the failure message as a character sequence.
pub ghost enum ExecutionOutcomeView {
    Success { source_bytes: u64, result_bytes: u64 },
    Failure { message: Seq<char> },
}

/// A failure always carries a description: the wire rule "empty error
/// text means success" depends on it.  Every producer of an outcome in
/// this crate guarantees it.
pub open spec fn outcome_described(oc: ExecutionOutcomeView) -> bool {
    oc matches ExecutionOutcomeView::Failure { message } ==> message.len() > 0
}

impl View for ExecutionOutcome {
    type V = ExecutionOutcomeView;

    open spec fn view(&self) -> ExecutionOutcomeView {
        match self {
            ExecutionOutcome::Success { source_bytes, result_bytes } => {
                ExecutionOutcomeView::Success {
                    source_bytes: *source_bytes,
                    result_bytes: *result_bytes,
                }
            },
            ExecutionOutcome::Failure { message } => {
                ExecutionOutcomeView::Failure { message: message@ }
            },
        }
    }
}

} // verus!
