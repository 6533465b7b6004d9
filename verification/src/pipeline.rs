use vstd::prelude::*;
use vstd::pervasive::unreached;
use vstd::string::StringExecFns;
use crate::clock::{clock_reading, elapsed_millis, is_utc_timestamp};
use crate::job::BackupJob;
use crate::json::{encode_record, json_of_record};
use crate::message::Record;
use crate::outcome::{outcome_described, ExecutionOutcome, ExecutionOutcomeView};
use crate::report::{build_record, spec_build_record};
use crate::transport::{transport_result_view, TransportError, TransportErrorView};

verus! {

/// The stages of one job's pipeline, in their fixed order.  There is no
/// branching back: each stage is entered exactly once.
#[derive(Clone, Copy, PartialEq, Eq, Structural, Debug)]
pub enum Stage {
    /// The job and its start time are captured; nothing has run yet.
    Started,
    /// The backup step ran and its outcome — success or failure — is
    /// recorded; a failure does not end the pipeline.
    Executed,
    /// The status record is built from whatever the outcome was.
    Reported,
    /// The single delivery attempt was made and its result recorded.
    Delivered,
}

/// Why the whole process failed.
pub enum PipelineError {
    /// The collector host was empty; nothing was executed and no
    /// delivery was attempted.
    Input(String),
    /// The delivery failed; this outranks any execution failure, since
    /// the channel that would have carried it was unavailable.
    Transport(TransportError),
    /// The backup step failed and its failure message was delivered.
    Execution(String),
}

/// Model of a pipeline error.
pub ghost enum PipelineErrorView {
    Input(Seq<char>),
    Transport(TransportErrorView),
    Execution(Seq<char>),
}

impl View for PipelineError {
    type V = PipelineErrorView;

    open spec fn view(&self) -> PipelineErrorView {
        match self {
            PipelineError::Input(m) => PipelineErrorView::Input(m@),
            PipelineError::Transport(te) => PipelineErrorView::Transport(te@),
            PipelineError::Execution(m) => PipelineErrorView::Execution(m@),
        }
    }
}

/// Model of a final process result.
pub open spec fn final_result_view(r: Result<(), PipelineError>) -> Result<
    (),
    PipelineErrorView,
> {
    match r {
        Ok(_) => Ok(()),
        Err(e) => Err(e@),
    }
}

/// The process result owed once the record was built and the delivery
/// attempted: a failed delivery outranks everything; otherwise a failed
/// execution surfaces as the process failure; otherwise the job
/// succeeded.
pub open spec fn spec_final_result(
    outcome: ExecutionOutcomeView,
    delivery: Result<u64, TransportErrorView>,
) -> Result<(), PipelineErrorView> {
    match delivery {
        Err(te) => Err(PipelineErrorView::Transport(te)),
        Ok(_) => match outcome {
            ExecutionOutcomeView::Failure { message } => Err(PipelineErrorView::Execution(message)),
            ExecutionOutcomeView::Success { .. } => Ok(()),
        },
    }
}

/// One job's execute-then-report pipeline.  The stage field, together
/// with [`Pipeline::wf`], forces the fixed order
/// started-executed-reported-delivered and makes the single delivery
/// attempt unavoidable before [`Pipeline::finish`] can run.
pub struct Pipeline {
    /// The job, captured at the start and never changed.
    pub job: BackupJob,
    /// The start instant, rendered as the record's timestamp.
    pub start_timestamp: String,
    /// The start instant as epoch milliseconds, for the elapsed time.
    pub start_ms: i64,
    /// How far the pipeline has come.
    pub stage: Stage,
    /// The execution outcome, present from the executed stage on.
    pub outcome: Option<ExecutionOutcome>,
    /// The status record, present from the reported stage on.
    pub record: Option<Record>,
    /// The delivery result, present only in the delivered stage.
    pub delivery: Option<Result<u64, TransportError>>,
    /// How many delivery attempts were recorded; the well-formedness
    /// invariant keeps it at one exactly in the delivered stage.
    pub deliveries: Ghost<int>,
}

impl Pipeline {
    /// The record on file is the one the report builder owes for the
    /// job and the recorded outcome, and its timestamp has the ISO-8601
    /// UTC shape the clock produces.
    pub open spec fn record_consistent(self) -> bool {
        match (self.record, self.outcome) {
            (Some(rec), Some(oc)) => match rec@.message {
                Some(m) => rec@ == spec_build_record(
                    self.job@,
                    oc@,
                    rec@.timestamp,
                    m.time_spent_ms,
                ) && is_utc_timestamp(rec@.timestamp),
                None => false,
            },
            _ => false,
        }
    }

    /// Well-formedness: the collector host is non-empty, the captured
    /// start timestamp has the ISO-8601 UTC shape, a recorded failure
    /// outcome carries a description, and each stage holds exactly the
    /// data the stages before it produced — in particular, no delivery
    /// is recorded before the reported stage, and exactly one is
    /// recorded in the delivered stage.
    pub open spec fn wf(self) -> bool {
        &&& self.job.host@.len() > 0
        &&& is_utc_timestamp(self.start_timestamp@)
        &&& (self.outcome matches Some(oc) ==> outcome_described(oc@))
        &&& match self.stage {
            Stage::Started => self.outcome is None && self.record is None && self.delivery is None
                && self.deliveries@ == 0,
            Stage::Executed => self.outcome is Some && self.record is None && self.delivery is None
                && self.deliveries@ == 0,
            Stage::Reported => self.outcome is Some && self.record is Some && self.delivery is None
                && self.deliveries@ == 0 && self.record_consistent(),
            Stage::Delivered => self.outcome is Some && self.record is Some
                && self.delivery is Some && self.deliveries@ == 1 && self.record_consistent(),
        }
    }

    /// Gate and start of the pipeline: an empty collector host is
    /// rejected outright — there is nothing to send to, so nothing at
    /// all is attempted.  Otherwise the job and the start time are
    /// captured.
    pub fn new(job: BackupJob) -> (r: Result<Pipeline, PipelineError>)
        ensures
            job.host@.len() == 0 <==> r is Err,
            r matches Err(e) ==> e@ matches PipelineErrorView::Input(m) && m
                == "ELK host is needed"@,
            r matches Ok(p) ==> p.wf() && p.stage == Stage::Started && p.job == job,
    {
        if job.host.as_str().is_empty() {
            Err(PipelineError::Input(String::from_str("ELK host is needed")))
        } else {
            let (ts, ms) = clock_reading();
            Ok(
                Pipeline {
                    job,
                    start_timestamp: ts,
                    start_ms: ms,
                    stage: Stage::Started,
                    outcome: None,
                    record: None,
                    delivery: None,
                    deliveries: Ghost(0),
                },
            )
        }
    }

    /// Records what the backup step produced.  Success and failure take
    /// the same path: a failure never ends the pipeline early, because
    /// the failure itself must still be reported.  A failure must carry
    /// a description, as every producer in this crate guarantees.
    pub fn record_outcome(&mut self, outcome: ExecutionOutcome)
        requires
            old(self).wf(),
            old(self).stage == Stage::Started,
            outcome_described(outcome@),
        ensures
            final(self).wf(),
            final(self).stage == Stage::Executed,
            final(self).outcome == Some(outcome),
            final(self).job == old(self).job,
            final(self).deliveries@ == 0,
    {
        self.outcome = Some(outcome);
        self.stage = Stage::Executed;
    }

    /// Builds the status record from the recorded outcome: the
    /// timestamp is the captured start instant, the elapsed time runs
    /// from that instant to now.
    pub fn build_report(&mut self)
        requires
            old(self).wf(),
            old(self).stage == Stage::Executed,
        ensures
            final(self).wf(),
            final(self).stage == Stage::Reported,
            final(self).job == old(self).job,
            final(self).outcome == old(self).outcome,
            final(self).record matches Some(rec) && rec@.timestamp == old(self).start_timestamp@
                && (match (old(self).outcome, rec@.message) {
                (Some(oc), Some(m)) => rec@ == spec_build_record(
                    old(self).job@,
                    oc@,
                    rec@.timestamp,
                    m.time_spent_ms,
                ),
                _ => false,
            }),
            final(self).deliveries@ == 0,
    {
        let (_, now_ms) = clock_reading();
        let elapsed = elapsed_millis(self.start_ms, now_ms);
        let rec = match &self.outcome {
            Some(oc) => build_record(&self.job, oc, self.start_timestamp.clone(), elapsed),
            None => unreached(),
        };
        self.record = Some(rec);
        self.stage = Stage::Reported;
    }

    /// The serialized record: the exact bytes owed to the collector.
    pub fn payload(&self) -> (r: Vec<u8>)
        requires
            self.wf(),
            self.stage == Stage::Reported,
        ensures
            self.record matches Some(rec) && r@ == json_of_record(rec@),
    {
        match &self.record {
            Some(rec) => encode_record(rec),
            None => unreached(),
        }
    }

    /// Records the result of the single delivery attempt.  This is the
    /// only transition that counts a delivery, and the only stage it
    /// can run in is the reported one, so one pipeline can never record
    /// two attempts.
    pub fn record_delivery(&mut self, result: Result<u64, TransportError>)
        requires
            old(self).wf(),
            old(self).stage == Stage::Reported,
        ensures
            final(self).wf(),
            final(self).stage == Stage::Delivered,
            final(self).delivery == Some(result),
            final(self).job == old(self).job,
            final(self).outcome == old(self).outcome,
            final(self).record == old(self).record,
            final(self).deliveries@ == old(self).deliveries@ + 1,
    {
        self.delivery = Some(result);
        self.stage = Stage::Delivered;
        proof {
            self.deliveries@ = self.deliveries@ + 1;
        }
    }

    /// Derives the final process result from the delivery result and
    /// the execution outcome, per [`spec_final_result`].
    pub fn finish(self) -> (r: Result<(), PipelineError>)
        requires
            self.wf(),
            self.stage == Stage::Delivered,
        ensures
            match (self.outcome, self.delivery) {
                (Some(oc), Some(d)) => final_result_view(r) == spec_final_result(
                    oc@,
                    transport_result_view(d),
                ),
                _ => false,
            },
    {
        match self.delivery {
            Some(Err(te)) => Err(PipelineError::Transport(te)),
            Some(Ok(_)) => match self.outcome {
                Some(ExecutionOutcome::Failure { message }) => Err(
                    PipelineError::Execution(message),
                ),
                Some(ExecutionOutcome::Success { .. }) => Ok(()),
                None => unreached(),
            },
            None => unreached(),
        }
    }
}

/// Law (must-report): in every well-formed pipeline state, exactly one
/// delivery attempt has been recorded once the delivered stage is
/// reached, and none before — whatever the execution outcome was.
pub proof fn lemma_must_report_once(p: Pipeline)
    requires
        p.wf(),
    ensures
        p.deliveries@ == if p.stage == Stage::Delivered {
            1int
        } else {
            0int
        },
{
}

/// Law (error precedence): whenever the delivery failed, the final
/// process result reports the transport error — never the execution
/// error, even if execution also failed.
pub proof fn lemma_transport_error_precedence(
    outcome: ExecutionOutcomeView,
    te: TransportErrorView,
)
    ensures
        spec_final_result(outcome, Err(te)) == Err::<(), PipelineErrorView>(
            PipelineErrorView::Transport(te),
        ),
{
}

/// Law (delivered execution failure): when the delivery succeeded, the
/// final result is the execution outcome's own verdict — its failure
/// message if it failed, success otherwise.
pub proof fn lemma_delivered_verdict(outcome: ExecutionOutcomeView, n: u64)
    ensures
        outcome matches ExecutionOutcomeView::Failure { message } ==> spec_final_result(
            outcome,
            Ok(n),
        ) == Err::<(), PipelineErrorView>(PipelineErrorView::Execution(message)),
        outcome is Success ==> spec_final_result(outcome, Ok(n)) == Ok::<(), PipelineErrorView>(()),
{
}

} // verus!
