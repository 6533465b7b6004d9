use vstd::prelude::*;

verus! {

/// The per-job part of a status record: paths, error text and metrics.
/// An empty `error` means the backup step succeeded.
pub struct Message {
    /// Source path of the job, as given.
    pub source: String,
    /// Logical filename of the backup.
    pub filename: String,
    /// Destination directory of the job.
    pub dst: String,
    /// Failure description; the empty string when the step succeeded.
    pub error: String,
    /// Bytes taken from the source; zero on failure.
    pub orig_size: u64,
    /// Byte length of the written backup; zero on failure.
    pub back_size: u64,
    /// Wall-clock milliseconds from job start to record construction.
    /// Carried as whole milliseconds; the wire encoding renders it as
    /// fractional seconds with millisecond precision.
    pub time_spent_ms: u64,
}

/// Model of a message: strings as character sequences.
pub ghost struct MessageView {
    pub source: Seq<char>,
    pub filename: Seq<char>,
    pub dst: Seq<char>,
    pub error: Seq<char>,
    pub orig_size: u64,
    pub back_size: u64,
    pub time_spent_ms: u64,
}

impl View for Message {
    type V = MessageView;

    open spec fn view(&self) -> MessageView {
        MessageView {
            source: self.source@,
            filename: self.filename@,
            dst: self.dst@,
            error: self.error@,
            orig_size: self.orig_size,
            back_size: self.back_size,
            time_spent_ms: self.time_spent_ms,
        }
    }
}

/// One status record: the wire entity reported to the collector,
/// constructed once per job, serialized once, sent once.
pub struct Record {
    /// ISO-8601 timestamp with millisecond precision, taken at
    /// record construction.
    pub timestamp: String,
    /// Index label for the collector.
    pub index_name: String,
    /// Protocol version; always the constant "1".
    pub version: String,
    /// Shared secret, embedded in plain text by design.
    pub password: String,
    /// Label naming the host the report comes from.
    pub host: String,
    /// The per-job detail; absent only before the report stage.
    pub message: Option<Message>,
}

/// Model of a record.
pub ghost struct RecordView {
    pub timestamp: Seq<char>,
    pub index_name: Seq<char>,
    pub version: Seq<char>,
    pub password: Seq<char>,
    pub host: Seq<char>,
    pub message: Option<MessageView>,
}

impl View for Record {
    type V = RecordView;

    open spec fn view(&self) -> RecordView {
        RecordView {
            timestamp: self.timestamp@,
            index_name: self.index_name@,
            version: self.version@,
            password: self.password@,
            host: self.host@,
            message: match self.message {
                Some(m) => Some(m@),
                None => None,
            },
        }
    }
}

} // verus!
