use vstd::prelude::*;

verus! {

/// The write deadline on the telemetry connection, in milliseconds.
pub const WRITE_TIMEOUT_MS: u64 = 250;

/// The same deadline in nanoseconds, as the socket configuration takes it.
pub const WRITE_TIMEOUT_NANOS: u32 = 250_000_000;

/// Why a delivery attempt failed.  The carried text is the underlying
/// error, as the connection layer reported it.
pub enum TransportError {
    /// The connection could not be opened; nothing further was tried.
    Connect(String),
    /// The connection was opened, but the write deadline could not be
    /// set; the connection was closed without a write.
    Configure(String),
    /// The payload could not be written (or not before the deadline);
    /// the connection was closed.
    Write(String),
}

/// Model of a transport error.
pub ghost enum TransportErrorView {
    Connect(Seq<char>),
    Configure(Seq<char>),
    Write(Seq<char>),
}

impl View for TransportError {
    type V = TransportErrorView;

    open spec fn view(&self) -> TransportErrorView {
        match self {
            TransportError::Connect(e) => TransportErrorView::Connect(e@),
            TransportError::Configure(e) => TransportErrorView::Configure(e@),
            TransportError::Write(e) => TransportErrorView::Write(e@),
        }
    }
}

/// Model of a delivery result.
pub open spec fn transport_result_view(r: Result<u64, TransportError>) -> Result<
    u64,
    TransportErrorView,
> {
    match r {
        Ok(n) => Ok(n),
        Err(e) => Err(e@),
    }
}

/// Model of a step that either succeeded or failed with an error text.
pub open spec fn step_view(r: Result<(), String>) -> Result<(), Seq<char>> {
    match r {
        Ok(_) => Ok(()),
        Err(e) => Err(e@),
    }
}

/// Model of the optional deadline-configuration step.
pub open spec fn config_step_view(r: Option<Result<(), String>>) -> Option<
    Result<(), Seq<char>>,
> {
    match r {
        Some(Ok(_)) => Some(Ok(())),
        Some(Err(e)) => Some(Err(e@)),
        None => None,
    }
}

/// Model of the optional write step.
pub open spec fn write_step_view(r: Option<Result<u64, String>>) -> Option<
    Result<u64, Seq<char>>,
> {
    match r {
        Some(Ok(n)) => Some(Ok(n)),
        Some(Err(e)) => Some(Err(e@)),
        None => None,
    }
}

/// The delivery result the steps determine: a failed connect is a
/// connect error and nothing further is consulted; then a failed
/// deadline configuration; then the write's own result.
pub open spec fn spec_transport_outcome(
    connect: Result<(), Seq<char>>,
    configure: Option<Result<(), Seq<char>>>,
    write: Option<Result<u64, Seq<char>>>,
) -> Result<u64, TransportErrorView> {
    match connect {
        Err(e) => Err(TransportErrorView::Connect(e)),
        Ok(_) => match configure {
            Some(Err(e)) => Err(TransportErrorView::Configure(e)),
            Some(Ok(_)) => match write {
                Some(Ok(n)) => Ok(n),
                Some(Err(e)) => Err(TransportErrorView::Write(e)),
                None => Err(TransportErrorView::Write(Seq::<char>::empty())),
            },
            None => Err(TransportErrorView::Configure(Seq::<char>::empty())),
        },
    }
}

/// Combines the three steps of one delivery attempt — connect, set the
/// write deadline, write the payload — into the delivery result.  The
/// later steps are given only when the earlier ones succeeded, matching
/// a transport that stops at the first failure.
pub fn transport_outcome(
    connect: Result<(), String>,
    configure: Option<Result<(), String>>,
    write: Option<Result<u64, String>>,
) -> (r: Result<u64, TransportError>)
    requires
        connect is Ok <==> configure is Some,
        (configure matches Some(c) && c is Ok) <==> write is Some,
    ensures
        transport_result_view(r) == spec_transport_outcome(
            step_view(connect),
            config_step_view(configure),
            write_step_view(write),
        ),
{
    match connect {
        Err(e) => Err(TransportError::Connect(e)),
        Ok(_) => match configure {
            Some(Err(e)) => Err(TransportError::Configure(e)),
            Some(Ok(_)) => match write {
                Some(Ok(n)) => Ok(n),
                Some(Err(e)) => Err(TransportError::Write(e)),
                None => Err(TransportError::Write(String::new())),
            },
            None => Err(TransportError::Configure(String::new())),
        },
    }
}

} // verus!
