use vstd::prelude::*;

verus! {

/// The kind of a failure that the driver reports, or that the library raises
/// in the driver's terms.
#[derive(Clone, Copy, Debug, PartialEq, Eq, Structural)]
pub enum ErrorKind {
    /// A read ran into its timeout.
    Timeout,
    /// A stream failure without a more specific kind.
    StreamError,
    /// A read met corrupted data.
    Corruption,
    /// A read met an overflow: samples were lost.
    Overflow,
    /// The device does not support the operation.
    NotSupported,
    /// A stream time was too late or too early.
    TimeError,
    /// A write met an underflow.
    Underflow,
    /// A failure described by its message alone.
    Other,
}

/// A failure of the device or of a stream: a kind and a message for people.
#[derive(Clone, Debug, PartialEq, Eq)]
pub struct SdrError {
    pub kind: ErrorKind,
    pub message: String,
}

/// What an [`SdrError`] is to a contract: its kind and the characters of its
/// message.
pub ghost struct SdrErrorView {
    pub kind: ErrorKind,
    pub message: Seq<char>,
}

impl View for SdrError {
    type V = SdrErrorView;

    open spec fn view(&self) -> SdrErrorView {
        SdrErrorView { kind: self.kind, message: self.message@ }
    }
}

/// The message of the failure that a read on an inactive stream gives.
pub open spec fn stream_inactive_message() -> Seq<char> {
    "Stream Inactive!"@
}

/// The failure that a read on an inactive stream gives.
pub open spec fn stream_inactive() -> SdrErrorView {
    SdrErrorView { kind: ErrorKind::StreamError, message: stream_inactive_message() }
}

impl SdrError {
    /// A failure of the given kind with the given message.
    pub fn new(kind: ErrorKind, message: String) -> (e: SdrError)
        ensures
            e@.kind == kind,
            e@.message == message@,
    {
        SdrError { kind, message }
    }

    /// A second copy of the failure.
    pub fn duplicate(&self) -> (copy: SdrError)
        ensures
            copy@ == self@,
    {
        SdrError { kind: self.kind, message: self.message.clone() }
    }

    /// The failure that a read on an inactive stream gives.
    pub fn stream_inactive() -> (e: SdrError)
        ensures
            e@ == stream_inactive(),
    {
        SdrError { kind: ErrorKind::StreamError, message: "Stream Inactive!".to_owned() }
    }
}

/// What the view of an outcome without a value is.
pub open spec fn unit_outcome_view(outcome: Result<(), SdrError>) -> Result<(), SdrErrorView> {
    match outcome {
        Ok(()) => Ok(()),
        Err(e) => Err(e@),
    }
}

/// What the view of the outcome of a read is.
pub open spec fn read_outcome_view(outcome: Result<usize, SdrError>) -> Result<usize, SdrErrorView> {
    match outcome {
        Ok(n) => Ok(n),
        Err(e) => Err(e@),
    }
}

} // verus!
