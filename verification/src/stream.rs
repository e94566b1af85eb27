use vstd::prelude::*;
use crate::buffers::scatter_view;
use crate::error::{stream_inactive, unit_outcome_view, SdrError, SdrErrorView};

verus! {

/// The library's record of a receive stream: the channels it was opened over,
/// in order, and whether it is active. A stream is made inactive; only a
/// driver's consent to activate or deactivate it changes that.
#[derive(Clone, Debug, PartialEq, Eq)]
pub struct RxStream {
    channels: Vec<usize>,
    active: bool,
}

/// What an [`RxStream`] is to a contract.
pub ghost struct RxStreamView {
    pub channels: Seq<usize>,
    pub active: bool,
}

impl RxStreamView {
    /// The stream after the driver has answered a request to activate it:
    /// active where the driver agreed, as before where it refused.
    pub open spec fn activate(self, outcome: Result<(), SdrErrorView>) -> RxStreamView {
        if outcome is Ok {
            RxStreamView { active: true, ..self }
        } else {
            self
        }
    }

    /// The stream after the driver has answered a request to deactivate it:
    /// inactive where the driver agreed, as before where it refused.
    pub open spec fn deactivate(self, outcome: Result<(), SdrErrorView>) -> RxStreamView {
        if outcome is Ok {
            RxStreamView { active: false, ..self }
        } else {
            self
        }
    }
}

impl View for RxStream {
    type V = RxStreamView;

    closed spec fn view(&self) -> RxStreamView {
        RxStreamView { channels: self.channels@, active: self.active }
    }
}

/// What a read asks of the driver: the scatter view to fill, one span per
/// channel, and how long to wait, in microseconds, a negative time standing
/// for no limit.
#[derive(Debug, PartialEq, Eq)]
pub struct ReadRequest<'a, T> {
    pub spans: Vec<&'a mut [T]>,
    pub timeout_us: i64,
}

/// The timeout of every read: wait until the driver returns.
pub const WAIT_INDEFINITELY: i64 = -1;

impl RxStream {
    /// An inactive stream over the given channels.
    pub fn new(channels: Vec<usize>) -> (stream: RxStream)
        ensures
            stream@ == (RxStreamView { channels: channels@, active: false }),
    {
        RxStream { channels, active: false }
    }

    /// The channels of the stream, in the order in which it was opened.
    pub fn channels(&self) -> (list: &[usize])
        ensures
            list@ == self@.channels,
    {
        self.channels.as_slice()
    }

    /// Whether the stream is active.
    pub fn active(&self) -> (b: bool)
        ensures
            b == self@.active,
    {
        self.active
    }

    /// Takes note of the driver's answer to a request to activate the stream,
    /// and hands the answer on as it came.
    pub fn activate(&mut self, outcome: Result<(), SdrError>) -> (r: Result<(), SdrError>)
        ensures
            final(self)@ == old(self)@.activate(unit_outcome_view(outcome)),
            r == outcome,
    {
        if outcome.is_ok() {
            self.active = true;
        }
        outcome
    }

    /// Takes note of the driver's answer to a request to deactivate the
    /// stream, and hands the answer on as it came.
    pub fn deactivate(&mut self, outcome: Result<(), SdrError>) -> (r: Result<(), SdrError>)
        ensures
            final(self)@ == old(self)@.deactivate(unit_outcome_view(outcome)),
            r == outcome,
    {
        if outcome.is_ok() {
            self.active = false;
        }
        outcome
    }
}

/// Prepares one bulk read from the stream into the per-channel buffers.
///
/// On an inactive stream this is a failure of kind `StreamError` with the
/// message "Stream Inactive!", and the buffers are as they were. On an
/// active stream it is the request to hand to the driver: the scatter view of
/// the buffers, one span over the whole of each, and no limit on the wait.
/// What the driver writes through a span is what the buffer then holds.
///
/// A read is handed one buffer per channel of the stream.
pub fn read_chunk<'a, T>(stream: &RxStream, bufs: &'a mut Vec<Vec<T>>) -> (r: Result<
    ReadRequest<'a, T>,
    SdrError,
>)
    requires
        stream@.active ==> old(bufs)@.len() == stream@.channels.len(),
    ensures
        r is Ok <==> stream@.active,
        r matches Err(e) ==> e@ == stream_inactive() && final(bufs)@ == old(bufs)@,
        r matches Ok(request) ==> {
            &&& request.timeout_us == WAIT_INDEFINITELY
            &&& request.spans@.len() == stream@.channels.len()
            &&& final(bufs)@.len() == old(bufs)@.len()
            &&& forall|c: int|
                #![trigger request.spans@[c]]
                0 <= c < request.spans@.len() ==> request.spans@[c]@ == old(bufs)@[c]@
            &&& forall|c: int|
                #![trigger final(bufs)@[c]]
                0 <= c < request.spans@.len() ==> final(bufs)@[c]@ == final(request.spans@[c])@
        },
{
    if !stream.active {
        return Err(SdrError::stream_inactive());
    }
    let spans = scatter_view(bufs);
    Ok(ReadRequest { spans, timeout_us: WAIT_INDEFINITELY })
}

} // verus!
