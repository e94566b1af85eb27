use vstd::prelude::*;
use crate::buffers::ScatterShape;
use crate::error::{read_outcome_view, unit_outcome_view, SdrError, SdrErrorView};
use crate::stream::{RxStream, RxStreamView};

verus! {

/// Where a capture stands between two things that the caller does for it.
#[derive(Debug, PartialEq, Eq)]
pub enum Phase {
    /// The stream is to be activated.
    Activating,
    /// The stop flag is to be asked before the next read.
    Polling,
    /// A read is to be made.
    Reading,
    /// The count of a read is to be reported.
    Reporting { samples: usize },
    /// The stream is to be deactivated; the capture then ends with this
    /// outcome.
    Stopping(Result<(), SdrError>),
    /// The capture has ended with this outcome.
    Finished(Result<(), SdrError>),
}

/// What a [`Phase`] is to a contract.
pub ghost enum PhaseView {
    Activating,
    Polling,
    Reading,
    Reporting { samples: usize },
    Stopping(Result<(), SdrErrorView>),
    Finished(Result<(), SdrErrorView>),
}

impl View for Phase {
    type V = PhaseView;

    open spec fn view(&self) -> PhaseView {
        match *self {
            Phase::Activating => PhaseView::Activating,
            Phase::Polling => PhaseView::Polling,
            Phase::Reading => PhaseView::Reading,
            Phase::Reporting { samples } => PhaseView::Reporting { samples },
            Phase::Stopping(outcome) => PhaseView::Stopping(unit_outcome_view(outcome)),
            Phase::Finished(outcome) => PhaseView::Finished(unit_outcome_view(outcome)),
        }
    }
}

/// What a capture asks of the caller next.
#[derive(Debug, PartialEq, Eq)]
pub enum Action {
    /// Activate the stream at once, with no scheduled time.
    Activate,
    /// Ask the stop flag whether the capture is to go on.
    Poll,
    /// Prepare a read over the per-channel buffers, which have this shape,
    /// and hand it to the driver.
    Read { shape: ScatterShape },
    /// Report that a read gave this many samples per channel.
    Report { samples: usize },
    /// Deactivate the stream.
    Deactivate,
    /// Leave the loop with this outcome.
    Exit(Result<(), SdrError>),
}

/// What an [`Action`] is to a contract.
pub ghost enum ActionView {
    Activate,
    Poll,
    Read { shape: ScatterShape },
    Report { samples: usize },
    Deactivate,
    Exit(Result<(), SdrErrorView>),
}

impl View for Action {
    type V = ActionView;

    open spec fn view(&self) -> ActionView {
        match *self {
            Action::Activate => ActionView::Activate,
            Action::Poll => ActionView::Poll,
            Action::Read { shape } => ActionView::Read { shape },
            Action::Report { samples } => ActionView::Report { samples },
            Action::Deactivate => ActionView::Deactivate,
            Action::Exit(outcome) => ActionView::Exit(unit_outcome_view(outcome)),
        }
    }
}

/// What the caller hands back after it has done what an [`Action`] asked.
#[derive(Debug, PartialEq, Eq)]
pub enum Event {
    /// The driver's answer to the activation.
    Activated(Result<(), SdrError>),
    /// What the stop flag said: `running` is false once a stop was asked for.
    Polled { running: bool },
    /// What came of the read: the number of samples that the driver wrote to
    /// every span, or the failure of the driver or of the read's preparation.
    ReadDone(Result<usize, SdrError>),
    /// The count has been reported.
    Reported,
    /// The stream has been deactivated.
    Deactivated,
}

/// What an [`Event`] is to a contract.
pub ghost enum EventView {
    Activated(Result<(), SdrErrorView>),
    Polled { running: bool },
    ReadDone(Result<usize, SdrErrorView>),
    Reported,
    Deactivated,
}

impl View for Event {
    type V = EventView;

    open spec fn view(&self) -> EventView {
        match *self {
            Event::Activated(outcome) => EventView::Activated(unit_outcome_view(outcome)),
            Event::Polled { running } => EventView::Polled { running },
            Event::ReadDone(outcome) => EventView::ReadDone(read_outcome_view(outcome)),
            Event::Reported => EventView::Reported,
            Event::Deactivated => EventView::Deactivated,
        }
    }
}

/// The ingestion loop of one stream, as far as it decides: it owns the
/// library's record of the stream and knows what is to be done next. The
/// caller does it and hands back what came of it.
#[derive(Debug, PartialEq, Eq)]
pub struct Capture {
    stream: RxStream,
    phase: Phase,
}

/// What a [`Capture`] is to a contract.
pub ghost struct CaptureView {
    pub stream: RxStreamView,
    pub phase: PhaseView,
}

impl View for Capture {
    type V = CaptureView;

    closed spec fn view(&self) -> CaptureView {
        CaptureView { stream: self.stream@, phase: self.phase@ }
    }
}

impl CaptureView {
    /// The capture of a stream before anything is done.
    pub open spec fn start(stream: RxStreamView) -> CaptureView {
        CaptureView { stream, phase: PhaseView::Activating }
    }

    /// The way out with the given outcome: by way of a deactivation where the
    /// stream is active, at once where it is not.
    pub open spec fn wind_down(self, outcome: Result<(), SdrErrorView>) -> CaptureView {
        if self.stream.active {
            CaptureView { phase: PhaseView::Stopping(outcome), ..self }
        } else {
            CaptureView { phase: PhaseView::Finished(outcome), ..self }
        }
    }

    /// The scatter view of every read of the capture: one span per channel of
    /// the stream, each of the fixed number of samples per read.
    pub open spec fn shape(self) -> ScatterShape {
        ScatterShape::of_capture(self.stream.channels.len())
    }

    /// What the capture asks of the caller in this state.
    pub open spec fn action(self) -> ActionView {
        match self.phase {
            PhaseView::Activating => ActionView::Activate,
            PhaseView::Polling => ActionView::Poll,
            PhaseView::Reading => ActionView::Read { shape: self.shape() },
            PhaseView::Reporting { samples } => ActionView::Report { samples },
            PhaseView::Stopping(_) => ActionView::Deactivate,
            PhaseView::Finished(outcome) => ActionView::Exit(outcome),
        }
    }

    /// The event is the answer to what the capture asks in this state.
    pub open spec fn answered_by(self, event: EventView) -> bool {
        match (self.phase, event) {
            (PhaseView::Activating, EventView::Activated(_)) => true,
            (PhaseView::Polling, EventView::Polled { .. }) => true,
            (PhaseView::Reading, EventView::ReadDone(_)) => true,
            (PhaseView::Reporting { .. }, EventView::Reported) => true,
            (PhaseView::Stopping(_), EventView::Deactivated) => true,
            _ => false,
        }
    }

    /// The capture after an event. An event that does not answer what the
    /// capture asks changes nothing.
    pub open spec fn step(self, event: EventView) -> CaptureView {
        match (self.phase, event) {
            (PhaseView::Activating, EventView::Activated(outcome)) => {
                let stream = self.stream.activate(outcome);
                match outcome {
                    Ok(()) => CaptureView { stream, phase: PhaseView::Polling },
                    Err(e) => self.wind_down(Err(e)),
                }
            },
            (PhaseView::Polling, EventView::Polled { running }) => {
                if running {
                    CaptureView { phase: PhaseView::Reading, ..self }
                } else {
                    self.wind_down(Ok(()))
                }
            },
            (PhaseView::Reading, EventView::ReadDone(outcome)) => {
                match outcome {
                    Ok(samples) => CaptureView { phase: PhaseView::Reporting { samples }, ..self },
                    Err(e) => self.wind_down(Err(e)),
                }
            },
            (PhaseView::Reporting { .. }, EventView::Reported) => CaptureView {
                phase: PhaseView::Polling,
                ..self
            },
            (PhaseView::Stopping(outcome), EventView::Deactivated) => CaptureView {
                stream: self.stream.deactivate(Ok(())),
                phase: PhaseView::Finished(outcome),
            },
            _ => self,
        }
    }

    /// The capture after one event after another.
    pub open spec fn run(self, events: Seq<EventView>) -> CaptureView
        decreases events.len(),
    {
        if events.len() == 0 {
            self
        } else {
            self.step(events[0]).run(events.skip(1))
        }
    }

    /// How many times the stream is deactivated in the course of the events:
    /// once for every deactivation that the capture had asked for.
    pub open spec fn deactivations(self, events: Seq<EventView>) -> nat
        decreases events.len(),
    {
        if events.len() == 0 {
            0
        } else {
            let here: nat = if self.phase is Stopping && events[0] is Deactivated {
                1
            } else {
                0
            };
            here + self.step(events[0]).deactivations(events.skip(1))
        }
    }
}

impl Capture {
    /// The capture of the given stream, before anything is done.
    pub fn new(stream: RxStream) -> (capture: Capture)
        ensures
            capture@ == (CaptureView { stream: stream@, phase: PhaseView::Activating }),
    {
        Capture { stream, phase: Phase::Activating }
    }

    /// The library's record of the stream.
    pub fn stream(&self) -> (stream: &RxStream)
        ensures
            stream@ == self@.stream,
    {
        &self.stream
    }

    /// Where the capture stands.
    pub fn phase(&self) -> (phase: &Phase)
        ensures
            phase@ == self@.phase,
    {
        &self.phase
    }

    /// What the capture asks of the caller in this state.
    pub fn action(&self) -> (action: Action)
        ensures
            action@ == self@.action(),
    {
        match &self.phase {
            Phase::Activating => Action::Activate,
            Phase::Polling => Action::Poll,
            Phase::Reading => Action::Read {
                shape: ScatterShape::for_channels(self.stream.channels().len()),
            },
            Phase::Reporting { samples } => Action::Report { samples: *samples },
            Phase::Stopping(_) => Action::Deactivate,
            Phase::Finished(outcome) => match outcome {
                Ok(()) => Action::Exit(Ok(())),
                Err(e) => Action::Exit(Err(e.duplicate())),
            },
        }
    }

    fn wind_down(self, outcome: Result<(), SdrError>) -> (next: Capture)
        ensures
            next@ == self@.wind_down(unit_outcome_view(outcome)),
    {
        if self.stream.active() {
            Capture { stream: self.stream, phase: Phase::Stopping(outcome) }
        } else {
            Capture { stream: self.stream, phase: Phase::Finished(outcome) }
        }
    }

    /// Takes what came of the last action, and gives the capture as it then
    /// stands together with what it asks next.
    pub fn step(self, event: Event) -> (next: (Capture, Action))
        ensures
            next.0@ == self@.step(event@),
            next.1@ == self@.step(event@).action(),
    {
        let Capture { stream, phase } = self;
        let capture = match (phase, event) {
            (Phase::Activating, Event::Activated(outcome)) => {
                let mut stream = stream;
                match stream.activate(outcome) {
                    Ok(()) => Capture { stream, phase: Phase::Polling },
                    Err(e) => {
                        let capture = Capture { stream, phase: Phase::Activating };
                        capture.wind_down(Err(e))
                    },
                }
            },
            (Phase::Polling, Event::Polled { running }) => {
                if running {
                    Capture { stream, phase: Phase::Reading }
                } else {
                    let capture = Capture { stream, phase: Phase::Polling };
                    capture.wind_down(Ok(()))
                }
            },
            (Phase::Reading, Event::ReadDone(outcome)) => {
                match outcome {
                    Ok(samples) => Capture { stream, phase: Phase::Reporting { samples } },
                    Err(e) => {
                        let capture = Capture { stream, phase: Phase::Reading };
                        capture.wind_down(Err(e))
                    },
                }
            },
            (Phase::Reporting { samples: _ }, Event::Reported) => Capture {
                stream,
                phase: Phase::Polling,
            },
            (Phase::Stopping(outcome), Event::Deactivated) => {
                let mut stream = stream;
                let _ = stream.deactivate(Ok(()));
                Capture { stream, phase: Phase::Finished(outcome) }
            },
            (phase, _) => Capture { stream, phase },
        };
        let action = capture.action();
        (capture, action)
    }
}

impl CaptureView {
    /// The phase agrees with the stream: between activation and deactivation
    /// the stream is active, and a capture that has not begun or has ended
    /// holds an inactive stream.
    pub open spec fn consistent(self) -> bool {
        match self.phase {
            PhaseView::Activating => !self.stream.active,
            PhaseView::Polling => self.stream.active,
            PhaseView::Reading => self.stream.active,
            PhaseView::Reporting { .. } => self.stream.active,
            PhaseView::Stopping(_) => self.stream.active,
            PhaseView::Finished(_) => !self.stream.active,
        }
    }

    /// The capture is on its way out or has ended.
    pub open spec fn stopped(self) -> bool {
        self.phase is Stopping || self.phase is Finished
    }

    /// The outcome with which a stopped capture ends.
    pub open spec fn outcome(self) -> Result<(), SdrErrorView>
        recommends
            self.stopped(),
    {
        match self.phase {
            PhaseView::Stopping(outcome) => outcome,
            PhaseView::Finished(outcome) => outcome,
            _ => Ok(()),
        }
    }

    /// How many answers at most separate the capture from its end, once the
    /// stop flag says stop: the read that is with the driver is finished and
    /// reported, the flag is asked, the stream is deactivated.
    pub open spec fn remaining(self) -> nat {
        match self.phase {
            PhaseView::Activating => 5,
            PhaseView::Reading => 4,
            PhaseView::Reporting { .. } => 3,
            PhaseView::Polling => 2,
            PhaseView::Stopping(_) => 1,
            PhaseView::Finished(_) => 0,
        }
    }
}

/// The stop flag never says again that the capture may go on.
pub open spec fn stop_requested(event: EventView) -> bool {
    event matches EventView::Polled { running } ==> !running
}

/// No event changes the channels of the stream.
pub proof fn lemma_step_keeps_channels(capture: CaptureView, event: EventView)
    ensures
        capture.step(event).stream.channels == capture.stream.channels,
{
}

/// A capture whose phase agrees with its stream stays so under every event.
pub proof fn lemma_step_consistent(capture: CaptureView, event: EventView)
    requires
        capture.consistent(),
    ensures
        capture.step(event).consistent(),
{
}

/// From its start on an inactive stream, through whatever events, a capture
/// keeps the channels of its stream, and its phase agrees with the stream.
pub proof fn lemma_run_consistent(capture: CaptureView, events: Seq<EventView>)
    requires
        capture.consistent(),
    ensures
        capture.run(events).consistent(),
        capture.run(events).stream.channels == capture.stream.channels,
    decreases events.len(),
{
    if events.len() > 0 {
        lemma_step_consistent(capture, events[0]);
        lemma_step_keeps_channels(capture, events[0]);
        lemma_run_consistent(capture.step(events[0]), events.skip(1));
    }
}

/// Whatever happens in a capture begun on an inactive stream, every read
/// that it asks for has the same scatter view, one span per channel of the
/// stream and the fixed number of samples per read in each, and is asked only
/// while the stream is active.
pub proof fn lemma_buffer_shape_invariant(stream: RxStreamView, events: Seq<EventView>)
    requires
        !stream.active,
    ensures
        CaptureView::start(stream).run(events).action() matches ActionView::Read { shape } ==> {
            &&& shape == ScatterShape::of_capture(stream.channels.len())
            &&& CaptureView::start(stream).run(events).stream.active
        },
{
    lemma_run_consistent(CaptureView::start(stream), events);
}

/// A read that gives fewer samples than a span holds, or none, does not end
/// the capture: whatever the count, it is reported, the stop flag is asked,
/// and while the flag allows it the same read is asked for again.
pub proof fn lemma_short_read_continues(capture: CaptureView, samples: usize)
    requires
        capture.phase is Reading,
    ensures
        ({
            let counted = capture.step(EventView::ReadDone(Ok(samples)));
            let reported = counted.step(EventView::Reported);
            let resumed = reported.step(EventView::Polled { running: true });
            &&& counted.action() == ActionView::Report { samples }
            &&& reported.action() == ActionView::Poll
            &&& resumed.action() == capture.action()
            &&& resumed == capture
        }),
{
}

/// No read begins without the stop flag's leave: a read is under way after
/// an event only if it was before, or if the event is the flag saying that
/// the capture goes on.
pub proof fn lemma_no_read_without_leave(capture: CaptureView, event: EventView)
    requires
        stop_requested(event),
        capture.step(event).phase is Reading,
    ensures
        capture.phase is Reading,
        capture.step(event) == capture,
{
}

/// Once the stop flag says stop, every answer brings the capture nearer to
/// its end: from a read that is with the driver at most four answers are
/// left, and no new read among them.
pub proof fn lemma_stop_winds_down(capture: CaptureView, event: EventView)
    requires
        capture.answered_by(event),
        stop_requested(event),
    ensures
        capture.step(event).remaining() < capture.remaining(),
        capture.remaining() == 0 <==> capture.phase is Finished,
{
}

/// A capture begun on an inactive stream leaves the loop only with its
/// stream inactive, whether it ends well or with a failure; a stream that was
/// activated has by then been deactivated.
pub proof fn lemma_exit_leaves_stream_inactive(stream: RxStreamView, events: Seq<EventView>)
    requires
        !stream.active,
    ensures
        CaptureView::start(stream).run(events).action() is Exit ==> !CaptureView::start(
            stream,
        ).run(events).stream.active,
        CaptureView::start(stream).run(events).action() is Deactivate ==> CaptureView::start(
            stream,
        ).run(events).stream.active,
{
    lemma_run_consistent(CaptureView::start(stream), events);
}

/// A capture that has ended stays as it is, whatever is handed to it.
pub proof fn lemma_finished_is_final(capture: CaptureView, events: Seq<EventView>)
    requires
        capture.phase is Finished,
    ensures
        capture.run(events) == capture,
    decreases events.len(),
{
    if events.len() > 0 {
        lemma_finished_is_final(capture.step(events[0]), events.skip(1));
    }
}

/// The stream is deactivated at most once, and exactly once on the way to
/// the end of a capture whose stream is active, however the capture ends. A
/// capture that has ended deactivates nothing.
pub proof fn lemma_deactivated_once(capture: CaptureView, events: Seq<EventView>)
    requires
        capture.consistent(),
    ensures
        capture.deactivations(events) <= 1,
        capture.deactivations(events) == 1 ==> capture.run(events).phase is Finished,
        capture.stream.active && capture.run(events).phase is Finished ==> capture.deactivations(
            events,
        ) == 1,
        capture.phase is Finished ==> capture.deactivations(events) == 0,
    decreases events.len(),
{
    if events.len() > 0 {
        let next = capture.step(events[0]);
        lemma_step_consistent(capture, events[0]);
        lemma_deactivated_once(next, events.skip(1));
        if next.phase is Finished {
            lemma_finished_is_final(next, events.skip(1));
        }
    }
}

/// A stop is taken once: a capture on its way out or ended stays so under
/// every event, keeps its outcome, and never again activates, asks the flag,
/// or reads.
pub proof fn lemma_stop_is_latched(capture: CaptureView, events: Seq<EventView>)
    requires
        capture.stopped(),
    ensures
        capture.run(events).stopped(),
        capture.run(events).outcome() == capture.outcome(),
    decreases events.len(),
{
    if events.len() > 0 {
        lemma_stop_is_latched(capture.step(events[0]), events.skip(1));
    }
}

/// A second stop changes nothing: the flag saying stop again, after it has
/// said so once, leaves the capture as the first time left it.
pub proof fn lemma_repeated_stop_is_one(capture: CaptureView)
    ensures
        ({
            let stop = EventView::Polled { running: false };
            capture.step(stop).step(stop) == capture.step(stop)
        }),
{
}

} // verus!
