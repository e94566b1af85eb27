use std::sync::atomic::AtomicBool;
use std::sync::atomic::Ordering;
use std::sync::Arc;
use vstd::prelude::*;
use crate::capture::{Event, EventView};
use crate::report::{interrupt_notice, interrupt_text};

verus! {

/// The stop signal of a capture: one atomic flag, made running and cleared
/// once, shared between the handler of the interrupt and the loop. Each of
/// them holds a handle of its own on the flag.
///
/// A handle remembers that it has asked for the stop or has seen it, and from
/// then on says stop whatever happens to the flag: to its holder the flag is
/// written once. What another handle has done in the meantime no contract can
/// say, so where a handle has not yet seen the stop, the capture is verified
/// for either answer.
pub struct StopFlag {
    shared: Arc<AtomicBool>,
    seen: bool,
}

/// What a [`StopFlag`] is to a contract: the flag that the handle is on, and
/// whether this handle has asked for the stop or seen it. What the flag
/// itself holds at a given moment is no part of it.
pub ghost struct StopFlagView {
    pub flag: Arc<AtomicBool>,
    pub stopped: bool,
}

impl StopFlagView {
    /// The handle after it has asked for the stop: on the same flag, and
    /// knowing of the stop.
    pub open spec fn request(self) -> StopFlagView {
        StopFlagView { stopped: true, ..self }
    }

    /// The handle after one reading of the flag that found it
    /// `flag_running`: a handle that knows of the stop keeps to it, another
    /// one learns of the stop where the flag is cleared.
    pub open spec fn observe(self, flag_running: bool) -> StopFlagView {
        StopFlagView { stopped: self.stopped || !flag_running, ..self }
    }
}

impl View for StopFlag {
    type V = StopFlagView;

    closed spec fn view(&self) -> StopFlagView {
        StopFlagView { flag: self.shared, stopped: self.seen }
    }
}

/// Why the handler of the interrupt could not be installed.
#[derive(Debug, PartialEq, Eq)]
pub enum InstallError {
    /// The system does not know the signal.
    NoSuchSignal,
    /// A handler is installed already.
    MultipleHandlers,
    /// The system refused, in these words.
    System { message: String },
}

impl StopFlag {
    /// A flag that says the capture is to run.
    pub fn new() -> (flag: StopFlag)
        ensures
            !flag@.stopped,
    {
        StopFlag { shared: Arc::new(AtomicBool::new(true)), seen: false }
    }

    /// The two handles are on one and the same flag.
    pub open spec fn same_flag(&self, other: &StopFlag) -> bool {
        self@.flag == other@.flag
    }

    /// A second handle on the same flag, for another thread. It knows what
    /// this one knows.
    pub fn handle(&self) -> (other: StopFlag)
        ensures
            other@ == self@,
            other.same_flag(self),
    {
        StopFlag { shared: share(&self.shared), seen: self.seen }
    }

    /// What a request makes of the value that the flag held before it: the
    /// handle knows of the stop from now on, and the request was the first
    /// where the flag was still running and the handle knew of no stop.
    pub fn note_request(&mut self, was_running: bool) -> (first: bool)
        ensures
            final(self)@ == old(self)@.request(),
            first == (was_running && !old(self)@.stopped),
    {
        let first = was_running && !self.seen;
        self.seen = true;
        first
    }

    /// What this handle makes of one reading of the flag: it learns of the
    /// stop where the flag is cleared, keeps to a stop that it knows of, and
    /// says whether the capture is to go on.
    pub fn observe(&mut self, flag_running: bool) -> (running: bool)
        ensures
            final(self)@ == old(self)@.observe(flag_running),
            running == !final(self)@.stopped,
    {
        if !flag_running {
            self.seen = true;
        }
        !self.seen
    }

    /// Asks the capture to stop, in one atomic write. Returns whether this
    /// request was the first on the flag, so that a handler can give its
    /// notice once: a handle that knows of the stop is never the first.
    pub fn request_stop(&mut self) -> (first: bool)
        ensures
            final(self)@ == old(self)@.request(),
            old(self)@.stopped ==> !first,
    {
        let was_running = self.shared.swap(false, Ordering::AcqRel);
        self.note_request(was_running)
    }

    /// Whether no stop has been asked for yet, as far as this handle can
    /// tell, in one atomic read: once it has said no, it says no ever after.
    pub fn should_continue(&mut self) -> (running: bool)
        ensures
            running == !final(self)@.stopped,
            old(self)@.stopped ==> final(self)@.stopped,
            final(self).same_flag(old(self)),
    {
        let flag_running = self.shared.load(Ordering::Acquire);
        self.observe(flag_running)
    }

    /// Reads the flag for the capture that has asked to poll it.
    pub fn poll(&mut self) -> (event: Event)
        ensures
            event@ == (EventView::Polled { running: !final(self)@.stopped }),
            old(self)@.stopped ==> final(self)@.stopped,
            final(self).same_flag(old(self)),
    {
        Event::Polled { running: self.should_continue() }
    }

    /// What the handler does on an interrupt: it asks the capture to stop,
    /// and on the first interrupt hands the notice to `notify`.
    pub fn on_interrupt<F: Fn(&str)>(&mut self, notify: &F)
        requires
            forall|text: &str| text@ == interrupt_text() ==> call_requires(*notify, (text,)),
        ensures
            final(self)@ == old(self)@.request(),
    {
        if self.request_stop() {
            notify(interrupt_notice());
        }
    }

    /// Installs the handler of the interrupt signal for this process: from
    /// then on every interrupt is [`StopFlag::on_interrupt`] on this handle.
    /// A process takes one handler; a second installation is refused.
    pub fn install<F: Fn(&str) + Send + 'static>(flag: StopFlag, notify: F) -> (r: Result<
        (),
        InstallError,
    >)
        requires
            forall|text: &str| text@ == interrupt_text() ==> call_requires(notify, (text,)),
    {
        set_interrupt_handler(flag, notify)
    }
}

/// A stop is written once: a request leaves the handle stopped, a second
/// request leaves it as the first left it, and a handle that knows of the
/// stop keeps to it whatever it then reads from the flag.
pub proof fn lemma_stop_written_once(flag: StopFlagView, flag_running: bool)
    ensures
        flag.request().stopped,
        flag.request().request() == flag.request(),
        flag.stopped ==> flag.request() == flag,
        flag.stopped ==> flag.observe(flag_running) == flag,
        flag.request().observe(flag_running) == flag.request(),
{
}

/// `Arc::clone`: a second pointer to the same flag.
#[verifier::external_body]
fn share(shared: &Arc<AtomicBool>) -> (other: Arc<AtomicBool>)
    ensures
        other == shared,
{
    shared.clone()
}

/// `ctrlc::set_handler` with a handler that calls [`StopFlag::on_interrupt`].
/// Whether the system takes the handler depends on the process, so nothing
/// is claimed of the outcome.
#[verifier::external_body]
fn set_interrupt_handler<F: Fn(&str) + Send + 'static>(flag: StopFlag, notify: F) -> (r: Result<
    (),
    InstallError,
>)
    requires
        forall|text: &str| text@ == interrupt_text() ==> call_requires(notify, (text,)),
{
    let mut flag = flag;
    match ctrlc::set_handler(move || flag.on_interrupt(&notify)) {
        Ok(()) => Ok(()),
        Err(ctrlc::Error::NoSuchSignal(_)) => Err(InstallError::NoSuchSignal),
        Err(ctrlc::Error::MultipleHandlers) => Err(InstallError::MultipleHandlers),
        Err(ctrlc::Error::System(e)) => Err(InstallError::System { message: format!("{}", e) }),
    }
}

} // verus!
