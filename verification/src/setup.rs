use vstd::prelude::*;
use vstd::slice::slice_to_vec;
use crate::config::{first_fault, valid_config, validate, ConfigError};
use crate::error::{unit_outcome_view, SdrError, SdrErrorView};
use crate::scalar::Scalar;
use crate::stream::{RxStream, RxStreamView};

verus! {

/// One call that receiver setup asks the caller to make on the device, all of
/// them in the receive direction.
#[derive(Clone, Debug, PartialEq, Eq)]
pub enum DriverCall {
    /// Set the sample rate of the channel, in samples per second.
    SetSampleRate { channel: usize, rate: Scalar },
    /// Set the center frequency of the channel, in hertz, with no tuning
    /// arguments.
    SetFrequency { channel: usize, frequency: Scalar },
    /// Set the gain of the channel, in decibels.
    SetGain { channel: usize, gain: Scalar },
    /// Open a receive stream over the channels, in this order, with samples
    /// as pairs of single-precision real and imaginary parts.
    OpenRxStream { channels: Vec<usize> },
}

/// What a [`DriverCall`] is to a contract.
pub ghost enum DriverCallView {
    SetSampleRate { channel: usize, rate: Scalar },
    SetFrequency { channel: usize, frequency: Scalar },
    SetGain { channel: usize, gain: Scalar },
    OpenRxStream { channels: Seq<usize> },
}

impl View for DriverCall {
    type V = DriverCallView;

    open spec fn view(&self) -> DriverCallView {
        match *self {
            DriverCall::SetSampleRate { channel, rate } => DriverCallView::SetSampleRate {
                channel,
                rate,
            },
            DriverCall::SetFrequency { channel, frequency } => DriverCallView::SetFrequency {
                channel,
                frequency,
            },
            DriverCall::SetGain { channel, gain } => DriverCallView::SetGain { channel, gain },
            DriverCall::OpenRxStream { channels } => DriverCallView::OpenRxStream {
                channels: channels@,
            },
        }
    }
}

impl DriverCall {
    /// A second copy of the call.
    pub fn duplicate(&self) -> (copy: DriverCall)
        ensures
            copy@ == self@,
    {
        match self {
            DriverCall::SetSampleRate { channel, rate } => DriverCall::SetSampleRate {
                channel: *channel,
                rate: *rate,
            },
            DriverCall::SetFrequency { channel, frequency } => DriverCall::SetFrequency {
                channel: *channel,
                frequency: *frequency,
            },
            DriverCall::SetGain { channel, gain } => DriverCall::SetGain {
                channel: *channel,
                gain: *gain,
            },
            DriverCall::OpenRxStream { channels } => DriverCall::OpenRxStream {
                channels: slice_to_vec(channels.as_slice()),
            },
        }
    }
}

/// The call that stands at position `k` of the setup of the given channels:
/// three calls for each channel in turn (its sample rate, then its center
/// frequency, then the gain), and after the last channel the opening of the
/// stream over all of them.
pub open spec fn planned_call(
    chs: Seq<usize>,
    sample_rates: Seq<Scalar>,
    frequencies: Seq<Scalar>,
    gain: Scalar,
    k: int,
) -> DriverCallView {
    let i = k / 3;
    if k == 3 * chs.len() {
        DriverCallView::OpenRxStream { channels: chs }
    } else if k % 3 == 0 {
        DriverCallView::SetSampleRate { channel: chs[i], rate: sample_rates[i] }
    } else if k % 3 == 1 {
        DriverCallView::SetFrequency { channel: chs[i], frequency: frequencies[i] }
    } else {
        DriverCallView::SetGain { channel: chs[i], gain }
    }
}

/// The calls of a setup, in the order in which they are to be made.
pub open spec fn setup_plan(
    chs: Seq<usize>,
    sample_rates: Seq<Scalar>,
    frequencies: Seq<Scalar>,
    gain: Scalar,
) -> Seq<DriverCallView> {
    Seq::new(
        (3 * chs.len() + 1) as nat,
        |k: int| planned_call(chs, sample_rates, frequencies, gain, k),
    )
}

/// The views of a list of calls.
pub open spec fn calls_view(calls: Seq<DriverCall>) -> Seq<DriverCallView> {
    calls.map_values(|call: DriverCall| call@)
}

/// Lists the calls of a setup in order, for lists of one length whatever they
/// hold: each channel's sample rate and center frequency are those at the
/// channel's own position, and no position of a list is read but these.
pub fn setup_calls(chs: &[usize], sample_rates: &[Scalar], frequencies: &[Scalar], gain: Scalar) -> (plan:
    Vec<DriverCall>)
    requires
        chs@.len() == sample_rates@.len(),
        chs@.len() == frequencies@.len(),
    ensures
        calls_view(plan@) == setup_plan(chs@, sample_rates@, frequencies@, gain),
{
    let ghost target = setup_plan(chs@, sample_rates@, frequencies@, gain);
    let mut plan: Vec<DriverCall> = Vec::new();
    let mut i: usize = 0;
    while i < chs.len()
        invariant
            chs@.len() == sample_rates@.len(),
            chs@.len() == frequencies@.len(),
            target == setup_plan(chs@, sample_rates@, frequencies@, gain),
            i <= chs@.len(),
            plan@.len() == 3 * i,
            forall|k: int| 0 <= k < plan@.len() ==> (#[trigger] plan@[k])@ == target[k],
        decreases chs@.len() - i,
    {
        plan.push(DriverCall::SetSampleRate { channel: chs[i], rate: sample_rates[i] });
        plan.push(DriverCall::SetFrequency { channel: chs[i], frequency: frequencies[i] });
        plan.push(DriverCall::SetGain { channel: chs[i], gain });
        i += 1;
    }
    plan.push(DriverCall::OpenRxStream { channels: slice_to_vec(chs) });
    plan
}

/// A receiver setup under way: the calls to make, how many of them the driver
/// has carried out, and the failure that ended the setup, if one did.
#[derive(Debug, PartialEq, Eq)]
pub struct RxSetup {
    plan: Vec<DriverCall>,
    channels: Vec<usize>,
    done: usize,
    failure: Option<SdrError>,
}

/// What the setup asks of the caller next.
#[derive(Debug, PartialEq, Eq)]
pub enum SetupAction {
    /// Make this call on the device and hand back the driver's answer.
    Call(DriverCall),
    /// Every call went through: the stream is open, and inactive.
    Ready(RxStream),
    /// The driver refused a call: the setup has ended with the driver's
    /// failure, unchanged.
    Failed(SdrError),
}

/// What a [`SetupAction`] is to a contract.
pub ghost enum SetupActionView {
    Call(DriverCallView),
    Ready(RxStreamView),
    Failed(SdrErrorView),
}

impl View for SetupAction {
    type V = SetupActionView;

    open spec fn view(&self) -> SetupActionView {
        match *self {
            SetupAction::Call(call) => SetupActionView::Call(call@),
            SetupAction::Ready(stream) => SetupActionView::Ready(stream@),
            SetupAction::Failed(e) => SetupActionView::Failed(e@),
        }
    }
}

/// What an [`RxSetup`] is to a contract.
pub ghost struct RxSetupView {
    pub plan: Seq<DriverCallView>,
    pub channels: Seq<usize>,
    pub done: nat,
    pub failure: Option<SdrErrorView>,
}

/// The view of the failure that ended a setup, where one did.
pub open spec fn failure_view(failure: Option<SdrError>) -> Option<SdrErrorView> {
    match failure {
        Some(e) => Some(e@),
        None => None,
    }
}

impl View for RxSetup {
    type V = RxSetupView;

    closed spec fn view(&self) -> RxSetupView {
        RxSetupView {
            plan: calls_view(self.plan@),
            channels: self.channels@,
            done: self.done as nat,
            failure: failure_view(self.failure),
        }
    }
}

impl RxSetupView {
    /// The setup of the given channels before any call is made.
    pub open spec fn start(
        chs: Seq<usize>,
        sample_rates: Seq<Scalar>,
        frequencies: Seq<Scalar>,
        gain: Scalar,
    ) -> RxSetupView {
        RxSetupView {
            plan: setup_plan(chs, sample_rates, frequencies, gain),
            channels: chs,
            done: 0,
            failure: None,
        }
    }

    /// A call is waiting for the driver's answer.
    pub open spec fn pending(self) -> bool {
        self.failure is None && self.done < self.plan.len()
    }

    /// What the setup asks of the caller in this state.
    pub open spec fn action(self) -> SetupActionView {
        match self.failure {
            Some(e) => SetupActionView::Failed(e),
            None => if self.done < self.plan.len() {
                SetupActionView::Call(self.plan[self.done as int])
            } else {
                SetupActionView::Ready(RxStreamView { channels: self.channels, active: false })
            },
        }
    }

    /// The setup after the driver has answered the waiting call: one call
    /// further where it went through, ended with the driver's failure where
    /// it did not. An answer that no call waits for changes nothing.
    pub open spec fn step(self, outcome: Result<(), SdrErrorView>) -> RxSetupView {
        if !self.pending() {
            self
        } else {
            match outcome {
                Ok(()) => RxSetupView { done: self.done + 1, ..self },
                Err(e) => RxSetupView { failure: Some(e), ..self },
            }
        }
    }

    /// The setup after the driver has answered one call after another with
    /// the given outcomes.
    pub open spec fn run(self, outcomes: Seq<Result<(), SdrErrorView>>) -> RxSetupView
        decreases outcomes.len(),
    {
        if outcomes.len() == 0 {
            self
        } else {
            self.step(outcomes[0]).run(outcomes.skip(1))
        }
    }
}

impl RxSetup {
    /// What the setup asks of the caller in this state.
    pub fn action(&self) -> (action: SetupAction)
        ensures
            action@ == self@.action(),
    {
        match &self.failure {
            Some(e) => SetupAction::Failed(e.duplicate()),
            None => {
                if self.done < self.plan.len() {
                    SetupAction::Call(self.plan[self.done].duplicate())
                } else {
                    SetupAction::Ready(RxStream::new(slice_to_vec(self.channels.as_slice())))
                }
            },
        }
    }

    /// Takes the driver's answer to the waiting call, and says what to do
    /// next.
    pub fn step(&mut self, outcome: Result<(), SdrError>) -> (action: SetupAction)
        ensures
            final(self)@ == old(self)@.step(unit_outcome_view(outcome)),
            action@ == final(self)@.action(),
    {
        if self.failure.is_none() && self.done < self.plan.len() {
            match outcome {
                Ok(()) => {
                    self.done = self.done + 1;
                },
                Err(e) => {
                    self.failure = Some(e);
                },
            }
        }
        self.action()
    }
}

/// Begins the setup of a receiver: checks the configuration, and lays out the
/// calls that apply it to the device and open the stream.
///
/// A configuration that breaks a rule of [`valid_config`] is turned down with
/// the first rule that it breaks, before any call is asked for. Otherwise the
/// setup stands before the first call of [`setup_plan`]: for each channel in
/// turn its sample rate, its center frequency and the gain, then the opening
/// of the stream over all channels.
pub fn init_rx(chs: &[usize], sample_rates: &[Scalar], frequencies: &[Scalar], gain: Scalar) -> (r:
    Result<RxSetup, ConfigError>)
    ensures
        r is Ok <==> valid_config(chs@, frequencies@, sample_rates@),
        r matches Ok(setup) ==> setup@ == RxSetupView::start(
            chs@,
            sample_rates@,
            frequencies@,
            gain,
        ),
        r matches Err(fault) ==> first_fault(fault, chs@, frequencies@, sample_rates@),
{
    match validate(chs, frequencies, sample_rates) {
        Ok(()) => {
            let plan = setup_calls(chs, sample_rates, frequencies, gain);
            Ok(RxSetup { plan, channels: slice_to_vec(chs), done: 0, failure: None })
        },
        Err(fault) => Err(fault),
    }
}

/// In the plan the three calls of channel `i` stand together and in this
/// order: its sample rate, its center frequency, the gain.
pub open spec fn channel_configured_at(
    chs: Seq<usize>,
    sample_rates: Seq<Scalar>,
    frequencies: Seq<Scalar>,
    gain: Scalar,
    i: int,
) -> bool {
    let plan = setup_plan(chs, sample_rates, frequencies, gain);
    &&& plan[3 * i] == DriverCallView::SetSampleRate { channel: chs[i], rate: sample_rates[i] }
    &&& plan[3 * i + 1] == DriverCallView::SetFrequency { channel: chs[i], frequency: frequencies[i] }
    &&& plan[3 * i + 2] == DriverCallView::SetGain { channel: chs[i], gain }
}

/// Within one channel the sample rate is set first, then the center
/// frequency, then the gain; the channels are taken in the order given; the
/// stream is opened last, over all of them.
pub proof fn lemma_plan_order(
    chs: Seq<usize>,
    sample_rates: Seq<Scalar>,
    frequencies: Seq<Scalar>,
    gain: Scalar,
)
    ensures
        setup_plan(chs, sample_rates, frequencies, gain).len() == 3 * chs.len() + 1,
        forall|i: int|
            0 <= i < chs.len() ==> channel_configured_at(chs, sample_rates, frequencies, gain, i),
        setup_plan(chs, sample_rates, frequencies, gain)[3 * chs.len() as int] == (
        DriverCallView::OpenRxStream { channels: chs }),
{
}

/// Whatever the lists hold, the plan has one call of each kind for every
/// channel and one opening of the stream after them: the call at `k` sets a
/// sample rate, a frequency or the gain as `k` leaves 0, 1 or 2 when divided
/// by three, and it is the call of channel `k / 3`. On lists of one length
/// every value that a call takes stands in its list, and no value of a list
/// is passed over.
pub proof fn lemma_plan_one_call_of_each_kind(
    chs: Seq<usize>,
    sample_rates: Seq<Scalar>,
    frequencies: Seq<Scalar>,
    gain: Scalar,
    k: int,
)
    requires
        0 <= k <= 3 * chs.len(),
    ensures
        setup_plan(chs, sample_rates, frequencies, gain)[k] is SetSampleRate <==> k < 3 * chs.len()
            && k % 3 == 0,
        setup_plan(chs, sample_rates, frequencies, gain)[k] is SetFrequency <==> k < 3 * chs.len()
            && k % 3 == 1,
        setup_plan(chs, sample_rates, frequencies, gain)[k] is SetGain <==> k < 3 * chs.len() && k
            % 3 == 2,
        setup_plan(chs, sample_rates, frequencies, gain)[k] is OpenRxStream <==> k == 3 * chs.len(),
        k < 3 * chs.len() ==> 0 <= k / 3 < chs.len() && channel_configured_at(
            chs,
            sample_rates,
            frequencies,
            gain,
            k / 3,
        ),
        k < 3 * chs.len() && chs.len() == sample_rates.len() ==> 0 <= k / 3 < sample_rates.len(),
        k < 3 * chs.len() && chs.len() == frequencies.len() ==> 0 <= k / 3 < frequencies.len(),
{
}

/// Outcomes of which the first `k` are successes.
pub open spec fn all_ok(outcomes: Seq<Result<(), SdrErrorView>>, k: int) -> bool {
    forall|i: int| 0 <= i < k ==> (#[trigger] outcomes[i]) is Ok
}

/// While the driver carries out every call, the calls are asked for one by
/// one in the order of the plan, and after the last of them the stream is
/// ready: inactive, over the channels in the order given.
pub proof fn lemma_calls_in_order(setup: RxSetupView, outcomes: Seq<Result<(), SdrErrorView>>)
    requires
        setup.failure is None,
        setup.done + outcomes.len() <= setup.plan.len(),
        all_ok(outcomes, outcomes.len() as int),
    ensures
        setup.run(outcomes) == (RxSetupView { done: setup.done + outcomes.len(), ..setup }),
        setup.done + outcomes.len() < setup.plan.len() ==> setup.run(outcomes).action() == (
        SetupActionView::Call(setup.plan[(setup.done + outcomes.len()) as int])),
        setup.done + outcomes.len() == setup.plan.len() ==> setup.run(outcomes).action() == (
        SetupActionView::Ready(RxStreamView { channels: setup.channels, active: false })),
    decreases outcomes.len(),
{
    if outcomes.len() > 0 {
        lemma_calls_in_order(setup.step(outcomes[0]), outcomes.skip(1));
    }
}

/// Once a setup has failed, no answer changes it: it keeps the failure that
/// ended it and asks for no further call.
pub proof fn lemma_failure_is_final(setup: RxSetupView, outcomes: Seq<Result<(), SdrErrorView>>)
    requires
        setup.failure is Some,
    ensures
        setup.run(outcomes) == setup,
        setup.run(outcomes).action() == SetupActionView::Failed(setup.failure->0),
    decreases outcomes.len(),
{
    if outcomes.len() > 0 {
        lemma_failure_is_final(setup.step(outcomes[0]), outcomes.skip(1));
    }
}

/// The first call that the driver refuses ends the setup with the driver's
/// failure as it came: exactly the calls before it were carried out, and
/// whatever is answered afterwards, no further call is asked for.
pub proof fn lemma_first_failure_aborts(
    setup: RxSetupView,
    outcomes: Seq<Result<(), SdrErrorView>>,
    j: int,
)
    requires
        setup.failure is None,
        0 <= j < outcomes.len(),
        setup.done + j < setup.plan.len(),
        all_ok(outcomes, j),
        outcomes[j] is Err,
    ensures
        setup.run(outcomes) == (RxSetupView {
            done: (setup.done + j) as nat,
            failure: Some(outcomes[j]->Err_0),
            ..setup
        }),
        setup.run(outcomes).action() == SetupActionView::Failed(outcomes[j]->Err_0),
    decreases j,
{
    let rest = outcomes.skip(1);
    if j == 0 {
        lemma_failure_is_final(setup.step(outcomes[0]), rest);
    } else {
        lemma_first_failure_aborts(setup.step(outcomes[0]), rest, j - 1);
    }
}

/// Whatever the lists hold: while the driver carries out every call, a setup
/// begun on them asks for the three calls of channel `i` one after another and
/// in this order, its sample rate, then its center frequency, then the gain,
/// after the calls of the channels before it and before those of the channels
/// after it.
pub proof fn lemma_channel_setup_order(
    chs: Seq<usize>,
    sample_rates: Seq<Scalar>,
    frequencies: Seq<Scalar>,
    gain: Scalar,
    i: int,
    outcomes: Seq<Result<(), SdrErrorView>>,
)
    requires
        0 <= i < chs.len(),
        all_ok(outcomes, outcomes.len() as int),
        3 * i <= outcomes.len() <= 3 * i + 2,
    ensures
        ({
            let asked = RxSetupView::start(chs, sample_rates, frequencies, gain).run(
                outcomes,
            ).action();
            &&& outcomes.len() == 3 * i ==> asked == SetupActionView::Call(
                DriverCallView::SetSampleRate { channel: chs[i], rate: sample_rates[i] },
            )
            &&& outcomes.len() == 3 * i + 1 ==> asked == SetupActionView::Call(
                DriverCallView::SetFrequency { channel: chs[i], frequency: frequencies[i] },
            )
            &&& outcomes.len() == 3 * i + 2 ==> asked == SetupActionView::Call(
                DriverCallView::SetGain { channel: chs[i], gain },
            )
        }),
{
    let start = RxSetupView::start(chs, sample_rates, frequencies, gain);
    lemma_calls_in_order(start, outcomes);
    lemma_plan_order(chs, sample_rates, frequencies, gain);
    assert(channel_configured_at(chs, sample_rates, frequencies, gain, i));
}

} // verus!
