use vstd::prelude::*;
use crate::scalar::Scalar;

verus! {

/// Number of complex samples asked of the device in one read, and the length
/// of every per-channel buffer.
pub const SAMPLES_PER_READ: usize = 8192;

/// Why a configuration is turned down.
#[derive(Clone, Copy, Debug, PartialEq, Eq, Structural)]
pub enum ConfigError {
    /// The three per-channel lists differ in length.
    LengthMismatch,
    /// The lists agree in length but name no channel.
    NoChannels,
    /// The channel at `index` repeats an earlier one.
    DuplicateChannel { index: usize },
    /// The sample rate at `index` is not a positive finite number.
    InvalidSampleRate { index: usize },
    /// The center frequency at `index` is not a positive finite number.
    InvalidFrequency { index: usize },
}

/// The three lists are positionally aligned.
pub open spec fn lengths_agree(
    channels: Seq<usize>,
    center_frequencies: Seq<Scalar>,
    sample_rates: Seq<Scalar>,
) -> bool {
    channels.len() == center_frequencies.len() && channels.len() == sample_rates.len()
}

/// No channel index occurs twice.
pub open spec fn distinct(channels: Seq<usize>) -> bool {
    forall|i: int, j: int| 0 <= i < j < channels.len() ==> channels[i] != channels[j]
}

/// The channel at `j` repeats one that stands before it.
pub open spec fn repeats_earlier(channels: Seq<usize>, j: int) -> bool {
    exists|i: int| 0 <= i < j && channels[i] == channels[j]
}

/// Every value of the list is a positive finite number.
pub open spec fn all_positive(values: Seq<Scalar>) -> bool {
    forall|i: int| 0 <= i < values.len() ==> (#[trigger] values[i]).positive()
}

/// What a configuration has to meet before any driver call is made for it:
/// aligned lists, at least one channel, no channel twice, positive rates and
/// frequencies.
pub open spec fn valid_config(
    channels: Seq<usize>,
    center_frequencies: Seq<Scalar>,
    sample_rates: Seq<Scalar>,
) -> bool {
    &&& lengths_agree(channels, center_frequencies, sample_rates)
    &&& channels.len() >= 1
    &&& distinct(channels)
    &&& all_positive(sample_rates)
    &&& all_positive(center_frequencies)
}

/// `fault` is the first rule that the three lists break, the rules taken in
/// the order of [`valid_config`], and within a list the first offending
/// position.
pub open spec fn first_fault(
    fault: ConfigError,
    channels: Seq<usize>,
    center_frequencies: Seq<Scalar>,
    sample_rates: Seq<Scalar>,
) -> bool {
    match fault {
        ConfigError::LengthMismatch => !lengths_agree(channels, center_frequencies, sample_rates),
        ConfigError::NoChannels => {
            &&& lengths_agree(channels, center_frequencies, sample_rates)
            &&& channels.len() == 0
        },
        ConfigError::DuplicateChannel { index } => {
            &&& lengths_agree(channels, center_frequencies, sample_rates)
            &&& index < channels.len()
            &&& repeats_earlier(channels, index as int)
            &&& distinct(channels.take(index as int))
        },
        ConfigError::InvalidSampleRate { index } => {
            &&& lengths_agree(channels, center_frequencies, sample_rates)
            &&& distinct(channels)
            &&& index < sample_rates.len()
            &&& !sample_rates[index as int].positive()
            &&& all_positive(sample_rates.take(index as int))
        },
        ConfigError::InvalidFrequency { index } => {
            &&& lengths_agree(channels, center_frequencies, sample_rates)
            &&& distinct(channels)
            &&& all_positive(sample_rates)
            &&& index < center_frequencies.len()
            &&& !center_frequencies[index as int].positive()
            &&& all_positive(center_frequencies.take(index as int))
        },
    }
}

/// A configuration that breaks a rule is not valid, and the first broken rule
/// is one and only one.
pub proof fn lemma_first_fault_unique(
    a: ConfigError,
    b: ConfigError,
    channels: Seq<usize>,
    center_frequencies: Seq<Scalar>,
    sample_rates: Seq<Scalar>,
)
    requires
        first_fault(a, channels, center_frequencies, sample_rates),
        first_fault(b, channels, center_frequencies, sample_rates),
    ensures
        a == b,
        !valid_config(channels, center_frequencies, sample_rates),
{
    match a {
        ConfigError::DuplicateChannel { index } => {
            match b {
                ConfigError::DuplicateChannel { index: other } => {
                    lemma_first_repeat_unique(channels, index as int, other as int);
                },
                _ => {},
            }
        },
        ConfigError::InvalidSampleRate { index } => {
            match b {
                ConfigError::InvalidSampleRate { index: other } => {
                    lemma_first_offender_unique(sample_rates, index as int, other as int);
                },
                _ => {},
            }
        },
        ConfigError::InvalidFrequency { index } => {
            match b {
                ConfigError::InvalidFrequency { index: other } => {
                    lemma_first_offender_unique(center_frequencies, index as int, other as int);
                },
                _ => {},
            }
        },
        _ => {},
    }
}

/// An accepted configuration has lists of one length, and lists that differ
/// in length are refused for that and for nothing else, whatever they hold.
pub proof fn lemma_length_agreement(
    channels: Seq<usize>,
    center_frequencies: Seq<Scalar>,
    sample_rates: Seq<Scalar>,
)
    ensures
        valid_config(channels, center_frequencies, sample_rates) ==> channels.len()
            == center_frequencies.len() && channels.len() == sample_rates.len(),
        !lengths_agree(channels, center_frequencies, sample_rates) ==> !valid_config(
            channels,
            center_frequencies,
            sample_rates,
        ),
        !lengths_agree(channels, center_frequencies, sample_rates) ==> first_fault(
            ConfigError::LengthMismatch,
            channels,
            center_frequencies,
            sample_rates,
        ),
        forall|fault: ConfigError|
            !lengths_agree(channels, center_frequencies, sample_rates) && first_fault(
                fault,
                channels,
                center_frequencies,
                sample_rates,
            ) ==> fault == ConfigError::LengthMismatch,
{
}

proof fn lemma_first_repeat_unique(channels: Seq<usize>, j: int, k: int)
    requires
        0 <= j < channels.len(),
        0 <= k < channels.len(),
        repeats_earlier(channels, j),
        repeats_earlier(channels, k),
        distinct(channels.take(j)),
        distinct(channels.take(k)),
    ensures
        j == k,
{
    if j < k {
        let i = choose|i: int| 0 <= i < j && channels[i] == channels[j];
        assert(channels.take(k)[i] == channels.take(k)[j]);
    } else if k < j {
        let i = choose|i: int| 0 <= i < k && channels[i] == channels[k];
        assert(channels.take(j)[i] == channels.take(j)[k]);
    }
}

proof fn lemma_first_offender_unique(values: Seq<Scalar>, j: int, k: int)
    requires
        0 <= j < values.len(),
        0 <= k < values.len(),
        !values[j].positive(),
        !values[k].positive(),
        all_positive(values.take(j)),
        all_positive(values.take(k)),
    ensures
        j == k,
{
    if j < k {
        assert(values.take(k)[j].positive());
    } else if k < j {
        assert(values.take(j)[k].positive());
    }
}

/// The position of the first channel that repeats an earlier one, if any.
fn find_repeat(channels: &[usize]) -> (found: Option<usize>)
    ensures
        match found {
            Some(j) => {
                &&& j < channels@.len()
                &&& repeats_earlier(channels@, j as int)
                &&& distinct(channels@.take(j as int))
            },
            None => distinct(channels@),
        },
{
    let n: usize = channels.len();
    let mut j: usize = 0;
    while j < n
        invariant
            n == channels@.len(),
            j <= n,
            distinct(channels@.take(j as int)),
        decreases n - j,
    {
        let mut i: usize = 0;
        while i < j
            invariant
                n == channels@.len(),
                j < n,
                i <= j,
                distinct(channels@.take(j as int)),
                forall|k: int| 0 <= k < i ==> channels@[k] != channels@[j as int],
            decreases j - i,
        {
            if channels[i] == channels[j] {
                return Some(j);
            }
            i += 1;
        }
        j += 1;
    }
    assert(channels@.take(n as int) =~= channels@);
    None
}

/// The position of the first value that is not a positive finite number, if
/// any.
fn find_non_positive(values: &[Scalar]) -> (found: Option<usize>)
    ensures
        match found {
            Some(i) => {
                &&& i < values@.len()
                &&& !values@[i as int].positive()
                &&& all_positive(values@.take(i as int))
            },
            None => all_positive(values@),
        },
{
    let n: usize = values.len();
    let mut i: usize = 0;
    while i < n
        invariant
            n == values@.len(),
            i <= n,
            all_positive(values@.take(i as int)),
        decreases n - i,
    {
        if !values[i].is_positive() {
            return Some(i);
        }
        i += 1;
    }
    assert(values@.take(n as int) =~= values@);
    None
}

/// Holds the three per-channel lists to the rules of [`valid_config`].
///
/// Succeeds exactly on a valid configuration; otherwise names the first rule
/// that is broken.
pub fn validate(channels: &[usize], center_frequencies: &[Scalar], sample_rates: &[Scalar]) -> (r:
    Result<(), ConfigError>)
    ensures
        r is Ok <==> valid_config(channels@, center_frequencies@, sample_rates@),
        r matches Err(fault) ==> first_fault(
            fault,
            channels@,
            center_frequencies@,
            sample_rates@,
        ),
{
    if channels.len() != center_frequencies.len() || channels.len() != sample_rates.len() {
        return Err(ConfigError::LengthMismatch);
    }
    if channels.len() == 0 {
        return Err(ConfigError::NoChannels);
    }
    match find_repeat(channels) {
        Some(index) => {
            return Err(ConfigError::DuplicateChannel { index });
        },
        None => {},
    }
    match find_non_positive(sample_rates) {
        Some(index) => {
            return Err(ConfigError::InvalidSampleRate { index });
        },
        None => {},
    }
    match find_non_positive(center_frequencies) {
        Some(index) => {
            return Err(ConfigError::InvalidFrequency { index });
        },
        None => {},
    }
    Ok(())
}

/// A configuration that has passed [`validate`]: which device to open, the
/// gain for every channel, and per channel its index, center frequency and
/// sample rate. Nothing changes it once it is made.
#[derive(Debug, PartialEq, Eq)]
pub struct Config {
    device_spec: String,
    gain: Scalar,
    channels: Vec<usize>,
    center_frequencies: Vec<Scalar>,
    sample_rates: Vec<Scalar>,
}

/// What a [`Config`] is to a contract.
pub ghost struct ConfigView {
    pub device_spec: Seq<char>,
    pub gain: Scalar,
    pub channels: Seq<usize>,
    pub center_frequencies: Seq<Scalar>,
    pub sample_rates: Seq<Scalar>,
    pub samples_per_read: nat,
}

impl ConfigView {
    /// The lists meet [`valid_config`], and the block size is the fixed one.
    pub open spec fn valid(self) -> bool {
        &&& valid_config(self.channels, self.center_frequencies, self.sample_rates)
        &&& self.samples_per_read == SAMPLES_PER_READ
    }
}

impl View for Config {
    type V = ConfigView;

    closed spec fn view(&self) -> ConfigView {
        ConfigView {
            device_spec: self.device_spec@,
            gain: self.gain,
            channels: self.channels@,
            center_frequencies: self.center_frequencies@,
            sample_rates: self.sample_rates@,
            samples_per_read: SAMPLES_PER_READ as nat,
        }
    }
}

impl Config {
    #[verifier::type_invariant]
    spec fn well_formed(self) -> bool {
        valid_config(self.channels@, self.center_frequencies@, self.sample_rates@)
    }

    /// Makes a configuration of the given parts.
    ///
    /// Succeeds exactly where the three lists meet [`valid_config`]; otherwise
    /// names the first rule that they break. The device string and the gain
    /// are taken as they come.
    pub fn new(
        device_spec: String,
        gain: Scalar,
        channels: Vec<usize>,
        center_frequencies: Vec<Scalar>,
        sample_rates: Vec<Scalar>,
    ) -> (r: Result<Config, ConfigError>)
        ensures
            r is Ok <==> valid_config(channels@, center_frequencies@, sample_rates@),
            r matches Ok(config) ==> config@ == (ConfigView {
                device_spec: device_spec@,
                gain,
                channels: channels@,
                center_frequencies: center_frequencies@,
                sample_rates: sample_rates@,
                samples_per_read: SAMPLES_PER_READ as nat,
            }),
            r matches Err(fault) ==> first_fault(
                fault,
                channels@,
                center_frequencies@,
                sample_rates@,
            ),
    {
        match validate(channels.as_slice(), center_frequencies.as_slice(), sample_rates.as_slice()) {
            Ok(()) => Ok(Config { device_spec, gain, channels, center_frequencies, sample_rates }),
            Err(fault) => Err(fault),
        }
    }

    /// The string by which the device is found.
    pub fn device_spec(&self) -> (s: &str)
        ensures
            s@ == self@.device_spec,
    {
        self.device_spec.as_str()
    }

    /// The gain that every channel gets.
    pub fn gain(&self) -> (g: Scalar)
        ensures
            g == self@.gain,
    {
        self.gain
    }

    /// The channel indices, in the order in which they are set up and read.
    pub fn channels(&self) -> (list: &[usize])
        ensures
            list@ == self@.channels,
            self@.valid(),
    {
        proof {
            use_type_invariant(self);
        }
        self.channels.as_slice()
    }

    /// The center frequency of each channel, in hertz.
    pub fn center_frequencies(&self) -> (list: &[Scalar])
        ensures
            list@ == self@.center_frequencies,
            self@.valid(),
    {
        proof {
            use_type_invariant(self);
        }
        self.center_frequencies.as_slice()
    }

    /// The sample rate of each channel, in samples per second.
    pub fn sample_rates(&self) -> (list: &[Scalar])
        ensures
            list@ == self@.sample_rates,
            self@.valid(),
    {
        proof {
            use_type_invariant(self);
        }
        self.sample_rates.as_slice()
    }

    /// The number of samples asked of the device in one read.
    pub fn samples_per_read(&self) -> (n: usize)
        ensures
            n == self@.samples_per_read,
            n == SAMPLES_PER_READ,
    {
        SAMPLES_PER_READ
    }
}

} // verus!
