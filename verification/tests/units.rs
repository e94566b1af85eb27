use sdr_capture::buffers::{allocate_buffers, conforms, ScatterShape};
use sdr_capture::capture::Event;
use sdr_capture::config::{validate, Config, ConfigError, SAMPLES_PER_READ};
use sdr_capture::error::{ErrorKind, SdrError};
use sdr_capture::report::{interrupt_notice, report_line};
use sdr_capture::scalar::Scalar;
use sdr_capture::setup::{init_rx, setup_calls, DriverCall, SetupAction};
use sdr_capture::stop::{InstallError, StopFlag};
use std::sync::atomic::{AtomicUsize, Ordering};
use sdr_capture::buffers::scatter_view;
use sdr_capture::stream::{read_chunk, RxStream};

fn scalar(value: f64) -> Scalar {
    Scalar::from_bits(value.to_bits())
}

fn scalars(values: &[f64]) -> Vec<Scalar> {
    values.iter().map(|v| scalar(*v)).collect()
}

#[test]
fn scalar_keeps_its_bits() {
    let s = scalar(2.048e6);
    assert_eq!(s.to_bits(), 2.048e6f64.to_bits());
    assert_eq!(f64::from_bits(s.to_bits()), 2.048e6);
    assert_eq!(Scalar::from_bits(7).to_bits(), 7);
}

#[test]
fn scalar_positive_is_finite_and_above_zero() {
    assert!(scalar(100e6).is_positive());
    assert!(scalar(1.0).is_positive());
    assert!(scalar(f64::MIN_POSITIVE).is_positive());
    assert!(scalar(f64::MAX).is_positive());
    assert!(Scalar::from_bits(1).is_positive());
    assert!(!scalar(0.0).is_positive());
    assert!(!scalar(-0.0).is_positive());
    assert!(!scalar(-1.0).is_positive());
    assert!(!scalar(-100e6).is_positive());
    assert!(!scalar(f64::INFINITY).is_positive());
    assert!(!scalar(f64::NEG_INFINITY).is_positive());
    assert!(!scalar(f64::NAN).is_positive());
    assert!(!Scalar::from_bits(u64::MAX).is_positive());
}

#[test]
fn scalar_positive_agrees_with_the_number() {
    let samples = [
        0.0, -0.0, 1e-320, 5e-324, 1.0, -1.0, 2.5, 1e9, -1e9, 2.048e6, 1e308, -1e308,
        f64::INFINITY, f64::NEG_INFINITY, f64::NAN, f64::EPSILON,
    ];
    for value in samples {
        assert_eq!(scalar(value).is_positive(), value.is_finite() && value > 0.0);
    }
}

#[test]
fn validate_accepts_aligned_lists() {
    assert_eq!(validate(&[0], &scalars(&[100e6]), &scalars(&[2e6])), Ok(()));
    assert_eq!(
        validate(&[4, 2, 9], &scalars(&[1e6, 2e6, 3e6]), &scalars(&[1e3, 2e3, 3e3])),
        Ok(())
    );
}

#[test]
fn validate_names_a_length_mismatch_first() {
    assert_eq!(
        validate(&[0, 1], &scalars(&[100e6]), &scalars(&[2e6, 2e6])),
        Err(ConfigError::LengthMismatch)
    );
    assert_eq!(
        validate(&[0, 1], &scalars(&[1e6, 1e6]), &scalars(&[2e6])),
        Err(ConfigError::LengthMismatch)
    );
    assert_eq!(validate(&[], &scalars(&[1e6]), &scalars(&[])), Err(ConfigError::LengthMismatch));
    assert_eq!(
        validate(&[0, 0], &scalars(&[-1.0]), &scalars(&[0.0, 0.0, 0.0])),
        Err(ConfigError::LengthMismatch)
    );
}

#[test]
fn validate_wants_a_channel() {
    assert_eq!(validate(&[], &[], &[]), Err(ConfigError::NoChannels));
}

#[test]
fn validate_names_the_first_repeated_channel() {
    assert_eq!(
        validate(&[0, 0], &scalars(&[1e6, 1e6]), &scalars(&[1e6, 1e6])),
        Err(ConfigError::DuplicateChannel { index: 1 })
    );
    assert_eq!(
        validate(
            &[3, 1, 2, 1, 3],
            &scalars(&[1e6, 1e6, 1e6, 1e6, 1e6]),
            &scalars(&[1e6, 1e6, 1e6, 1e6, 1e6])
        ),
        Err(ConfigError::DuplicateChannel { index: 3 })
    );
    assert_eq!(
        validate(&[7, 7], &scalars(&[-1.0, 1e6]), &scalars(&[0.0, 1e6])),
        Err(ConfigError::DuplicateChannel { index: 1 })
    );
}

#[test]
fn validate_names_the_first_bad_sample_rate() {
    assert_eq!(
        validate(&[0, 1, 2], &scalars(&[1e6, 1e6, 1e6]), &scalars(&[1e6, 0.0, -3.0])),
        Err(ConfigError::InvalidSampleRate { index: 1 })
    );
    assert_eq!(
        validate(&[0], &scalars(&[-5.0]), &scalars(&[f64::NAN])),
        Err(ConfigError::InvalidSampleRate { index: 0 })
    );
}

#[test]
fn validate_names_the_first_bad_frequency() {
    assert_eq!(
        validate(&[0, 1, 2], &scalars(&[1e6, 1e6, f64::INFINITY]), &scalars(&[1e6, 2e6, 3e6])),
        Err(ConfigError::InvalidFrequency { index: 2 })
    );
    assert_eq!(
        validate(&[0, 1], &scalars(&[-1e6, 0.0]), &scalars(&[1e6, 2e6])),
        Err(ConfigError::InvalidFrequency { index: 0 })
    );
}

#[test]
fn config_holds_what_it_was_given() {
    let config = Config::new(
        String::from("driver=rtlsdr"),
        scalar(30.0),
        vec![1, 0],
        scalars(&[100e6, 101e6]),
        scalars(&[2e6, 2.5e6]),
    )
    .unwrap();
    assert_eq!(config.device_spec(), "driver=rtlsdr");
    assert_eq!(config.gain(), scalar(30.0));
    assert_eq!(config.channels(), &[1, 0]);
    assert_eq!(config.center_frequencies(), scalars(&[100e6, 101e6]).as_slice());
    assert_eq!(config.sample_rates(), scalars(&[2e6, 2.5e6]).as_slice());
    assert_eq!(config.samples_per_read(), 8192);
    assert_eq!(SAMPLES_PER_READ, 8192);
}

#[test]
fn config_takes_any_gain_and_device_string() {
    let config =
        Config::new(String::new(), scalar(-12.0), vec![0], scalars(&[1e6]), scalars(&[1e6]));
    assert!(config.is_ok());
    let config =
        Config::new(String::new(), scalar(f64::NAN), vec![0], scalars(&[1e6]), scalars(&[1e6]));
    assert!(config.is_ok());
}

#[test]
fn config_is_refused_as_validate_refuses() {
    let refused = Config::new(String::from("x"), scalar(1.0), vec![], vec![], vec![]);
    assert_eq!(refused, Err(ConfigError::NoChannels));
    let refused = Config::new(
        String::from("x"),
        scalar(1.0),
        vec![2, 2],
        scalars(&[1e6, 1e6]),
        scalars(&[1e6, 1e6]),
    );
    assert_eq!(refused, Err(ConfigError::DuplicateChannel { index: 1 }));
    let refused =
        Config::new(String::from("x"), scalar(1.0), vec![2], scalars(&[1e6]), scalars(&[-1e6]));
    assert_eq!(refused, Err(ConfigError::InvalidSampleRate { index: 0 }));
    let refused =
        Config::new(String::from("x"), scalar(1.0), vec![2], scalars(&[0.0]), scalars(&[1e6]));
    assert_eq!(refused, Err(ConfigError::InvalidFrequency { index: 0 }));
}

#[test]
fn init_rx_refuses_what_validate_refuses() {
    assert_eq!(init_rx(&[], &[], &[], scalar(1.0)), Err(ConfigError::NoChannels));
    assert_eq!(
        init_rx(&[0, 1], &scalars(&[1e6]), &scalars(&[1e6, 1e6]), scalar(1.0)),
        Err(ConfigError::LengthMismatch)
    );
    assert_eq!(
        init_rx(&[1, 1], &scalars(&[1e6, 1e6]), &scalars(&[1e6, 1e6]), scalar(1.0)),
        Err(ConfigError::DuplicateChannel { index: 1 })
    );
    assert_eq!(
        init_rx(&[0, 1], &scalars(&[1e6, -1e6]), &scalars(&[1e6, 1e6]), scalar(1.0)),
        Err(ConfigError::InvalidSampleRate { index: 1 })
    );
    assert_eq!(
        init_rx(&[0, 1], &scalars(&[1e6, 1e6]), &scalars(&[0.0, 1e6]), scalar(1.0)),
        Err(ConfigError::InvalidFrequency { index: 0 })
    );
}

#[test]
fn init_rx_asks_for_rate_then_frequency_then_gain() {
    let mut setup =
        init_rx(&[4, 9], &scalars(&[1e6, 2e6]), &scalars(&[3e8, 4e8]), scalar(17.5)).unwrap();
    let mut calls = Vec::new();
    let mut action = setup.action();
    while let SetupAction::Call(call) = action {
        calls.push(call.duplicate());
        action = setup.step(Ok(()));
    }
    assert_eq!(
        calls,
        vec![
            DriverCall::SetSampleRate { channel: 4, rate: scalar(1e6) },
            DriverCall::SetFrequency { channel: 4, frequency: scalar(3e8) },
            DriverCall::SetGain { channel: 4, gain: scalar(17.5) },
            DriverCall::SetSampleRate { channel: 9, rate: scalar(2e6) },
            DriverCall::SetFrequency { channel: 9, frequency: scalar(4e8) },
            DriverCall::SetGain { channel: 9, gain: scalar(17.5) },
            DriverCall::OpenRxStream { channels: vec![4, 9] },
        ]
    );
    assert_eq!(action, SetupAction::Ready(RxStream::new(vec![4, 9])));
}

#[test]
fn stream_is_made_inactive_and_follows_the_driver() {
    let mut stream = RxStream::new(vec![2, 3]);
    assert!(!stream.active());
    assert_eq!(stream.channels(), &[2, 3]);
    let refusal = SdrError::new(ErrorKind::NotSupported, String::from("no"));
    assert_eq!(stream.activate(Err(refusal.clone())), Err(refusal.clone()));
    assert!(!stream.active());
    assert_eq!(stream.activate(Ok(())), Ok(()));
    assert!(stream.active());
    assert_eq!(stream.activate(Ok(())), Ok(()));
    assert!(stream.active());
    assert_eq!(stream.deactivate(Err(refusal.clone())), Err(refusal));
    assert!(stream.active());
    assert_eq!(stream.deactivate(Ok(())), Ok(()));
    assert!(!stream.active());
    assert_eq!(stream.deactivate(Ok(())), Ok(()));
    assert!(!stream.active());
    assert_eq!(stream.channels(), &[2, 3]);
}

#[test]
fn read_chunk_on_an_active_stream_asks_for_whole_spans_without_limit() {
    let mut stream = RxStream::new(vec![0, 1, 5]);
    assert_eq!(stream.activate(Ok(())), Ok(()));
    let mut buffers = allocate_buffers(3, 1u8);
    let request = read_chunk(&stream, &mut buffers).unwrap();
    assert_eq!(request.timeout_us, -1);
    assert_eq!(request.spans.len(), 3);
    assert!(request.spans.iter().all(|span| span.len() == 8192));
    assert!(request.spans.iter().all(|span| span.iter().all(|s| *s == 1)));
}

#[test]
fn read_chunk_refuses_a_deactivated_stream() {
    let mut stream = RxStream::new(vec![0]);
    assert_eq!(stream.activate(Ok(())), Ok(()));
    assert_eq!(stream.deactivate(Ok(())), Ok(()));
    let mut buffers = allocate_buffers(1, 1u8);
    assert_eq!(read_chunk(&stream, &mut buffers).unwrap_err(), SdrError::stream_inactive());
    assert_eq!(
        SdrError::stream_inactive(),
        SdrError::new(ErrorKind::StreamError, String::from("Stream Inactive!"))
    );
    assert_eq!(buffers, allocate_buffers(1, 1u8));
}

#[test]
fn scatter_view_has_one_span_over_each_buffer() {
    let mut buffers = vec![vec![1u8, 2, 3], vec![], vec![4u8]];
    {
        let spans = scatter_view(&mut buffers);
        assert_eq!(spans.len(), 3);
        assert_eq!(spans[0], &[1, 2, 3]);
        assert_eq!(spans[1], &[] as &[u8]);
        assert_eq!(spans[2], &[4]);
        for span in spans {
            for sample in span.iter_mut() {
                *sample += 10;
            }
        }
    }
    assert_eq!(buffers, vec![vec![11u8, 12, 13], vec![], vec![14u8]]);
    let mut none: Vec<Vec<u8>> = Vec::new();
    assert!(scatter_view(&mut none).is_empty());
}

#[test]
fn error_copy_is_equal() {
    let e = SdrError::new(ErrorKind::Corruption, String::from("bad packet"));
    assert_eq!(e.duplicate(), e);
    assert_eq!(e.kind, ErrorKind::Corruption);
    assert_eq!(e.message, "bad packet");
    let kinds = [
        ErrorKind::Timeout,
        ErrorKind::StreamError,
        ErrorKind::Corruption,
        ErrorKind::Overflow,
        ErrorKind::NotSupported,
        ErrorKind::TimeError,
        ErrorKind::Underflow,
        ErrorKind::Other,
    ];
    for (i, a) in kinds.iter().enumerate() {
        for (j, b) in kinds.iter().enumerate() {
            assert_eq!(a == b, i == j);
        }
    }
}

#[test]
fn buffers_are_one_per_channel_and_zeroed() {
    let buffers = allocate_buffers(3, 0i16);
    assert_eq!(buffers.len(), 3);
    for buffer in &buffers {
        assert_eq!(buffer.len(), 8192);
        assert!(buffer.iter().all(|s| *s == 0));
    }
    let pairs = allocate_buffers(1, (0.0f32, 0.0f32));
    assert_eq!(pairs.len(), 1);
    assert_eq!(pairs[0].len(), 8192);
    assert!(pairs[0].iter().all(|s| *s == (0.0, 0.0)));
    let none: Vec<Vec<u8>> = allocate_buffers(0, 0u8);
    assert!(none.is_empty());
}

#[test]
fn conforms_tells_the_shape() {
    let buffers = allocate_buffers(2, 0u8);
    assert!(conforms(&buffers, ScatterShape::for_channels(2)));
    assert!(conforms(&buffers, ScatterShape { spans: 2, span_len: 8192 }));
    assert!(!conforms(&buffers, ScatterShape::for_channels(1)));
    assert!(!conforms(&buffers, ScatterShape::for_channels(3)));
    assert!(!conforms(&buffers, ScatterShape { spans: 2, span_len: 8191 }));
    let mut uneven = allocate_buffers(2, 0u8);
    uneven[1].pop();
    assert!(!conforms(&uneven, ScatterShape::for_channels(2)));
    let empty: Vec<Vec<u8>> = Vec::new();
    assert!(conforms(&empty, ScatterShape { spans: 0, span_len: 5 }));
}

#[test]
fn report_line_writes_the_count_in_decimal() {
    assert_eq!(report_line(0), "Read 0 samples...");
    assert_eq!(report_line(7), "Read 7 samples...");
    assert_eq!(report_line(10), "Read 10 samples...");
    assert_eq!(report_line(1024), "Read 1024 samples...");
    assert_eq!(report_line(8192), "Read 8192 samples...");
    assert_eq!(report_line(90807), "Read 90807 samples...");
    assert_eq!(report_line(usize::MAX), format!("Read {} samples...", usize::MAX));
}

#[test]
fn report_line_agrees_with_the_formatter() {
    let mut n: usize = 0;
    while n < 200_000 {
        assert_eq!(report_line(n), format!("Read {n} samples..."));
        n += 37;
    }
}

#[test]
fn interrupt_notice_is_the_fixed_line() {
    assert_eq!(interrupt_notice(), "Ctrl-C received, stopping capture...");
}

#[test]
fn stop_flag_is_written_once() {
    let mut flag = StopFlag::new();
    assert!(flag.should_continue());
    assert_eq!(flag.poll(), Event::Polled { running: true });
    assert!(flag.request_stop());
    assert!(!flag.should_continue());
    assert!(!flag.request_stop());
    assert!(!flag.request_stop());
    assert!(!flag.should_continue());
    assert_eq!(flag.poll(), Event::Polled { running: false });
}

#[test]
fn stop_asked_through_one_handle_is_seen_through_another() {
    let mut loop_side = StopFlag::new();
    let mut handler_side = loop_side.handle();
    let mut late = loop_side.handle();
    assert!(loop_side.should_continue());
    assert!(handler_side.should_continue());
    assert!(handler_side.request_stop());
    assert!(!loop_side.should_continue());
    assert!(!loop_side.should_continue());
    assert_eq!(loop_side.poll(), Event::Polled { running: false });
    assert!(!late.request_stop());
    assert!(!late.should_continue());
    assert!(!handler_side.request_stop());
    assert!(!loop_side.handle().should_continue());
    let mut apart = StopFlag::new();
    assert!(apart.should_continue());
}

#[test]
fn handle_that_has_seen_the_stop_is_never_first() {
    let mut a = StopFlag::new();
    let mut b = a.handle();
    assert!(a.request_stop());
    assert!(!b.should_continue());
    assert!(!b.request_stop());
    assert!(!a.request_stop());
}

#[test]
fn on_interrupt_stops_and_notifies_once() {
    let mut flag = StopFlag::new();
    let mut watcher = flag.handle();
    let notices = AtomicUsize::new(0);
    let notify = |text: &str| {
        assert_eq!(text, "Ctrl-C received, stopping capture...");
        notices.fetch_add(1, Ordering::SeqCst);
    };
    assert!(watcher.should_continue());
    flag.on_interrupt(&notify);
    assert!(!watcher.should_continue());
    assert!(!flag.should_continue());
    assert_eq!(notices.load(Ordering::SeqCst), 1);
    flag.on_interrupt(&notify);
    flag.on_interrupt(&notify);
    assert!(!watcher.should_continue());
    assert_eq!(notices.load(Ordering::SeqCst), 1);
}

#[test]
fn install_takes_one_handler_for_the_process() {
    let mut flag = StopFlag::new();
    assert_eq!(StopFlag::install(flag.handle(), |_: &str| {}), Ok(()));
    assert!(flag.should_continue());
    assert_eq!(
        StopFlag::install(flag.handle(), |_: &str| {}),
        Err(InstallError::MultipleHandlers)
    );
    let other = StopFlag::new();
    assert_eq!(StopFlag::install(other, |_: &str| {}), Err(InstallError::MultipleHandlers));
    assert!(flag.should_continue());
}

#[test]
fn observe_latches_the_first_cleared_reading() {
    let mut flag = StopFlag::new();
    assert!(flag.observe(true));
    assert!(flag.observe(true));
    assert!(!flag.observe(false));
    assert!(!flag.observe(true));
    assert!(!flag.observe(false));
    assert!(!flag.should_continue());
    assert_eq!(flag.poll(), Event::Polled { running: false });
}

#[test]
fn note_request_is_first_only_on_a_running_flag_and_a_handle_that_knew_of_no_stop() {
    let mut flag = StopFlag::new();
    assert!(flag.note_request(true));
    assert!(!flag.note_request(true));
    assert!(!flag.note_request(false));
    assert!(!flag.should_continue());
    let mut late = StopFlag::new();
    assert!(!late.note_request(false));
    assert!(!late.note_request(true));
    let mut seen = StopFlag::new();
    assert!(!seen.observe(false));
    assert!(!seen.note_request(true));
}

#[test]
fn handle_is_on_the_same_flag_and_knows_what_its_maker_knows() {
    let mut maker = StopFlag::new();
    let mut early = maker.handle();
    assert!(early.should_continue());
    assert!(maker.request_stop());
    let mut late = maker.handle();
    assert!(!late.observe(true));
    assert!(!early.should_continue());
    let mut other = StopFlag::new();
    assert!(other.should_continue());
    assert!(other.handle().should_continue());
}

#[test]
fn setup_calls_reads_each_list_at_the_channel_position() {
    let calls = setup_calls(&[7, 7, 2], &scalars(&[1.0, -2.0, 0.0]), &scalars(&[4.0, 5.0, -6.0]), scalar(9.0));
    assert_eq!(
        calls,
        vec![
            DriverCall::SetSampleRate { channel: 7, rate: scalar(1.0) },
            DriverCall::SetFrequency { channel: 7, frequency: scalar(4.0) },
            DriverCall::SetGain { channel: 7, gain: scalar(9.0) },
            DriverCall::SetSampleRate { channel: 7, rate: scalar(-2.0) },
            DriverCall::SetFrequency { channel: 7, frequency: scalar(5.0) },
            DriverCall::SetGain { channel: 7, gain: scalar(9.0) },
            DriverCall::SetSampleRate { channel: 2, rate: scalar(0.0) },
            DriverCall::SetFrequency { channel: 2, frequency: scalar(-6.0) },
            DriverCall::SetGain { channel: 2, gain: scalar(9.0) },
            DriverCall::OpenRxStream { channels: vec![7, 7, 2] },
        ]
    );
    assert_eq!(
        setup_calls(&[], &[], &[], scalar(1.0)),
        vec![DriverCall::OpenRxStream { channels: vec![] }]
    );
}
