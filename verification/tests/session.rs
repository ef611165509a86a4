use fon::chan::{Ch16, Ch32};
use wavy::error::AudioError;
use wavy::frame::{Mono16, Stereo16, Surround16};
use wavy::session::{Backend, DeviceSession, Direction};
use wavy::signal::PollOutcome;

fn microphone(period_length: usize) -> Backend {
    Backend {
        direction: Direction::Input,
        present: true,
        permitted: true,
        rates: vec![44_100, 48_000],
        period_length,
        channel_mask: 0b0000_0001,
    }
}

fn speaker(period_length: usize) -> Backend {
    Backend { direction: Direction::Output, channel_mask: 0b0000_0011, ..microphone(period_length) }
}

fn quantize(sample: f32) -> i16 {
    i16::from(Ch16::from(Ch32::new(sample)))
}

#[test]
fn open_reports_unsupported_rate() {
    let opened = DeviceSession::<u32>::open(&microphone(4), 192_000);
    assert!(matches!(opened, Err(AudioError::UnsupportedRate)));
}

#[test]
fn open_reports_missing_hardware_first() {
    let backend = Backend { present: false, permitted: false, ..microphone(4) };
    let opened = DeviceSession::<u32>::open(&backend, 192_000);
    assert!(matches!(opened, Err(AudioError::DeviceUnavailable)));
}

#[test]
fn open_reports_refused_permission() {
    let backend = Backend { permitted: false, ..microphone(4) };
    assert!(matches!(
        DeviceSession::<u32>::open(&backend, 48_000),
        Err(AudioError::PermissionDenied)
    ));
    assert!(matches!(
        DeviceSession::<u32>::open(&backend, 192_000),
        Err(AudioError::PermissionDenied)
    ));
}

#[test]
fn open_with_no_rates_is_unsupported() {
    let backend = Backend { rates: vec![], ..microphone(4) };
    assert!(matches!(
        DeviceSession::<u32>::open(&backend, 48_000),
        Err(AudioError::UnsupportedRate)
    ));
}

#[test]
fn opened_session_is_silent_and_idle() {
    let mut session = DeviceSession::<u32>::open(&microphone(4), 44_100).unwrap();
    assert_eq!(session.direction(), Direction::Input);
    assert_eq!(session.sample_rate(), 44_100);
    assert_eq!(session.period_length(), 4);
    assert_eq!(session.channel_mask(), 0b0000_0001);
    assert_eq!(session.missed_periods(), 0);
    assert_eq!(session.cadence_error(), None);
    for i in 0..4 {
        assert_eq!(session.sample(i), Some(0));
    }
    assert_eq!(session.sample(4), None);
    assert_eq!(session.poll_period(1), PollOutcome::Pending);
}

#[test]
fn supports_rate_looks_through_all_rates() {
    let backend = microphone(4);
    assert!(backend.supports_rate(44_100));
    assert!(backend.supports_rate(48_000));
    assert!(!backend.supports_rate(192_000));
    assert!(!backend.supports_rate(0));
}

#[test]
fn written_period_comes_out_as_mono_frames() {
    let raw = [0.1f32, -0.2, 0.3, -0.4];
    let mut session = DeviceSession::<u32>::open(&microphone(4), 48_000).unwrap();
    for (i, sample) in raw.iter().enumerate() {
        session.write(i, quantize(*sample));
    }
    assert_eq!(session.signal_ready(), None);
    assert_eq!(session.poll_period(1), PollOutcome::Complete);
    let mut stream = session.frames::<Mono16>();
    assert_eq!(stream.len(), Some(4));
    assert_eq!(stream.sample_rate(), Some(48_000));
    for sample in raw.iter() {
        assert_eq!(stream.next(), Some(Mono16 { mono: quantize(*sample) }));
    }
    assert_eq!(stream.next(), None);
    assert_eq!(quantize(0.1), 3276);
    assert!(quantize(-0.2) < 0 && quantize(0.3) > quantize(0.1) && quantize(-0.4) < quantize(-0.2));
}

#[test]
fn waiting_consumer_is_woken_by_the_period() {
    let mut session = DeviceSession::<u32>::open(&microphone(2), 48_000).unwrap();
    assert_eq!(session.poll_period(77), PollOutcome::Pending);
    assert!(session.fill(&[3, 4]));
    assert_eq!(session.signal_ready(), Some(77));
    assert_eq!(session.poll_period(77), PollOutcome::Complete);
    let frames = session.frames::<Mono16>().drain();
    assert_eq!(frames, vec![Mono16 { mono: 3 }, Mono16 { mono: 4 }]);
    assert_eq!(session.poll_period(78), PollOutcome::Pending);
}

#[test]
fn two_cycles_see_disjoint_periods() {
    let mut session = DeviceSession::<u32>::open(&microphone(3), 48_000).unwrap();
    assert!(session.fill(&[1, 2, 3]));
    session.signal_ready();
    assert_eq!(session.poll_period(1), PollOutcome::Complete);
    let first = session.frames::<Mono16>().drain();
    assert_eq!(first, vec![Mono16 { mono: 1 }, Mono16 { mono: 2 }, Mono16 { mono: 3 }]);

    assert!(session.fill(&[-4, -5, -6]));
    session.signal_ready();
    assert_eq!(session.poll_period(1), PollOutcome::Complete);
    let second = session.frames::<Mono16>().drain();
    assert_eq!(second, vec![Mono16 { mono: -4 }, Mono16 { mono: -5 }, Mono16 { mono: -6 }]);
    for frame in second.iter() {
        assert!(!first.contains(frame));
    }
    assert_eq!(session.cadence_error(), None);
}

#[test]
fn fill_of_wrong_length_leaves_the_period() {
    let mut session = DeviceSession::<u32>::open(&microphone(2), 48_000).unwrap();
    assert!(session.fill(&[8, 9]));
    assert!(!session.fill(&[1, 2, 3]));
    assert_eq!(session.sample(0), Some(8));
    assert_eq!(session.sample(1), Some(9));
    assert_eq!(session.period_length(), 2);
}

#[test]
fn signal_leaves_the_period_alone() {
    let mut session = DeviceSession::<u32>::open(&microphone(2), 48_000).unwrap();
    assert!(session.fill(&[8, 9]));
    session.signal_ready();
    session.poll_period(5);
    session.poll_period(6);
    assert_eq!(session.sample(0), Some(8));
    assert_eq!(session.sample(1), Some(9));
}

#[test]
fn missed_input_period_is_an_overrun() {
    let mut session = DeviceSession::<u32>::open(&microphone(2), 48_000).unwrap();
    session.signal_ready();
    assert_eq!(session.cadence_error(), None);
    session.signal_ready();
    assert_eq!(session.missed_periods(), 1);
    assert_eq!(session.cadence_error(), Some(AudioError::BufferOverrun));
    assert_eq!(session.poll_period(1), PollOutcome::Complete);
    assert_eq!(session.poll_period(1), PollOutcome::Pending);
}

#[test]
fn missed_output_period_is_an_underrun() {
    let mut session = DeviceSession::<u32>::open(&speaker(4), 48_000).unwrap();
    session.signal_ready();
    session.signal_ready();
    session.signal_ready();
    assert_eq!(session.missed_periods(), 2);
    assert_eq!(session.cadence_error(), Some(AudioError::BufferUnderrun));
}

#[test]
fn write_frames_interleaves_and_silences_the_rest() {
    let mut session = DeviceSession::<u32>::open(&speaker(7), 48_000).unwrap();
    assert!(session.fill(&[9, 9, 9, 9, 9, 9, 9]));
    let frames = [Stereo16 { left: 1, right: 2 }, Stereo16 { left: 3, right: 4 }];
    assert_eq!(session.write_frames(&frames), 2);
    let expected = [1, 2, 3, 4, 0, 0, 0];
    for (i, sample) in expected.iter().enumerate() {
        assert_eq!(session.sample(i), Some(*sample));
    }
    assert_eq!(session.period_length(), 7);
}

#[test]
fn write_frames_stops_at_the_last_whole_frame() {
    let mut session = DeviceSession::<u32>::open(&speaker(5), 48_000).unwrap();
    let frames = [
        Stereo16 { left: 1, right: 2 },
        Stereo16 { left: 3, right: 4 },
        Stereo16 { left: 5, right: 6 },
    ];
    assert_eq!(session.write_frames(&frames), 2);
    let expected = [1, 2, 3, 4, 0];
    for (i, sample) in expected.iter().enumerate() {
        assert_eq!(session.sample(i), Some(*sample));
    }
}

#[test]
fn write_frames_of_other_layouts() {
    let mut session = DeviceSession::<u32>::open(&speaker(6), 48_000).unwrap();
    assert_eq!(session.write_frames(&[Mono16 { mono: 7 }, Mono16 { mono: 8 }]), 2);
    assert_eq!(session.sample(0), Some(7));
    assert_eq!(session.sample(1), Some(8));
    assert_eq!(session.sample(2), Some(0));
    let six = Surround16 { channels: [1, 2, 3, 4, 5, 6] };
    assert_eq!(session.write_frames(&[six, six]), 1);
    for i in 0..6usize {
        assert_eq!(session.sample(i), Some(i as i16 + 1));
    }
    let none: [Stereo16; 0] = [];
    assert_eq!(session.write_frames(&none), 0);
    for i in 0..6usize {
        assert_eq!(session.sample(i), Some(0));
    }
}

#[test]
fn write_frames_into_too_short_a_period_plays_nothing() {
    let mut session = DeviceSession::<u32>::open(&speaker(1), 48_000).unwrap();
    assert!(session.fill(&[5]));
    assert_eq!(session.write_frames(&[Stereo16 { left: 1, right: 2 }]), 0);
    assert_eq!(session.sample(0), Some(0));
}

#[test]
fn errors_say_whether_the_session_goes_on() {
    assert!(AudioError::BufferUnderrun.recoverable());
    assert!(AudioError::BufferOverrun.recoverable());
    assert!(AudioError::AwaitMisuse.recoverable());
    assert!(!AudioError::DeviceUnavailable.recoverable());
    assert!(!AudioError::UnsupportedRate.recoverable());
    assert!(!AudioError::PermissionDenied.recoverable());
}
