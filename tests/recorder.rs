use enspeaker::config::{negotiate, EncodingSpec, SampleEncoding, SampleFormat, StreamConfig};
use enspeaker::device::select_device;
use enspeaker::error::RecorderError;
use enspeaker::session::{AudioRecorder, RecorderSlot, SessionState};
use enspeaker::sink::SampleSink;

#[test]
fn float_device_gives_float_header() {
    let config = negotiate(2, 44100, SampleFormat::F32).unwrap();
    assert_eq!(
        config,
        StreamConfig { channels: 2, sample_rate: 44100, sample_format: SampleFormat::F32 }
    );
    assert_eq!(
        config.encoding_spec(),
        EncodingSpec {
            channels: 2,
            sample_rate: 44100,
            bits_per_sample: 32,
            encoding: SampleEncoding::Float
        }
    );
}

#[test]
fn int16_device_gives_int_header() {
    let config = negotiate(1, 48000, SampleFormat::I16).unwrap();
    assert_eq!(
        config.encoding_spec(),
        EncodingSpec {
            channels: 1,
            sample_rate: 48000,
            bits_per_sample: 16,
            encoding: SampleEncoding::Int
        }
    );
}

#[test]
fn unsupported_formats_are_rejected() {
    let others = [
        SampleFormat::I8,
        SampleFormat::I32,
        SampleFormat::I64,
        SampleFormat::U8,
        SampleFormat::U16,
        SampleFormat::U32,
        SampleFormat::U64,
        SampleFormat::F64,
        SampleFormat::Other,
    ];
    for f in others {
        assert!(!f.is_supported());
        assert_eq!(negotiate(2, 44100, f), Err(RecorderError::UnsupportedFormat));
    }
    assert!(SampleFormat::I16.is_supported());
    assert!(SampleFormat::F32.is_supported());
}

#[test]
fn unsupported_format_start_leaves_idle() {
    let mut slot: RecorderSlot<u32> = RecorderSlot::new();
    let built = negotiate(2, 44100, SampleFormat::U8).map(|c| c.sample_rate);
    assert_eq!(slot.start(built), Err(RecorderError::UnsupportedFormat));
    assert_eq!(slot.state(), SessionState::Idle);
    assert!(!slot.is_recording());
}

#[test]
fn stop_without_session_fails_and_keeps_idle() {
    let mut slot: RecorderSlot<u32> = RecorderSlot::new();
    assert_eq!(slot.stop(), Err(RecorderError::NotRecording));
    assert_eq!(slot.state(), SessionState::Idle);
    assert_eq!(slot.stop(), Err(RecorderError::NotRecording));
    assert_eq!(slot.state(), SessionState::Idle);
}

#[test]
fn start_then_stop_goes_active_then_idle() {
    let mut slot: RecorderSlot<u32> = RecorderSlot::new();
    assert_eq!(slot.check_idle(), Ok(()));
    assert_eq!(slot.start(Ok(7)), Ok(()));
    assert_eq!(slot.state(), SessionState::Active);
    assert!(slot.is_recording());
    assert_eq!(slot.stop(), Ok(7));
    assert_eq!(slot.state(), SessionState::Idle);
    assert_eq!(slot.stop(), Err(RecorderError::NotRecording));
}

#[test]
fn second_start_is_rejected_and_first_session_kept() {
    let mut slot: RecorderSlot<u32> = RecorderSlot::new();
    assert_eq!(slot.start(Ok(1)), Ok(()));
    assert_eq!(slot.check_idle(), Err(RecorderError::AlreadyRecording));
    assert_eq!(slot.start(Ok(2)), Err(RecorderError::AlreadyRecording));
    assert_eq!(slot.state(), SessionState::Active);
    assert_eq!(slot.stop(), Ok(1));
}

#[test]
fn failed_build_is_passed_on() {
    let mut slot: RecorderSlot<u32> = RecorderSlot::new();
    assert_eq!(slot.start(Err(RecorderError::StreamBuildFailed)), Err(RecorderError::StreamBuildFailed));
    assert_eq!(slot.state(), SessionState::Idle);
}

#[test]
fn recorder_parts_come_back() {
    let rec = AudioRecorder::new("stream", 5u8);
    assert_eq!(rec.stream, "stream");
    assert_eq!(rec.into_parts(), ("stream", 5u8));
}

#[test]
fn default_device_is_preferred() {
    assert_eq!(select_device(Some("mic"), Some("first")), Ok("mic"));
    assert_eq!(select_device(None, Some("first")), Ok("first"));
    assert_eq!(select_device::<&str>(None, None), Err(RecorderError::NoDeviceFound));
}

#[test]
fn sink_keeps_order_without_gaps_or_duplicates() {
    let mut sink: SampleSink<i16> = SampleSink::new();
    sink.accept(&[1, 2, 3]);
    sink.accept(&[]);
    sink.accept(&[4, 5]);
    assert_eq!(sink.pending_len(), 5);
    assert_eq!(sink.take_pending(), vec![1, 2, 3, 4, 5]);
    assert_eq!(sink.pending_len(), 0);
    assert_eq!(sink.take_pending(), Vec::<i16>::new());
    sink.accept(&[6]);
    assert_eq!(sink.take_pending(), vec![6]);
    assert_eq!(sink.outcome(), Ok(()));
}

#[test]
fn sink_carries_float_samples() {
    let mut sink: SampleSink<f32> = SampleSink::new();
    sink.accept(&[0.5, -0.25]);
    assert_eq!(sink.take_pending(), vec![0.5, -0.25]);
}

#[test]
fn refused_writes_make_a_partial_recording() {
    let mut sink: SampleSink<i16> = SampleSink::new();
    sink.record_failed_writes(0);
    assert_eq!(sink.outcome(), Ok(()));
    sink.record_failed_writes(3);
    assert_eq!(sink.failed_writes(), 3);
    assert_eq!(sink.outcome(), Err(RecorderError::PartialRecordingFailure));
    sink.record_failed_writes(u64::MAX);
    assert_eq!(sink.failed_writes(), u64::MAX);
}

#[test]
fn errors_have_messages() {
    assert_eq!(RecorderError::NotRecording.message(), "no recording in progress");
    assert_eq!(RecorderError::UnsupportedFormat.message(), "unsupported sample format");
    assert_eq!(RecorderError::NoDeviceFound.message(), "no input device found");
}
