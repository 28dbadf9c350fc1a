use screencapturekit::cm_sample_buffer::CMSampleBuffer;
use screencapturekit::content_filter::{UnsafeContentFilter, UnsafeInitParams};
use screencapturekit::rendezvous::{completion_from_error, CaptureOutcome, Completion, OneShot};
use screencapturekit::retain::RetainLedger;
use screencapturekit::sc_stream_frame_info::{SCFrameStatus, SCStreamFrameInfo};
use screencapturekit::stream::{
    SCStreamError, StreamState, UnsafeSCStream, UnsafeSCStreamError,
};
use screencapturekit::stream_configuration::UnsafeStreamConfiguration;

struct ErrorHandler {}

impl UnsafeSCStreamError for ErrorHandler {
    fn handle_error(&self) {
        println!("ERROR!");
    }
}

fn stream_for_test(ledger: &mut RetainLedger) -> UnsafeSCStream {
    let display = ledger.allocate();
    let filter = UnsafeContentFilter::init(ledger, &UnsafeInitParams::Display(display));
    let config = UnsafeStreamConfiguration {
        width: 100,
        height: 100,
        ..Default::default()
    };
    let native_config = config.materialize(ledger);
    UnsafeSCStream::init(ledger, filter, native_config, ErrorHandler {})
}

fn started() -> CaptureOutcome {
    CaptureOutcome::Completed(Completion::Success)
}

#[test]
fn test_sc_stream() {
    let mut ledger = RetainLedger::new();
    let mut stream = stream_for_test(&mut ledger);

    let queue = stream.add_stream_output(0, None).expect("ADDING OUTPUT");
    stream.start_capture(started()).expect("start");

    assert_eq!(stream.queue_for_type(0), Some(queue));
    let sample = CMSampleBuffer::new(
        21,
        Some(SCStreamFrameInfo { status_code: Some(4) }),
        Some(22),
    );
    assert_eq!(sample.frame_status, SCFrameStatus::Started);

    stream.stop_capture(Completion::Success).expect("stop");
}

#[test]
fn test_sc_stream_error_handling() {
    let mut ledger = RetainLedger::new();
    let mut stream = stream_for_test(&mut ledger);

    assert!(stream.start_capture(started()).is_ok());
    assert!(stream.start_capture(started()).is_err()); // already started error
    assert!(stream.stop_capture(Completion::Success).is_ok());
    assert!(stream.stop_capture(Completion::Success).is_err()); // already stopped error
}

#[test]
fn start_while_capturing_is_a_recoverable_error() {
    let mut ledger = RetainLedger::new();
    let mut stream = stream_for_test(&mut ledger);

    stream.start_capture(started()).expect("start");
    assert_eq!(stream.state, StreamState::Capturing);
    let err = stream.start_capture(started()).unwrap_err();
    assert!(matches!(
        err,
        SCStreamError::InvalidState(StreamState::Capturing)
    ));
    assert_eq!(stream.state, StreamState::Capturing);
}

#[test]
fn stop_while_not_capturing_is_a_recoverable_error() {
    let mut ledger = RetainLedger::new();
    let mut stream = stream_for_test(&mut ledger);

    let err = stream.stop_capture(Completion::Success).unwrap_err();
    assert!(matches!(
        err,
        SCStreamError::InvalidState(StreamState::Created)
    ));
    assert_eq!(stream.state, StreamState::Created);
}

#[test]
fn start_timeout_leaves_state_and_reports_it() {
    let mut ledger = RetainLedger::new();
    let mut stream = stream_for_test(&mut ledger);

    let mut chan = OneShot::new();
    let outcome = chan.wait_bounded();
    let err = stream.start_capture(outcome).unwrap_err();
    assert!(matches!(err, SCStreamError::StartTimedOut));
    assert_eq!(stream.state, StreamState::Created);

    // The native completion fires after the caller gave up: it is dropped,
    // and a fresh start still works.
    chan.send(completion_from_error(None));
    assert!(chan.sent.is_none());
    assert!(stream.start_capture(started()).is_ok());
}

#[test]
fn native_start_failure_is_surfaced_with_its_description() {
    let mut ledger = RetainLedger::new();
    let mut stream = stream_for_test(&mut ledger);

    let mut chan = OneShot::new();
    chan.send(completion_from_error(Some("start capture".to_string())));
    let outcome = chan.wait_bounded();
    let err = stream.start_capture(outcome).unwrap_err();
    assert!(matches!(err, SCStreamError::Native(d) if d == "start capture"));
    assert_eq!(stream.state, StreamState::Failed);
}

#[test]
fn output_registration_error_is_propagated() {
    let mut ledger = RetainLedger::new();
    let mut stream = stream_for_test(&mut ledger);

    let err = stream
        .add_stream_output(0, Some("could not attach output".to_string()))
        .unwrap_err();
    assert!(matches!(err, SCStreamError::Native(d) if d == "could not attach output"));
    assert_eq!(stream.queue_for_type(0), None);
}

#[test]
fn delivery_queues_are_pooled_by_sample_type() {
    let mut ledger = RetainLedger::new();
    let mut stream = stream_for_test(&mut ledger);

    let video_queue = stream.add_stream_output(0, None).expect("video");
    let video_again = stream.add_stream_output(0, None).expect("video again");
    let audio_queue = stream.add_stream_output(1, None).expect("audio");

    assert_eq!(video_queue, video_again);
    assert_ne!(video_queue, audio_queue);
    assert_eq!(stream.queue_for_type(0), Some(video_queue));
    assert_eq!(stream.queue_for_type(1), Some(audio_queue));
    assert_eq!(stream.queue_for_type(2), None);
}

#[test]
fn end_to_end_capture_scenario() {
    let mut ledger = RetainLedger::new();
    let display = ledger.allocate();
    let filter = UnsafeContentFilter::init(&mut ledger, &UnsafeInitParams::Display(display));
    let config = UnsafeStreamConfiguration {
        width: 100,
        height: 100,
        ..Default::default()
    };
    let native_config = config.materialize(&mut ledger);
    let mut stream = UnsafeSCStream::init(&mut ledger, filter, native_config, ErrorHandler {});

    let queue = stream.add_stream_output(0, None).expect("register video output");

    let mut chan = OneShot::new();
    chan.send(completion_from_error(None));
    stream.start_capture(chan.wait_bounded()).expect("start");
    assert_eq!(stream.state, StreamState::Capturing);

    // One sample arrives on the video queue.
    assert_eq!(stream.queue_for_type(0), Some(queue));
    let sample = CMSampleBuffer::new(
        31,
        Some(SCStreamFrameInfo { status_code: Some(0) }),
        Some(32),
    );
    assert_eq!(sample.frame_status, SCFrameStatus::Complete);

    stream.stop_capture(Completion::Success).expect("stop");
    assert_eq!(stream.state, StreamState::Stopped);

    // A second start after a stop succeeds again ...
    assert!(stream.start_capture(started()).is_ok());
    assert!(stream.stop_capture(Completion::Success).is_ok());
    // ... while a repeated stop without an intervening start errors.
    assert!(matches!(
        stream.stop_capture(Completion::Success),
        Err(SCStreamError::InvalidState(StreamState::Stopped))
    ));

    // Tearing the stream down releases everything it owned.
    stream.destroy(&mut ledger);
    assert_eq!(ledger.retain_count(display), 1);
    for h in (display + 1)..ledger.len() {
        assert_eq!(ledger.retain_count(h), 0);
    }
}
