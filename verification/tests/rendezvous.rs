use screencapturekit::rendezvous::{completion_from_error, CaptureOutcome, Completion, OneShot};

#[test]
fn completion_maps_error_description() {
    assert!(matches!(completion_from_error(None), Completion::Success));
    let c = completion_from_error(Some("already started".to_string()));
    assert!(matches!(c, Completion::Failure(d) if d == "already started"));
}

#[test]
fn bounded_wait_returns_deposited_completion() {
    let mut chan = OneShot::new();
    chan.send(Completion::Success);
    let outcome = chan.wait_bounded();
    assert!(matches!(
        outcome,
        CaptureOutcome::Completed(Completion::Success)
    ));
    assert!(chan.taken);
}

#[test]
fn bounded_wait_times_out_when_nothing_arrived() {
    let mut chan = OneShot::new();
    let outcome = chan.wait_bounded();
    assert!(matches!(outcome, CaptureOutcome::TimedOut));
    assert!(chan.abandoned);
}

#[test]
fn late_send_after_timeout_is_dropped_harmlessly() {
    let mut chan = OneShot::new();
    let outcome = chan.wait_bounded();
    assert!(matches!(outcome, CaptureOutcome::TimedOut));
    chan.send(Completion::Success);
    assert!(chan.sent.is_none());
    chan.send(Completion::Failure("late".to_string()));
    assert!(chan.sent.is_none());
}

#[test]
fn only_the_first_send_is_kept() {
    let mut chan = OneShot::new();
    chan.send(Completion::Failure("first".to_string()));
    chan.send(Completion::Success);
    let outcome = chan.wait_bounded();
    assert!(matches!(
        outcome,
        CaptureOutcome::Completed(Completion::Failure(d)) if d == "first"
    ));
}

#[test]
fn unbounded_wait_returns_the_completion() {
    let mut chan = OneShot::new();
    chan.send(completion_from_error(Some("stream broke".to_string())));
    let c = chan.wait_unbounded();
    assert!(matches!(c, Completion::Failure(d) if d == "stream broke"));
}
