use vstd::prelude::*;

verus! {

/// The one result a native completion callback reports: success, or a
/// failure carrying the native runtime's human-readable description.
#[derive(Debug)]
pub enum Completion {
    Success,
    Failure(String),
}

/// What a bounded wait on the rendezvous produced: the completion, if it
/// arrived within the bound, or a timeout.
#[derive(Debug)]
pub enum CaptureOutcome {
    Completed(Completion),
    TimedOut,
}

/// Maps what the native completion callback observes — an optional error
/// description — to the single result sent across the rendezvous.
pub fn completion_from_error(error_description: Option<String>) -> (c: Completion)
    ensures
        error_description is None ==> c is Success,
        error_description matches Some(d) ==> c == Completion::Failure(d),
{
    match error_description {
        Option::None => Completion::Success,
        Option::Some(d) => Completion::Failure(d),
    }
}

/// A single-producer, single-consumer one-shot rendezvous.
///
/// It turns an asynchronous completion notification into a blocking call:
/// the producer — the native completion callback, running on a thread the
/// native runtime owns — deposits exactly one result; the consumer waits for
/// it, with or without a bound. The producer side is fire-and-forget: a send
/// neither blocks nor fails, whatever the consumer has done, so a completion
/// that arrives after the consumer gave up is dropped harmlessly.
pub struct OneShot {
    /// The deposited result, until the consumer takes it.
    pub sent: Option<Completion>,
    /// The consumer has taken the result.
    pub taken: bool,
    /// The consumer gave up waiting; a later send is dropped.
    pub abandoned: bool,
}

impl OneShot {
    pub fn new() -> (chan: OneShot)
        ensures
            chan.sent is None,
            !chan.taken,
            !chan.abandoned,
    {
        OneShot { sent: None, taken: false, abandoned: false }
    }

    /// The producer side. The first send deposits the completion; any later
    /// send is dropped, and so is a send after the consumer has given up.
    /// There is no precondition: sending can never panic or block, in
    /// particular not when it fires late, after the consumer timed out and
    /// moved on.
    pub fn send(&mut self, c: Completion)
        ensures
            old(self).abandoned ==> *final(self) == *old(self),
            !old(self).abandoned && old(self).sent is None ==> *final(self) == (OneShot {
                sent: Some(c),
                ..*old(self)
            }),
            !old(self).abandoned && old(self).sent is Some ==> *final(self) == *old(self),
    {
        if !self.abandoned && self.sent.is_none() {
            self.sent = Some(c);
        }
    }

    /// The consumer side of a bounded wait: whatever has been deposited by
    /// the deadline is the outcome; if nothing has, the wait times out and
    /// the channel is abandoned — the outstanding native request is not
    /// cancelled, and its late completion will be dropped by `send`.
    pub fn wait_bounded(&mut self) -> (o: CaptureOutcome)
        requires
            !old(self).taken,
            !old(self).abandoned,
        ensures
            old(self).sent matches Some(c) ==> o == CaptureOutcome::Completed(c) && *final(self)
                == (OneShot { sent: None, taken: true, ..*old(self) }),
            old(self).sent is None ==> o == CaptureOutcome::TimedOut && *final(self) == (OneShot {
                abandoned: true,
                ..*old(self)
            }),
    {
        match self.sent.take() {
            Option::Some(c) => {
                self.taken = true;
                CaptureOutcome::Completed(c)
            },
            Option::None => {
                self.abandoned = true;
                CaptureOutcome::TimedOut
            },
        }
    }

    /// The consumer side of an unbounded wait: it returns only once the
    /// completion has arrived, so the completion's presence is demanded up
    /// front. If the native framework never invokes the completion, the real
    /// caller blocks forever — an accepted limitation, not masked here.
    pub fn wait_unbounded(&mut self) -> (c: Completion)
        requires
            !old(self).taken,
            !old(self).abandoned,
            old(self).sent is Some,
        ensures
            c == old(self).sent->0,
            *final(self) == (OneShot { sent: None, taken: true, ..*old(self) }),
    {
        let got: Option<Completion> = self.sent.take();
        self.taken = true;
        match got {
            Option::Some(c) => c,
            Option::None => vstd::pervasive::unreached(),
        }
    }
}

} // verus!
