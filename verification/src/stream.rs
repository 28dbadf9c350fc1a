use vstd::prelude::*;

use crate::content_filter::UnsafeContentFilter;
use crate::rendezvous::{CaptureOutcome, Completion};
use crate::retain::RetainLedger;
use crate::stream_configuration::UnsafeStreamConfigurationRef;

verus! {

/// Lifecycle states of a capture stream.
///
/// `Starting` and `Stopping` are the phases in which an asynchronous start
/// or stop request is outstanding: the stream sits in them exactly while
/// the calling thread is blocked inside the rendezvous wait, and leaves
/// them the moment the wait settles — into `Capturing` or `Stopped` on
/// success, back on a timeout, or into `Failed` on a native-reported error.
#[derive(Clone, Copy, Debug, PartialEq, Eq, Structural)]
pub enum StreamState {
    Created,
    Starting,
    Capturing,
    Stopping,
    Stopped,
    Failed,
}

/// A recoverable stream error, surfaced as a result — never a panic.
#[derive(Debug)]
pub enum SCStreamError {
    /// The requested operation is not legal in the stream's current state;
    /// carries the state the stream was in.
    InvalidState(StreamState),
    /// The start request did not complete within its bound. The outstanding
    /// native request is not cancelled by this.
    StartTimedOut,
    /// The native runtime reported a failure, with its human-readable
    /// description.
    Native(String),
}

/// The error-handling capability a caller supplies when constructing a
/// stream: one operation, invoked with no arguments when the native runtime
/// reports a stream-level error; its return value is ignored.
pub trait UnsafeSCStreamError {
    fn handle_error(&self);
}

/// One registered output destination: the sample type it serves and the
/// delivery queue it was bound to.
#[derive(Clone, Copy, Debug, PartialEq, Eq, Structural)]
pub struct OutputRegistration {
    pub output_type: u8,
    pub queue: usize,
}

/// The start-capture decision: given the state a start was requested in and
/// the outcome of the bounded rendezvous wait, the next lifecycle state and
/// the result handed to the caller.
///
/// A stream that is not freshly created or stopped refuses to start with a
/// recoverable error, whatever the outcome says. On a timeout the state is
/// left exactly as it was: the outstanding native request is not cancelled,
/// and a completion that fires later is dropped at the rendezvous rather
/// than resolving the stream silently.
pub fn start_transition(state: StreamState, outcome: CaptureOutcome) -> (r: (
    StreamState,
    Result<(), SCStreamError>,
))
    ensures
        !(state is Created || state is Stopped) ==> r.0 == state && r.1 == Err::<
            (),
            SCStreamError,
        >(SCStreamError::InvalidState(state)),
        (state is Created || state is Stopped) && outcome is TimedOut ==> r.0 == state && r.1
            == Err::<(), SCStreamError>(SCStreamError::StartTimedOut),
        (state is Created || state is Stopped) ==> (outcome matches CaptureOutcome::Completed(
            Completion::Success,
        ) ==> r.0 is Capturing && r.1 is Ok),
        (state is Created || state is Stopped) ==> (outcome matches CaptureOutcome::Completed(
            Completion::Failure(d),
        ) ==> r.0 is Failed && r.1 == Err::<(), SCStreamError>(SCStreamError::Native(d))),
{
    match state {
        StreamState::Created | StreamState::Stopped => match outcome {
            CaptureOutcome::TimedOut => (state, Err(SCStreamError::StartTimedOut)),
            CaptureOutcome::Completed(Completion::Success) => (StreamState::Capturing, Ok(())),
            CaptureOutcome::Completed(Completion::Failure(d)) => (
                StreamState::Failed,
                Err(SCStreamError::Native(d)),
            ),
        },
        _ => (state, Err(SCStreamError::InvalidState(state))),
    }
}

/// The stop-capture decision: given the state a stop was requested in and
/// the completion the unbounded rendezvous wait delivered, the next
/// lifecycle state and the result handed to the caller.
///
/// A stream that is not capturing refuses to stop with a recoverable error.
pub fn stop_transition(state: StreamState, completion: Completion) -> (r: (
    StreamState,
    Result<(), SCStreamError>,
))
    ensures
        !(state is Capturing) ==> r.0 == state && r.1 == Err::<(), SCStreamError>(
            SCStreamError::InvalidState(state),
        ),
        state is Capturing && completion is Success ==> r.0 is Stopped && r.1 is Ok,
        state is Capturing ==> (completion matches Completion::Failure(d) ==> r.0 is Failed && r.1
            == Err::<(), SCStreamError>(SCStreamError::Native(d))),
{
    match state {
        StreamState::Capturing => match completion {
            Completion::Success => (StreamState::Stopped, Ok(())),
            Completion::Failure(d) => (StreamState::Failed, Err(SCStreamError::Native(d))),
        },
        _ => (state, Err(SCStreamError::InvalidState(state))),
    }
}

/// The central entity: one native stream handle owning a content filter, a
/// stream configuration and the output registrations, driven through the
/// lifecycle `Created -> Capturing -> Stopped` with `Failed` reachable on a
/// native-reported error.
pub struct UnsafeSCStream {
    pub handle: usize,
    pub state: StreamState,
    pub filter: UnsafeContentFilter,
    pub config: UnsafeStreamConfigurationRef,
    pub outputs: Vec<OutputRegistration>,
    pub next_queue: usize,
}

impl UnsafeSCStream {
    /// Registrations for one sample type always share one delivery queue,
    /// drawn from a bounded pool: one queue per sample type, each below the
    /// pool's high-water mark.
    pub open spec fn wf(self) -> bool {
        &&& forall|i: int, j: int|
            0 <= i < self.outputs@.len() && 0 <= j < self.outputs@.len()
                && self.outputs@[i].output_type == self.outputs@[j].output_type
                ==> self.outputs@[i].queue == self.outputs@[j].queue
        &&& forall|i: int|
            0 <= i < self.outputs@.len() ==> self.outputs@[i].queue < self.next_queue
    }

    /// Some output destination is registered for the given sample type.
    pub open spec fn has_output(self, t: u8) -> bool {
        exists|i: int| 0 <= i < self.outputs@.len() && self.outputs@[i].output_type == t
    }

    /// Binds a filter and a configuration to one fresh native stream
    /// handle; the same initialization call registers the error delegate,
    /// which the native runtime invokes on its own threads from then on.
    /// The new stream owns its filter and configuration exclusively.
    pub fn init<E: UnsafeSCStreamError>(
        ledger: &mut RetainLedger,
        filter: UnsafeContentFilter,
        config: UnsafeStreamConfigurationRef,
        error_handler: E,
    ) -> (s: UnsafeSCStream)
        requires
            old(ledger)@.len() < usize::MAX,
        ensures
            s.handle == old(ledger)@.len(),
            final(ledger)@ == old(ledger)@.push(1u64),
            s.state is Created,
            s.filter == filter,
            s.config == config,
            s.outputs@.len() == 0,
            s.next_queue == 0,
            s.wf(),
    {
        let h: usize = ledger.allocate();
        UnsafeSCStream {
            handle: h,
            state: StreamState::Created,
            filter,
            config,
            outputs: Vec::new(),
            next_queue: 0,
        }
    }

    /// Issues a start request: the native start call carries a completion
    /// callback whose single result is awaited over the bounded rendezvous,
    /// and `outcome` is what that wait produced. Only the lifecycle state
    /// changes, exactly as [`start_transition`] decides.
    pub fn start_capture(&mut self, outcome: CaptureOutcome) -> (r: Result<(), SCStreamError>)
        ensures
            *final(self) == (UnsafeSCStream { state: final(self).state, ..*old(self) }),
            !(old(self).state is Created || old(self).state is Stopped) ==> final(self).state
                == old(self).state && r == Err::<(), SCStreamError>(
                SCStreamError::InvalidState(old(self).state),
            ),
            (old(self).state is Created || old(self).state is Stopped) && outcome is TimedOut
                ==> final(self).state == old(self).state && r == Err::<(), SCStreamError>(
                SCStreamError::StartTimedOut,
            ),
            (old(self).state is Created || old(self).state is Stopped) ==> (outcome matches
                CaptureOutcome::Completed(Completion::Success) ==> final(self).state is Capturing
                && r is Ok),
            (old(self).state is Created || old(self).state is Stopped) ==> (outcome matches
                CaptureOutcome::Completed(Completion::Failure(d)) ==> final(self).state is Failed
                && r == Err::<(), SCStreamError>(SCStreamError::Native(d))),
    {
        let pre: StreamState = self.state;
        if matches!(pre, StreamState::Created | StreamState::Stopped) {
            // The phase occupied while the native request is outstanding
            // and the bounded wait runs.
            self.state = StreamState::Starting;
        }
        let (next, r) = start_transition(pre, outcome);
        self.state = next;
        r
    }

    /// Issues a stop request: the native stop call carries a completion
    /// callback awaited without a bound, and `completion` is the result it
    /// delivered. Only the lifecycle state changes, exactly as
    /// [`stop_transition`] decides.
    pub fn stop_capture(&mut self, completion: Completion) -> (r: Result<(), SCStreamError>)
        ensures
            *final(self) == (UnsafeSCStream { state: final(self).state, ..*old(self) }),
            !(old(self).state is Capturing) ==> final(self).state == old(self).state && r
                == Err::<(), SCStreamError>(SCStreamError::InvalidState(old(self).state)),
            old(self).state is Capturing && completion is Success ==> final(self).state is Stopped
                && r is Ok,
            old(self).state is Capturing ==> (completion matches Completion::Failure(d)
                ==> final(self).state is Failed && r == Err::<(), SCStreamError>(
                SCStreamError::Native(d),
            )),
    {
        let pre: StreamState = self.state;
        if matches!(pre, StreamState::Capturing) {
            // The phase occupied while the native request is outstanding
            // and the unbounded wait runs.
            self.state = StreamState::Stopping;
        }
        let (next, r) = stop_transition(pre, completion);
        self.state = next;
        r
    }

    /// The delivery queue already serving a sample type, if any.
    pub fn queue_for_type(&self, output_type: u8) -> (r: Option<usize>)
        ensures
            r is Some <==> self.has_output(output_type),
            r matches Some(q) ==> exists|i: int|
                0 <= i < self.outputs@.len() && self.outputs@[i].output_type == output_type
                    && self.outputs@[i].queue == q,
    {
        let mut i: usize = 0;
        while i < self.outputs.len()
            invariant
                i <= self.outputs@.len(),
                forall|j: int| 0 <= j < i ==> self.outputs@[j].output_type != output_type,
            decreases self.outputs@.len() - i,
        {
            if self.outputs[i].output_type == output_type {
                return Some(self.outputs[i].queue);
            }
            i += 1;
        }
        None
    }

    /// Registers an output destination for one sample type.
    ///
    /// The delivery queue comes from a pool keyed by sample type: the first
    /// registration for a type draws a fresh queue, later ones reuse that
    /// type's queue, so repeated registration never grows the pool beyond
    /// one queue per type. The native registration call's error
    /// out-parameter is `native_error`; it is propagated — on a native
    /// error nothing is registered and the caller learns the description.
    pub fn add_stream_output(&mut self, output_type: u8, native_error: Option<String>) -> (r:
        Result<usize, SCStreamError>)
        requires
            old(self).wf(),
            old(self).next_queue < usize::MAX,
        ensures
            final(self).wf(),
            *final(self) == (UnsafeSCStream {
                outputs: final(self).outputs,
                next_queue: final(self).next_queue,
                ..*old(self)
            }),
            native_error matches Some(d) ==> r == Err::<usize, SCStreamError>(
                SCStreamError::Native(d),
            ) && *final(self) == *old(self),
            native_error is None ==> (r matches Ok(q) && final(self).outputs@ == old(
                self,
            ).outputs@.push(OutputRegistration { output_type, queue: q }) && (old(self).has_output(
                output_type,
            ) ==> final(self).next_queue == old(self).next_queue) && (!old(self).has_output(
                output_type,
            ) ==> q == old(self).next_queue && final(self).next_queue == old(self).next_queue
                + 1)),
    {
        match native_error {
            Option::Some(d) => Err(SCStreamError::Native(d)),
            Option::None => {
                let q: usize = match self.queue_for_type(output_type) {
                    Option::Some(q) => q,
                    Option::None => {
                        let fresh: usize = self.next_queue;
                        self.next_queue = self.next_queue + 1;
                        fresh
                    },
                };
                self.outputs.push(OutputRegistration { output_type, queue: q });
                Ok(q)
            },
        }
    }

    /// Models the stream wrapper's drop glue: whatever lifecycle state the
    /// stream is in, the stream handle and the filter and configuration it
    /// owns are each released exactly once.
    pub fn destroy(self, ledger: &mut RetainLedger)
        requires
            old(ledger).live(self.handle as int),
            old(ledger).live(self.filter.handle as int),
            old(ledger).live(self.config.handle as int),
            self.handle != self.filter.handle,
            self.handle != self.config.handle,
            self.filter.handle != self.config.handle,
        ensures
            final(ledger)@ == old(ledger)@.update(
                self.handle as int,
                (old(ledger)@[self.handle as int] - 1) as u64,
            ).update(
                self.filter.handle as int,
                (old(ledger)@[self.filter.handle as int] - 1) as u64,
            ).update(
                self.config.handle as int,
                (old(ledger)@[self.config.handle as int] - 1) as u64,
            ),
    {
        ledger.release(self.handle);
        self.filter.destroy(ledger);
        self.config.destroy(ledger);
    }
}

} // verus!
