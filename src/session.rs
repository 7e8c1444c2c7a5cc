use vstd::prelude::*;

use crate::config::{is_supported, negotiated, SampleFormat, StreamConfig};
use crate::error::RecorderError;

verus! {

/// Whether a capture session is running.
#[derive(Clone, Copy, Debug, PartialEq, Eq, Structural)]
pub enum SessionState {
    Idle,
    Active,
}

/// A live capture session: the running input stream and the sink its callback feeds.
pub struct AudioRecorder<S, W> {
    pub stream: S,
    pub writer: W,
}

impl<S, W> AudioRecorder<S, W> {
    /// Binds a started stream to the sink it writes into.
    pub fn new(stream: S, writer: W) -> (r: Self)
        ensures
            r.stream == stream,
            r.writer == writer,
    {
        AudioRecorder { stream, writer }
    }

    /// Splits the session into its stream and its sink, so that the stream can be stopped
    /// before the sink is finalised.
    pub fn into_parts(self) -> (r: (S, W))
        ensures
            r.0 == self.stream,
            r.1 == self.writer,
    {
        (self.stream, self.writer)
    }
}

/// The state a slot holding `current` reports.
pub open spec fn state_of<R>(current: Option<R>) -> SessionState {
    if current is Some {
        SessionState::Active
    } else {
        SessionState::Idle
    }
}

/// What `start` does to the slot, given the session that was built (or the error that
/// building it gave): the slot and the result after it. A second start is rejected and
/// leaves the running session in place.
pub open spec fn after_start<R>(current: Option<R>, built: Result<R, RecorderError>) -> (
    Option<R>,
    Result<(), RecorderError>,
) {
    if current is Some {
        (current, Err(RecorderError::AlreadyRecording))
    } else {
        match built {
            Ok(r) => (Some(r), Ok(())),
            Err(e) => (current, Err(e)),
        }
    }
}

/// What `stop` does to the slot: the slot after it and the session it took out.
pub open spec fn after_stop<R>(current: Option<R>) -> (Option<R>, Result<R, RecorderError>) {
    match current {
        Some(r) => (None, Ok(r)),
        None => (None, Err(RecorderError::NotRecording)),
    }
}

/// The process-wide place of the one session that may exist at a time. A session in it
/// is fully built; nothing partial is ever stored.
pub struct RecorderSlot<R> {
    current: Option<R>,
}

impl<R> RecorderSlot<R> {
    /// The session held, if any.
    pub closed spec fn current(&self) -> Option<R> {
        self.current
    }

    /// The state the slot reports.
    pub open spec fn spec_state(&self) -> SessionState {
        state_of(self.current())
    }

    /// An empty slot.
    pub fn new() -> (r: Self)
        ensures
            r.current() is None,
            r.spec_state() == SessionState::Idle,
    {
        RecorderSlot { current: None }
    }

    /// Whether a session is running.
    pub fn state(&self) -> (r: SessionState)
        ensures
            r == self.spec_state(),
    {
        match self.current {
            Some(_) => SessionState::Active,
            None => SessionState::Idle,
        }
    }

    /// Whether a session is running.
    pub fn is_recording(&self) -> (r: bool)
        ensures
            r <==> self.current() is Some,
    {
        self.current.is_some()
    }

    /// Succeeds when no session is running, so that a new one may be built.
    pub fn check_idle(&self) -> (r: Result<(), RecorderError>)
        ensures
            r is Ok <==> self.current() is None,
            r is Err ==> r == Err::<(), RecorderError>(RecorderError::AlreadyRecording),
    {
        match self.current {
            Some(_) => Err(RecorderError::AlreadyRecording),
            None => Ok(()),
        }
    }

    /// Stores the session that was built, or passes on the error that building it gave.
    /// While a session runs, the slot is left as it is and `AlreadyRecording` comes back.
    pub fn start(&mut self, built: Result<R, RecorderError>) -> (r: Result<(), RecorderError>)
        ensures
            (final(self).current(), r) == after_start(old(self).current(), built),
    {
        if self.current.is_some() {
            return Err(RecorderError::AlreadyRecording);
        }
        match built {
            Ok(rec) => {
                self.current = Some(rec);
                Ok(())
            },
            Err(e) => Err(e),
        }
    }

    /// Takes the running session out, leaving the slot empty; with none running, fails
    /// with `NotRecording` and changes nothing.
    pub fn stop(&mut self) -> (r: Result<R, RecorderError>)
        ensures
            (final(self).current(), r) == after_stop(old(self).current()),
            old(self).current() is None ==> final(self).current() == old(self).current(),
    {
        match self.current.take() {
            Some(rec) => Ok(rec),
            None => Err(RecorderError::NotRecording),
        }
    }
}

/// Stopping with no session running fails with `NotRecording` and leaves the slot as it
/// was.
pub proof fn lemma_stop_when_idle_fails<R>(current: Option<R>)
    requires
        current is None,
    ensures
        after_stop(current) == (current, Err::<R, RecorderError>(RecorderError::NotRecording)),
{
}

/// A successful start leaves the slot `Active`; a successful stop after it takes that same
/// session out and leaves the slot `Idle`.
pub proof fn lemma_start_then_stop<R>(current: Option<R>, built: Result<R, RecorderError>)
    requires
        after_start(current, built).1 is Ok,
    ensures
        built is Ok,
        state_of(after_start(current, built).0) == SessionState::Active,
        after_stop(after_start(current, built).0).1 == Ok::<R, RecorderError>(built->Ok_0),
        state_of(after_stop(after_start(current, built).0).0) == SessionState::Idle,
{
}

/// A start whose session could not be built (an unsupported format, a device or file
/// failure) reports that error and leaves an idle slot idle.
pub proof fn lemma_failed_start_stays_idle<R>(current: Option<R>, e: RecorderError)
    requires
        current is None,
    ensures
        after_start(current, Err(e)) == (current, Err::<(), RecorderError>(e)),
        state_of(after_start(current, Err(e)).0) == SessionState::Idle,
{
}

/// A device whose default format is neither 16-bit integer nor 32-bit float makes
/// negotiation fail with `UnsupportedFormat`, and a start that reports it leaves an idle
/// slot idle.
pub proof fn lemma_unsupported_format_start<R>(
    current: Option<R>,
    channels: u16,
    sample_rate: u32,
    format: SampleFormat,
)
    requires
        current is None,
        !is_supported(format),
    ensures
        negotiated(channels, sample_rate, format) == Err::<StreamConfig, RecorderError>(
            RecorderError::UnsupportedFormat,
        ),
        after_start(current, Err::<R, RecorderError>(RecorderError::UnsupportedFormat)).1 == Err::<
            (),
            RecorderError,
        >(RecorderError::UnsupportedFormat),
        state_of(
            after_start(current, Err::<R, RecorderError>(RecorderError::UnsupportedFormat)).0,
        ) == SessionState::Idle,
{
}

/// A second start while a session runs is rejected with `AlreadyRecording`, and the
/// running session stays in place.
pub proof fn lemma_second_start_rejected<R>(current: Option<R>, built: Result<R, RecorderError>)
    requires
        current is Some,
    ensures
        after_start(current, built) == (current, Err::<(), RecorderError>(
            RecorderError::AlreadyRecording,
        )),
{
}

} // verus!
