//! The capture lifecycle and the per-block path into the sample buffer.
use crate::error::CaptureError;
use crate::resample::{resampled, resample_block};
use crate::ring::{pushes, SampleRing, MAX_RING_CAPACITY};
use vstd::prelude::*;

verus! {

/// Rate of the audio kept in the sample buffer.
pub const PIPELINE_RATE: u32 = 16000;

/// Length of the sliding window of recent audio, in seconds.
pub const WINDOW_SECONDS: u32 = 60;

/// Where the capture lifecycle stands.
#[derive(Clone, Copy, Debug, PartialEq, Eq, Structural)]
pub enum CaptureState {
    /// No stream exists.
    Idle,
    /// A stream exists and delivers blocks.
    Capturing,
    /// A stream exists and delivers nothing.
    Paused,
}

/// Owns the one live hardware stream (of type `S`) and the control flags.
/// At most one stream exists at a time.
pub struct CaptureController<S> {
    stream: Option<S>,
    running: bool,
    key_held: bool,
}

impl<S> CaptureController<S> {
    /// The stream the controller owns, if any.
    pub closed spec fn spec_stream(&self) -> Option<S> {
        self.stream
    }

    pub closed spec fn spec_state(&self) -> CaptureState {
        if self.stream is None {
            CaptureState::Idle
        } else if self.running {
            CaptureState::Capturing
        } else {
            CaptureState::Paused
        }
    }

    pub closed spec fn spec_key_held(&self) -> bool {
        self.key_held
    }

    /// A controller is idle exactly when it holds no stream.
    pub proof fn lemma_idle_has_no_stream(&self)
        ensures
            (self.spec_state() == CaptureState::Idle) == (self.spec_stream() is None),
    {
    }

    /// `after` is `before` with `stream` installed and running; the stream
    /// that was installed before, if any, is `handed_back`.
    pub open spec fn started(before: Self, after: Self, stream: S, handed_back: Option<S>) -> bool {
        &&& handed_back == before.spec_stream()
        &&& after.spec_stream() == Some(stream)
        &&& after.spec_state() == CaptureState::Capturing
        &&& after.spec_key_held() == before.spec_key_held()
    }

    /// `after` and `r` are what pausing `before` gives: without a stream a
    /// `NoActiveStream` failure and no change, with one the same stream
    /// paused.
    pub open spec fn paused(before: Self, after: Self, r: Result<(), CaptureError>) -> bool {
        &&& after.spec_stream() == before.spec_stream()
        &&& after.spec_key_held() == before.spec_key_held()
        &&& before.spec_state() == CaptureState::Idle ==> r == Err::<(), CaptureError>(
            CaptureError::NoActiveStream,
        ) && after.spec_state() == CaptureState::Idle
        &&& before.spec_state() != CaptureState::Idle ==> r == Ok::<(), CaptureError>(())
            && after.spec_state() == CaptureState::Paused
    }

    /// No stream, key not held.
    pub fn new() -> (r: Self)
        ensures
            r.spec_stream() is None,
            r.spec_state() == CaptureState::Idle,
            !r.spec_key_held(),
    {
        CaptureController { stream: None, running: false, key_held: false }
    }

    pub fn state(&self) -> (r: CaptureState)
        ensures
            r == self.spec_state(),
    {
        match &self.stream {
            None => CaptureState::Idle,
            Some(_) => if self.running {
                CaptureState::Capturing
            } else {
                CaptureState::Paused
            },
        }
    }

    /// True while a stream is started and not paused.
    pub fn is_capturing(&self) -> (r: bool)
        ensures
            r == (self.spec_state() == CaptureState::Capturing),
    {
        self.stream.is_some() && self.running
    }

    pub fn is_key_held(&self) -> (r: bool)
        ensures
            r == self.spec_key_held(),
    {
        self.key_held
    }

    /// Records whether the triggering key is held; nothing else changes.
    pub fn set_key_held(&mut self, value: bool)
        ensures
            final(self).spec_key_held() == value,
            final(self).spec_stream() == old(self).spec_stream(),
            final(self).spec_state() == old(self).spec_state(),
    {
        self.key_held = value;
    }

    /// The stream the controller owns, if any.
    pub fn active_stream(&self) -> (r: Option<&S>)
        ensures
            r is Some <==> self.spec_stream() is Some,
            r is Some ==> *r->0 == self.spec_stream()->0,
    {
        self.stream.as_ref()
    }

    /// Takes the stream out, leaving the controller idle, and hands it back
    /// to be torn down: before a new stream is built, or once the audio
    /// subsystem has reported the stream dead.
    pub fn teardown(&mut self) -> (r: Option<S>)
        ensures
            r == old(self).spec_stream(),
            final(self).spec_stream() is None,
            final(self).spec_state() == CaptureState::Idle,
            final(self).spec_key_held() == old(self).spec_key_held(),
    {
        self.running = false;
        self.stream.take()
    }

    /// Installs a started stream and enters `Capturing`. A stream that was
    /// still installed is replaced and handed back to be torn down, so that
    /// exactly one stream is live afterwards.
    pub fn start(&mut self, stream: S) -> (r: Option<S>)
        ensures
            Self::started(*old(self), *final(self), stream, r),
    {
        let previous = self.stream.take();
        self.stream = Some(stream);
        self.running = true;
        previous
    }

    /// Stops the delivery of blocks. Without a stream it fails with
    /// `NoActiveStream` and changes nothing; with one, the stream is kept and
    /// the controller is `Paused`.
    pub fn pause(&mut self) -> (r: Result<(), CaptureError>)
        ensures
            Self::paused(*old(self), *final(self), r),
    {
        if self.stream.is_none() {
            return Err(CaptureError::NoActiveStream);
        }
        self.running = false;
        Ok(())
    }
}

/// Pausing an idle controller fails with `NoActiveStream` and leaves it
/// idle; starting twice without a pause in between leaves exactly the second
/// stream installed and capturing, and the first one is handed back to be
/// torn down.
pub proof fn lemma_lifecycle<S>(
    idle: CaptureController<S>,
    after_pause: CaptureController<S>,
    paused_result: Result<(), CaptureError>,
    c0: CaptureController<S>,
    c1: CaptureController<S>,
    c2: CaptureController<S>,
    first: S,
    second: S,
    r1: Option<S>,
    r2: Option<S>,
)
    requires
        idle.spec_state() == CaptureState::Idle,
        CaptureController::paused(idle, after_pause, paused_result),
        CaptureController::started(c0, c1, first, r1),
        CaptureController::started(c1, c2, second, r2),
    ensures
        paused_result == Err::<(), CaptureError>(CaptureError::NoActiveStream),
        after_pause.spec_state() == CaptureState::Idle,
        after_pause.spec_stream() is None,
        r2 == Some(first),
        c2.spec_stream() == Some(second),
        c2.spec_state() == CaptureState::Capturing,
{
    idle.lemma_idle_has_no_stream();
}

/// `n` is a power of two.
pub open spec fn is_power_of_two(n: nat) -> bool
    decreases n,
{
    if n <= 1 {
        n == 1
    } else {
        n % 2 == 0 && is_power_of_two(n / 2)
    }
}

/// The most samples a sliding window may be asked to hold.
pub const MAX_WINDOW_SAMPLES: u64 = 1073741824;

/// The capacity of a buffer that holds `seconds` of audio at `rate`: the
/// smallest power of two that is at least `rate * seconds`.
pub fn window_capacity(rate: u32, seconds: u32) -> (r: usize)
    requires
        0 < rate as int * seconds as int <= MAX_WINDOW_SAMPLES,
    ensures
        is_power_of_two(r as nat),
        r >= rate as int * seconds as int,
        r == 1 || r / 2 < rate as int * seconds as int,
        r <= MAX_RING_CAPACITY,
{
    let n = (rate as u64 * seconds as u64) as usize;
    let mut c: usize = 1;
    while c < n
        invariant
            is_power_of_two(c as nat),
            c == 1 || c / 2 < n,
            1 <= c,
            n <= MAX_WINDOW_SAMPLES,
        decreases 2 * n - c,
    {
        proof {
            lemma_double_power(c as nat);
        }
        c = c * 2;
    }
    c
}

proof fn lemma_double_power(c: nat)
    requires
        is_power_of_two(c),
    ensures
        is_power_of_two(2 * c),
{
    assert((2 * c) / 2 == c);
}

/// The sample buffer that holds the sliding window of recent audio.
pub fn new_window_buffer() -> (r: SampleRing)
    ensures
        r.wf(),
        r@ == Seq::<i32>::empty(),
        is_power_of_two(r.spec_capacity()),
        r.spec_capacity() >= PIPELINE_RATE as int * WINDOW_SECONDS as int,
{
    SampleRing::new(window_capacity(PIPELINE_RATE, WINDOW_SECONDS))
}

/// The work of one hardware callback: the decoded block is resampled from
/// the device's rate to the pipeline's rate (see `resample_block`; an empty
/// result pushes nothing) and every resulting sample is pushed, in order.
pub fn write_input_data(
    ring: &mut SampleRing,
    decoded: Vec<i32>,
    source_rate: u32,
    target_rate: u32,
    channels: u16,
    converted: Option<Vec<i32>>,
)
    requires
        old(ring).wf(),
    ensures
        final(ring).wf(),
        final(ring).spec_capacity() == old(ring).spec_capacity(),
        final(ring)@ == pushes(
            old(ring)@,
            old(ring).spec_capacity(),
            resampled(decoded@, source_rate, target_rate, channels, converted),
        ),
{
    let block = resample_block(decoded, source_rate, target_rate, channels, converted);
    ring.push_all(&block);
}

} // verus!
