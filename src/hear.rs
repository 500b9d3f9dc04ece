use vstd::prelude::*;

use crate::clock::{now_utc, Timestamp};
use crate::error::Error;

verus! {

/// The recording lifecycle of a capture session.
#[derive(Debug, Clone, Copy, PartialEq, Eq, Structural)]
pub enum State {
    Recording { started_at: Timestamp },
    Stopped,
}

/// What a stop returns from a given state: the start instant of the session
/// being recorded, or `AlreadyStopped` when nothing is being recorded.
pub open spec fn stop_outcome(state: State) -> Result<Timestamp, Error> {
    match state {
        State::Recording { started_at } => Ok(started_at),
        State::Stopped => Err(Error::AlreadyStopped),
    }
}

/// The start instant of the session being recorded, if any.
pub open spec fn started_at_of(state: State) -> Option<Timestamp> {
    match state {
        State::Recording { started_at } => Some(started_at),
        State::Stopped => None,
    }
}

/// Mono audio samples at 16 kHz, in the order they were captured.
///
/// Each sample is held as the bit pattern of a 32-bit IEEE-754 float; nothing
/// here reads a sample's value. The buffer only grows: frames are appended to
/// it and it is never truncated.
pub struct AudioBuffer {
    samples: Vec<u32>,
}

impl View for AudioBuffer {
    type V = Seq<u32>;

    closed spec fn view(&self) -> Seq<u32> {
        self.samples@
    }
}

impl AudioBuffer {
    pub fn new() -> (r: AudioBuffer)
        ensures
            r@ == Seq::<u32>::empty(),
    {
        AudioBuffer { samples: Vec::new() }
    }

    /// Appends one frame delivered by the input stream.
    pub fn append(&mut self, frame: &[u32])
        ensures
            final(self)@ == old(self)@ + frame@,
    {
        self.samples.extend_from_slice(frame);
        assert(self@ =~= old(self)@ + frame@);
    }

    pub fn len(&self) -> (r: usize)
        ensures
            r == self@.len(),
    {
        self.samples.len()
    }

    /// A read-only view of every sample captured so far.
    pub fn as_slice(&self) -> (r: &[u32])
        ensures
            r@ == self@,
    {
        self.samples.as_slice()
    }
}

/// The capture side of a dictation session: its recording state and the
/// buffer that the input stream fills.
///
/// The stream itself is driven by the caller: it plays the stream before
/// `start`, pauses it before `stop`, and hands every delivered frame to
/// `write_input_data`.
pub struct Hearer {
    state: State,
    buffer: AudioBuffer,
}

impl Hearer {
    pub closed spec fn state(&self) -> State {
        self.state
    }

    /// Every sample captured since the hearer was made.
    pub closed spec fn samples(&self) -> Seq<u32> {
        self.buffer@
    }

    pub fn new() -> (r: Hearer)
        ensures
            r.state() == State::Stopped,
            r.samples() == Seq::<u32>::empty(),
    {
        Hearer { state: State::Stopped, buffer: AudioBuffer::new() }
    }

    /// Begins a session stamped with the current time. The buffer is kept.
    pub fn start(&mut self)
        ensures
            final(self).state() is Recording,
            final(self).state()->started_at.wf(),
            final(self).samples() == old(self).samples(),
    {
        let now = now_utc();
        self.start_at(now);
    }

    /// Begins a session stamped with `now`, replacing any earlier stamp. The
    /// buffer is kept.
    pub fn start_at(&mut self, now: Timestamp)
        requires
            now.wf(),
        ensures
            final(self).state() == (State::Recording { started_at: now }),
            final(self).samples() == old(self).samples(),
    {
        self.state = State::Recording { started_at: now };
    }

    /// Ends the session: returns its start instant and goes back to the
    /// stopped state, or returns `AlreadyStopped` when nothing is being
    /// recorded. The buffer is kept.
    pub fn stop_without_callback(&mut self) -> (r: Result<Timestamp, Error>)
        ensures
            r == stop_outcome(old(self).state()),
            final(self).state() == State::Stopped,
            final(self).samples() == old(self).samples(),
    {
        match self.state {
            State::Recording { started_at } => {
                self.state = State::Stopped;
                Ok(started_at)
            },
            State::Stopped => Err(Error::AlreadyStopped),
        }
    }

    /// Ends the session and hands every sample captured so far, with the
    /// session's start instant, to `callback`, returning what it returns.
    /// When the callback succeeds the hearer goes back to the stopped state;
    /// when it fails the session is still being recorded, so the stop can be
    /// tried again. When nothing is being recorded the callback is not called
    /// and `AlreadyStopped` comes back. The buffer is kept in every case.
    pub fn stop<F, O>(&mut self, callback: F) -> (r: Result<O, Error>)
        where
            F: Fn(&[u32], Timestamp) -> Result<O, Error>,
        requires
            forall|s: &[u32], t: Timestamp| callback.requires((s, t)),
        ensures
            final(self).samples() == old(self).samples(),
            match stop_outcome(old(self).state()) {
                Ok(t) => {
                    &&& exists|s: &[u32]| s@ == old(self).samples() && callback.ensures((s, t), r)
                    &&& r is Ok ==> final(self).state() == State::Stopped
                    &&& r is Err ==> final(self).state() == old(self).state()
                },
                Err(e) => r == Err::<O, Error>(e) && *final(self) == *old(self),
            },
    {
        let timestamp = match self.state {
            State::Recording { started_at } => started_at,
            State::Stopped => return Err(Error::AlreadyStopped),
        };
        let r = callback(self.buffer.as_slice(), timestamp);
        if r.is_ok() {
            self.state = State::Stopped;
        }
        r
    }

    /// Appends one frame delivered by the input stream.
    pub fn write_input_data(&mut self, input: &[u32])
        ensures
            final(self).samples() == old(self).samples() + input@,
            final(self).state() == old(self).state(),
    {
        self.buffer.append(input);
    }

    /// The start instant of the session being recorded, if any.
    pub fn started_at(&self) -> (r: Option<Timestamp>)
        ensures
            r == started_at_of(self.state()),
    {
        match self.state {
            State::Recording { started_at } => Some(started_at),
            State::Stopped => None,
        }
    }

    /// A read-only view of every sample captured so far.
    pub fn snapshot(&self) -> (r: &[u32])
        ensures
            r@ == self.samples(),
    {
        self.buffer.as_slice()
    }
}

/// A stop that follows a start stamped `now` succeeds and returns `now`; the
/// stop leaves the stopped state, from which the next stop, with no start in
/// between, fails with `AlreadyStopped`.
pub proof fn lemma_start_stop_stop(now: Timestamp)
    ensures
        stop_outcome(State::Recording { started_at: now }) == Ok::<Timestamp, Error>(now),
        stop_outcome(State::Stopped) == Err::<Timestamp, Error>(Error::AlreadyStopped),
        started_at_of(State::Recording { started_at: now }) == Some(now),
{
}

} // verus!
