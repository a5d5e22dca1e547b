//! The countdown adapter.
//!
//! [`Timer`] adapts a blocking microsecond delay primitive — reached
//! through the [`DelayProvider`] port — to a countdown interface:
//! `start` stores a duration, `wait` blocks for it once, `cancel`
//! accepts the request and changes nothing (the wait is synchronous, so
//! there is never anything in flight to stop).

use crate::duration::Duration;
use vstd::prelude::*;

verus! {

/// The port through which a timer reaches its blocking delay
/// primitive.  `requests()` is the ghost log of every microsecond
/// count asked of the primitive, oldest first; `delay_us` must extend
/// that log by exactly its argument.
pub trait DelayProvider {
    /// Ghost log of the microsecond counts handed to the primitive,
    /// oldest first.
    spec fn requests(&self) -> Seq<u32>;

    /// Block the caller for `us` microseconds.
    fn delay_us(&mut self, us: u32)
        ensures
            final(self).requests() == old(self).requests().push(us),
    ;
}

/// A delay collaborator that spends no time: it only records each
/// request, so a caller can examine exactly what a timer asked for.
pub struct RecordingDelay {
    calls: Vec<u32>,
}

impl RecordingDelay {
    /// A collaborator with an empty record.
    pub fn new() -> (r: RecordingDelay)
        ensures
            r.requests() == Seq::<u32>::empty(),
    {
        RecordingDelay { calls: Vec::new() }
    }

    /// The recorded microsecond requests, oldest first.
    pub fn calls(&self) -> (r: &Vec<u32>)
        ensures
            r@ == self.requests(),
    {
        &self.calls
    }
}

impl DelayProvider for RecordingDelay {
    closed spec fn requests(&self) -> Seq<u32> {
        self.calls@
    }

    fn delay_us(&mut self, us: u32) {
        self.calls.push(us);
    }
}

/// Adapter from a blocking delay primitive to a countdown interface.
///
/// The timer owns its delay collaborator outright.  It stores the
/// duration most recently given to `start` (zero before the first
/// call); `wait` asks the collaborator to block for that duration,
/// expressed as a whole-microsecond count truncated to 32 bits.  The
/// periodic flag is a capability tag only: this adapter never rearms
/// itself, so the flag stays false.
pub struct Timer<D: DelayProvider> {
    duration: Duration,
    periodic: bool,
    delay: D,
}

/// How `start` changes a timer: the requested duration is stored over
/// whatever was there before, and nothing else moves.
pub open spec fn started<D: DelayProvider>(pre: Timer<D>, post: Timer<D>, d: Duration) -> bool {
    &&& post.duration() == d
    &&& post.periodic() == pre.periodic()
    &&& post.delay() == pre.delay()
}

/// How `wait` changes a timer: exactly one request, for the stored
/// duration truncated to whole microseconds and then to 32 bits, goes
/// to the delay collaborator; the stored duration and the periodic
/// flag survive.
pub open spec fn waited<D: DelayProvider>(pre: Timer<D>, post: Timer<D>) -> bool {
    &&& post.duration() == pre.duration()
    &&& post.periodic() == pre.periodic()
    &&& post.delay().requests() == pre.delay().requests().push(pre.duration().micros_low32())
}

impl<D: DelayProvider> Timer<D> {
    /// The duration most recently given to `start`; zero before the
    /// first call.
    pub closed spec fn duration(&self) -> Duration {
        self.duration
    }

    /// Whether the timer rearms itself after a wait.  This adapter
    /// never does.
    pub closed spec fn periodic(&self) -> bool {
        self.periodic
    }

    /// The delay collaborator the timer owns.
    pub closed spec fn delay(&self) -> D {
        self.delay
    }

    /// Every microsecond count this timer has asked of its delay
    /// collaborator, oldest first.
    pub open spec fn log(&self) -> Seq<u32> {
        self.delay().requests()
    }

    /// Take exclusive ownership of a delay collaborator.  The stored
    /// duration begins at zero and the timer is not periodic.
    pub fn new(delay: D) -> (r: Timer<D>)
        ensures
            r.duration()@ == 0,
            r.duration().wf(),
            !r.periodic(),
            r.delay() == delay,
    {
        Timer { duration: Duration::from_secs(0), periodic: false, delay }
    }

    /// Store `count` as the new duration, overwriting any previous
    /// value.  Arbitrarily large durations are accepted; a later
    /// `wait` will block for that long.
    pub fn start(&mut self, count: Duration)
        ensures
            started(*old(self), *final(self), count),
    {
        self.duration = count;
    }

    /// Block for the stored duration, expressed as a whole-microsecond
    /// count truncated to 32 bits.  Cannot fail: the error channel is
    /// uninhabited.
    pub fn wait(&mut self) -> (r: Result<(), core::convert::Infallible>)
        ensures
            waited(*old(self), *final(self)),
            r is Ok,
    {
        let us: u32 = self.duration.micros_as_u32();
        self.delay.delay_us(us);
        Ok(())
    }

    /// Report a cancellation request as accepted.  The wait is
    /// synchronous, so there is never anything in flight to stop; the
    /// timer is left exactly as it was.
    pub fn cancel(&mut self) -> (r: Result<(), &'static str>)
        ensures
            *final(self) == *old(self),
            r is Ok,
    {
        Ok(())
    }

    /// Borrow the delay collaborator, so a caller can examine it —
    /// for instance the record kept by a [`RecordingDelay`].
    pub fn delay_ref(&self) -> (r: &D)
        ensures
            *r == self.delay(),
    {
        &self.delay
    }

    /// Whether this timer rearms itself after a wait: it never does.
    pub fn is_periodic(&self) -> (r: bool)
        ensures
            r == self.periodic(),
    {
        self.periodic
    }
}

/// Law: starting twice with the same duration is the same as starting
/// once.  The second `start` is a last-write-wins overwrite with the
/// value already stored, so it changes nothing further and nothing
/// accumulates.
pub proof fn lemma_start_idempotent<D: DelayProvider>(
    t0: Timer<D>,
    t1: Timer<D>,
    t2: Timer<D>,
    d: Duration,
)
    requires
        started(t0, t1, d),
        started(t1, t2, d),
    ensures
        started(t0, t2, d),
        t2 == t1,
{
}

/// Law: after `start(d)`, a `wait` asks the delay primitive for
/// exactly `d` converted to whole microseconds, truncated toward zero
/// and then to 32 bits — one request, appended to whatever the timer
/// had requested before.
pub proof fn lemma_start_then_wait<D: DelayProvider>(
    t0: Timer<D>,
    t1: Timer<D>,
    t2: Timer<D>,
    d: Duration,
)
    requires
        started(t0, t1, d),
        waited(t1, t2),
    ensures
        t2.log() == t0.log().push(d.micros_low32()),
        t2.duration() == d,
{
}

/// Law: a cancellation is a no-op.  `cancel` leaves the timer exactly
/// as it was, so a wait after the cancellation behaves exactly as a
/// wait before it would have: it still blocks for the previously
/// configured duration.
pub proof fn lemma_cancel_preserves_wait<D: DelayProvider>(
    t0: Timer<D>,
    t1: Timer<D>,
    t2: Timer<D>,
)
    requires
        t1 == t0,
        waited(t1, t2),
    ensures
        waited(t0, t2),
{
}

} // verus!
