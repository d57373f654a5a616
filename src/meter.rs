//! The accumulator shared between the owning thread and the drain loop,
//! and the decision the drain loop takes on each poll of the channel.
use vstd::prelude::*;

verus! {

/// The accumulator record: the running total of drained cost events and
/// the flag that asks the drain loop to stop.
pub struct Meter {
    pub close: bool,
    pub elapsed: u64,
}

/// What one non-blocking poll of the event channel gave.
#[derive(Clone, Copy, Debug, PartialEq, Eq, Structural)]
pub enum Poll {
    /// A cost event was waiting.
    Value(u64),
    /// Nothing is queued right now.
    Empty,
    /// Every producer has gone: nothing can arrive any more.
    Disconnected,
}

/// What the drain loop does after one step.
#[derive(Clone, Copy, Debug, PartialEq, Eq, Structural)]
pub enum Step {
    /// Release the lock and poll again.
    Continue,
    /// Release the lock and terminate.
    Stop,
}

/// Failures of the metering component.
#[derive(Clone, Copy, Debug, PartialEq, Eq, Structural)]
pub enum MeterError {
    /// The accumulator's lock was poisoned by a holder that panicked.
    LockPoisoned,
    /// The drain loop terminated abnormally.
    WorkerJoinFailed,
    /// A drained value would carry the total past `u64::MAX`.
    Overflow,
}

/// The accumulator once `v` has been folded into it (the total taken
/// modulo 2^64; the drain loop only does this where it fits).
pub open spec fn absorbed(m: Meter, v: u64) -> Meter {
    Meter { close: m.close, elapsed: (m.elapsed + v) as u64 }
}

/// The accumulator after a reset: the total is zero, the flag is kept.
pub open spec fn cleared(m: Meter) -> Meter {
    Meter { close: m.close, elapsed: 0 }
}

/// The accumulator once shutdown has asked the drain loop to stop.
pub open spec fn closing(m: Meter) -> Meter {
    Meter { close: true, elapsed: 0 }
}

/// One step of the drain loop on poll outcome `p`: the next accumulator
/// and what the loop does next.
pub open spec fn drain_spec(m: Meter, p: Poll) -> (Meter, Result<Step, MeterError>) {
    match p {
        Poll::Value(v) => if m.elapsed + v <= u64::MAX {
            (absorbed(m, v), Ok(Step::Continue))
        } else {
            (m, Err(MeterError::Overflow))
        },
        Poll::Empty => (m, Ok(if m.close { Step::Stop } else { Step::Continue })),
        Poll::Disconnected => (m, Ok(Step::Stop)),
    }
}

impl Meter {
    /// A fresh accumulator: nothing consumed, no close requested.
    pub fn new() -> (r: Meter)
        ensures
            r.elapsed == 0,
            !r.close,
    {
        Meter { close: false, elapsed: 0 }
    }

    /// The total consumed since creation or the last reset.
    pub fn elapsed(&self) -> (r: u64)
        ensures
            r == self.elapsed,
    {
        self.elapsed
    }

    /// Sets the total back to zero; the close flag is left as it was.
    pub fn reset(&mut self)
        ensures
            *final(self) == cleared(*old(self)),
    {
        self.elapsed = 0;
    }

    /// Asks the drain loop to stop once the channel is empty; the total
    /// has no meaning from here on and is zeroed.
    pub fn request_close(&mut self)
        ensures
            *final(self) == closing(*old(self)),
    {
        self.close = true;
        self.elapsed = 0;
    }

    /// One step of the drain loop, taken while the lock is held: a value is
    /// added to the total; an empty channel stops the loop only once close
    /// was requested; a disconnected channel always stops it. A value that
    /// would overflow the total leaves it unchanged and is reported.
    pub fn drain_step(&mut self, p: Poll) -> (r: Result<Step, MeterError>)
        ensures
            (*final(self), r) == drain_spec(*old(self), p),
    {
        match p {
            Poll::Value(v) => {
                if v <= u64::MAX - self.elapsed {
                    self.elapsed = self.elapsed + v;
                    Ok(Step::Continue)
                } else {
                    Err(MeterError::Overflow)
                }
            },
            Poll::Empty => {
                if self.close {
                    Ok(Step::Stop)
                } else {
                    Ok(Step::Continue)
                }
            },
            Poll::Disconnected => Ok(Step::Stop),
        }
    }
}

} // verus!
