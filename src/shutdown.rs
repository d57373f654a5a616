//! Teardown of the drain loop: the one-shot join token and how the way the
//! loop ended is reported to the caller of shutdown.
use vstd::prelude::*;
use crate::meter::MeterError;

verus! {

/// Holds the drain loop's join handle until shutdown takes it, at most once.
pub struct JoinToken<T> {
    slot: Option<T>,
}

impl<T> View for JoinToken<T> {
    type V = Option<T>;

    /// The handle still held, or `None` once it has been taken.
    closed spec fn view(&self) -> Option<T> {
        self.slot
    }
}

impl<T> JoinToken<T> {
    /// A token that holds `handle`.
    pub fn new(handle: T) -> (r: JoinToken<T>)
        ensures
            r@ == Some(handle),
    {
        JoinToken { slot: Some(handle) }
    }

    /// Whether the handle has been taken already.
    pub fn is_spent(&self) -> (r: bool)
        ensures
            r == (self@ is None),
    {
        self.slot.is_none()
    }

    /// Takes the handle out; a second call finds nothing, which the caller
    /// treats as the contract violation that a second shutdown is.
    pub fn take(&mut self) -> (r: Option<T>)
        ensures
            r == old(self)@,
            final(self)@ is None,
    {
        self.slot.take()
    }
}

/// What shutdown reports, given how the drain loop ended: `None` when it
/// panicked, otherwise the result it returned. Only a loop that returned
/// `Ok` counts as a clean stop; every other end is a failed join.
pub fn join_outcome(joined: Option<Result<(), MeterError>>) -> (r: Result<(), MeterError>)
    ensures
        joined matches Some(Ok(_)) ==> r is Ok,
        !(joined matches Some(Ok(_))) ==> r == Err::<(), MeterError>(MeterError::WorkerJoinFailed),
{
    match joined {
        Some(Ok(())) => Ok(()),
        _ => Err(MeterError::WorkerJoinFailed),
    }
}

} // verus!
