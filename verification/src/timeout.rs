use vstd::prelude::*;

verus! {

use crate::operation::Operation;
use crate::operation::timer;
use crate::race::RaceResult;
use crate::race::race;

/// The result of racing an operation against a deadline. Exactly one
/// variant is produced per invocation: a value and an expiry are never
/// reported together, and one of the two is always reported.
#[derive(Debug, PartialEq, Eq)]
pub enum Outcome<T> {
    /// The operation produced this value before the deadline elapsed.
    Completed(T),
    /// The deadline elapsed first; carries the deadline, in scheduling
    /// steps, for diagnostic reporting.
    Expired(u64),
}

/// What `with_timeout` reports for a given deadline and operation: the
/// operation's value whenever the operation is ready within the deadline
/// (ties included), and an expiry carrying the deadline otherwise.
pub open spec fn timeout_spec<T>(deadline: u64, operation: Operation<T>) -> Outcome<T> {
    if operation.ready_by(deadline) {
        Outcome::Completed(operation.output())
    } else {
        Outcome::Expired(deadline)
    }
}

/// The decision step of a timeout: turn the report of a race between the
/// operation (left) and the deadline timer (right) into an outcome. A
/// runtime that performs the race itself hands the report back here, so the
/// same decision governs the model and the live loop.
pub fn conclude<T>(deadline: u64, winner: RaceResult<T, ()>) -> (outcome: Outcome<T>)
    ensures
        winner matches RaceResult::Left(value) ==> outcome == Outcome::Completed(value),
        winner is Right ==> outcome == Outcome::<T>::Expired(deadline),
{
    match winner {
        RaceResult::Left(value) => Outcome::Completed(value),
        RaceResult::Right(()) => Outcome::Expired(deadline),
    }
}

/// Race `operation` against a timer that becomes ready after `deadline`
/// scheduling steps, and report whichever side finishes first. The
/// operation is polled before the timer in every step, so it wins ties,
/// including the tie at a deadline of zero against an already-ready
/// operation. The losing side is abandoned, not cancelled: it is simply no
/// longer polled, so an operation must be safe to drop mid-execution.
pub fn with_timeout<T>(deadline: u64, operation: Operation<T>) -> (outcome: Outcome<T>)
    ensures
        outcome == timeout_spec(deadline, operation),
        operation.ready_by(deadline) ==> outcome == Outcome::Completed(operation.output()),
        !operation.ready_by(deadline) ==> outcome == Outcome::<T>::Expired(deadline),
{
    let deadline_timer = timer(deadline);
    let winner = race(operation, deadline_timer);
    conclude(deadline, winner)
}

} // verus!

