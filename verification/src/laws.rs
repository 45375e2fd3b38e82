use vstd::prelude::*;

verus! {

use crate::operation::Operation;
use crate::timeout::Outcome;
use crate::timeout::timeout_spec;

/// Completion precedence: an operation that becomes ready strictly before
/// the deadline completes, with exactly the value it would have yielded had
/// it been awaited directly.
pub proof fn lemma_completion_precedence<T>(deadline: u64, operation: Operation<T>)
    requires
        operation.resolves(),
        operation.delay() < deadline,
    ensures
        timeout_spec(deadline, operation) == Outcome::Completed(operation.output()),
{
}

/// Expiry precedence: an operation that never becomes ready, or becomes
/// ready strictly after the deadline, expires, and the report carries the
/// deadline exactly.
pub proof fn lemma_expiry_precedence<T>(deadline: u64, operation: Operation<T>)
    requires
        !operation.resolves() || operation.delay() > deadline,
    ensures
        timeout_spec(deadline, operation) == Outcome::<T>::Expired(deadline),
{
}

/// Left-bias tie-break: when the operation and the timer become ready in
/// the same scheduling step, the operation wins, and the result is a
/// completion, not an expiry.
pub proof fn lemma_tie_goes_to_operation<T>(deadline: u64, operation: Operation<T>)
    requires
        operation.resolves(),
        operation.delay() == deadline,
    ensures
        timeout_spec(deadline, operation) == Outcome::Completed(operation.output()),
{
}

/// Zero deadline: an already-ready operation still completes under the
/// left-bias rule; one that needs at least one suspension step expires at
/// once, with a report carrying the zero deadline.
pub proof fn lemma_zero_deadline<T>(operation: Operation<T>)
    ensures
        operation.ready_by(0) ==> timeout_spec(0, operation) == Outcome::Completed(
            operation.output(),
        ),
        !operation.ready_by(0) ==> timeout_spec(0, operation) == Outcome::<T>::Expired(0),
{
}

/// Repeatable reporting: the outcome is a function of the deadline and the
/// operation alone, so two invocations on equal, independently constructed
/// inputs report the same outcome — no state leaks across calls.
pub proof fn lemma_repeatable<T>(deadline: u64, first: Operation<T>, second: Operation<T>)
    requires
        first == second,
    ensures
        timeout_spec(deadline, first) == timeout_spec(deadline, second),
{
}

/// Exactly one outcome: a timeout completes precisely when the operation is
/// ready within the deadline, and expires precisely otherwise; it never
/// reports both and never reports neither.
pub proof fn lemma_exactly_one_outcome<T>(deadline: u64, operation: Operation<T>)
    ensures
        timeout_spec(deadline, operation) is Completed <==> operation.ready_by(deadline),
        timeout_spec(deadline, operation) is Expired <==> !operation.ready_by(deadline),
{
}

} // verus!
