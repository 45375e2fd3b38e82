use vstd::prelude::*;

verus! {

use vstd::pervasive::unreached;

use crate::operation::Operation;

/// The report of a race between two computations, tagged by the side that
/// finished first. Exactly one side is ever reported; the other side's
/// value is discarded, never observed.
#[derive(Debug, PartialEq, Eq)]
pub enum RaceResult<A, B> {
    /// The left computation finished first (ties included) and yielded this
    /// value.
    Left(A),
    /// The right computation finished strictly first and yielded this
    /// value.
    Right(B),
}

/// Whether the left computation wins a race against the right one: it must
/// become ready at all, and no later than the right one. Each scheduling
/// step polls the left side before the right side, so a tie goes to the
/// left side.
pub open spec fn left_wins<A, B>(left: Operation<A>, right: Operation<B>) -> bool {
    left.resolves() && (!right.resolves() || left.delay() <= right.delay())
}

/// Advance two computations concurrently, one scheduling step at a time,
/// and return whichever becomes ready first. Within each step the left side
/// is polled before the right side, so when both become ready in the same
/// step the left side wins. The loser is abandoned: after the decision it
/// is never polled again, and its value is dropped by normal scope exit.
pub fn race<A, B>(left: Operation<A>, right: Operation<B>) -> (winner: RaceResult<A, B>)
    requires
        left.resolves() || right.resolves(),
    ensures
        left_wins(left, right) ==> (winner matches RaceResult::Left(a) && a == left.output()),
        !left_wins(left, right) ==> (winner matches RaceResult::Right(b) && b == right.output()),
{
    match (left, right) {
        (
            Operation::After { delay: left_delay, value: left_value },
            Operation::After { delay: right_delay, value: right_value },
        ) => {
            let mut step: u64 = 0;
            loop
                invariant
                    left == (Operation::After { delay: left_delay, value: left_value }),
                    right == (Operation::After { delay: right_delay, value: right_value }),
                    step <= left_delay,
                    step <= right_delay,
                decreases left_delay - step,
            {
                if step == left_delay {
                    return RaceResult::Left(left_value);
                }
                if step == right_delay {
                    return RaceResult::Right(right_value);
                }
                step = step + 1;
            }
        }
        (Operation::After { delay: _, value: left_value }, Operation::Never) => {
            RaceResult::Left(left_value)
        }
        (Operation::Never, Operation::After { delay: _, value: right_value }) => {
            RaceResult::Right(right_value)
        }
        (Operation::Never, Operation::Never) => unreached(),
    }
}

} // verus!
