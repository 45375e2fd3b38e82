use race_timeout::operation::Operation;
use race_timeout::operation::timer;
use race_timeout::race::RaceResult;
use race_timeout::race::race;
use race_timeout::timeout::Outcome;
use race_timeout::timeout::conclude;
use race_timeout::timeout::with_timeout;

#[test]
fn slow_operation_expires() {
    // Deadline of 200 steps against an operation that suspends for 500.
    let outcome = with_timeout(200, Operation::After { delay: 500, value: "done" });
    assert_eq!(outcome, Outcome::Expired(200));
}

#[test]
fn fast_operation_completes() {
    // Deadline of 500 steps against an operation that suspends for 200.
    let outcome = with_timeout(500, Operation::After { delay: 200, value: "done" });
    assert_eq!(outcome, Outcome::Completed("done"));
}

#[test]
fn never_resolving_operation_expires() {
    let outcome = with_timeout(250, Operation::<u32>::Never);
    assert_eq!(outcome, Outcome::Expired(250));
}

#[test]
fn expiry_report_carries_exact_deadline() {
    let outcome = with_timeout(1, Operation::After { delay: 2, value: 9u8 });
    assert_eq!(outcome, Outcome::Expired(1));
    let outcome = with_timeout(999, Operation::After { delay: 1000, value: 9u8 });
    assert_eq!(outcome, Outcome::Expired(999));
    let outcome = with_timeout(u64::MAX, Operation::<u8>::Never);
    assert_eq!(outcome, Outcome::Expired(u64::MAX));
}

#[test]
fn tie_goes_to_the_operation() {
    // Operation and timer become ready in the same scheduling step.
    let outcome = with_timeout(100, Operation::After { delay: 100, value: 7u32 });
    assert_eq!(outcome, Outcome::Completed(7));
}

#[test]
fn zero_deadline_ready_operation_completes() {
    let outcome = with_timeout(0, Operation::After { delay: 0, value: 5u8 });
    assert_eq!(outcome, Outcome::Completed(5));
}

#[test]
fn zero_deadline_pending_operation_expires() {
    let outcome = with_timeout(0, Operation::After { delay: 1, value: 5u8 });
    assert_eq!(outcome, Outcome::Expired(0));
    let outcome = with_timeout(0, Operation::<u8>::Never);
    assert_eq!(outcome, Outcome::Expired(0));
}

#[test]
fn repeated_calls_report_the_same_outcome() {
    // Two structurally independent copies of an equivalent operation.
    let first = with_timeout(400, Operation::After { delay: 300, value: String::from("payload") });
    let second = with_timeout(400, Operation::After { delay: 300, value: String::from("payload") });
    assert_eq!(first, Outcome::Completed(String::from("payload")));
    assert_eq!(first, second);

    let first = with_timeout(400, Operation::<u8>::After { delay: 900, value: 3 });
    let second = with_timeout(400, Operation::<u8>::After { delay: 900, value: 3 });
    assert_eq!(first, Outcome::Expired(400));
    assert_eq!(first, second);
}

#[test]
fn race_reports_the_earlier_side() {
    assert_eq!(race(Operation::After { delay: 5, value: 'l' }, Operation::After { delay: 2, value: 'r' }), RaceResult::Right('r'));
    assert_eq!(race(Operation::After { delay: 2, value: 'l' }, Operation::After { delay: 5, value: 'r' }), RaceResult::Left('l'));
}

#[test]
fn race_is_left_biased_on_ties() {
    assert_eq!(race(Operation::After { delay: 2, value: 'l' }, Operation::After { delay: 2, value: 'r' }), RaceResult::Left('l'));
    assert_eq!(race(Operation::After { delay: 0, value: 'l' }, Operation::After { delay: 0, value: 'r' }), RaceResult::Left('l'));
}

#[test]
fn race_against_a_never_ready_side() {
    assert_eq!(race(Operation::<char>::Never, Operation::After { delay: 3, value: 'r' }), RaceResult::Right('r'));
    assert_eq!(race(Operation::After { delay: 3, value: 'l' }, Operation::<char>::Never), RaceResult::Left('l'));
}

#[test]
fn timer_is_a_plain_suspension() {
    assert_eq!(timer(5), Operation::After { delay: 5, value: () });
    assert_eq!(timer(0), Operation::After { delay: 0, value: () });
}

#[test]
fn conclude_maps_each_side_of_the_report() {
    assert_eq!(conclude(9, RaceResult::Left("value")), Outcome::Completed("value"));
    assert_eq!(conclude(9, RaceResult::<&str, ()>::Right(())), Outcome::Expired(9));
}
