use vstd::prelude::*;

verus! {

/// Failure conditions reported by the staking and reward logic.
///
/// All of these are business-rule or precondition violations, never transient
/// faults: the caller decides whether to retry after conditions change. No
/// operation leaves a record partially mutated when it reports one of these.
#[derive(Clone, Copy, Debug, PartialEq, Eq, Structural)]
pub enum ErrorCode {
    /// An addition or multiplication on amounts or durations exceeded the
    /// integer width.
    ArithmeticOverflow,
    /// A subtraction on amounts or durations went below zero.
    ArithmeticUnderflow,
    /// An unstake was attempted before the minimum staking period elapsed.
    MinStakingNotPassed,
    /// A withdrawal was attempted before the cooldown period elapsed.
    CooldownNotPassed,
    /// A schedule integration was asked for an interval that ends before it
    /// starts.
    InvalidInterval,
}

} // verus!
