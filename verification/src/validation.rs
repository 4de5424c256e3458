//! The single-field checks that campaign parameters must pass.

use vstd::prelude::*;
use crate::error::ContractError;

verus! {

/// The smallest funding goal a campaign may have.
pub const MIN_GOAL: i128 = 1;

/// The smallest minimum contribution a campaign may have.
pub const MIN_CONTRIBUTION: i128 = 1;

/// How many seconds past the current ledger time the deadline must at least lie.
pub const MIN_DEADLINE_OFFSET: u64 = 60;

/// The largest platform fee, in basis points (100%).
pub const MAX_PLATFORM_FEE_BPS: u32 = 10_000;

/// Whether a deadline lies at least `MIN_DEADLINE_OFFSET` seconds after `now`.
pub open spec fn deadline_far_enough(now: u64, deadline: u64) -> bool {
    deadline >= now + MIN_DEADLINE_OFFSET
}

/// Whether a bonus goal, when present, lies strictly above the goal.
pub open spec fn bonus_goal_valid(bonus_goal: Option<i128>, goal: i128) -> bool {
    match bonus_goal {
        Some(bg) => bg > goal,
        None => true,
    }
}

/// Checks that the funding goal is at least `MIN_GOAL`.
pub fn validate_goal(goal: i128) -> (r: Result<(), ContractError>)
    ensures
        r == (if goal >= MIN_GOAL { Ok(()) } else { Err(ContractError::InvalidGoal) }),
        r is Ok <==> goal >= 1,
{
    if goal < MIN_GOAL {
        return Err(ContractError::InvalidGoal);
    }
    Ok(())
}

/// Checks that the minimum contribution is at least `MIN_CONTRIBUTION`.
pub fn validate_min_contribution(min_contribution: i128) -> (r: Result<(), ContractError>)
    ensures
        r == (if min_contribution >= MIN_CONTRIBUTION {
            Ok(())
        } else {
            Err(ContractError::InvalidMinContribution)
        }),
        r is Ok <==> min_contribution >= 1,
{
    if min_contribution < MIN_CONTRIBUTION {
        return Err(ContractError::InvalidMinContribution);
    }
    Ok(())
}

/// Checks that the deadline lies at least `MIN_DEADLINE_OFFSET` seconds after
/// `now`; a deadline at `now` or in the past is refused.
pub fn validate_deadline(now: u64, deadline: u64) -> (r: Result<(), ContractError>)
    ensures
        r == (if deadline_far_enough(now, deadline) {
            Ok(())
        } else {
            Err(ContractError::DeadlineTooSoon)
        }),
        r is Ok <==> deadline as int >= now as int + 60,
{
    if deadline < now || deadline - now < MIN_DEADLINE_OFFSET {
        return Err(ContractError::DeadlineTooSoon);
    }
    Ok(())
}

/// Checks that the platform fee does not exceed `MAX_PLATFORM_FEE_BPS`.
pub fn validate_platform_fee(fee_bps: u32) -> (r: Result<(), ContractError>)
    ensures
        r == (if fee_bps <= MAX_PLATFORM_FEE_BPS {
            Ok(())
        } else {
            Err(ContractError::InvalidPlatformFee)
        }),
        r is Ok <==> fee_bps <= 10_000,
{
    if fee_bps > MAX_PLATFORM_FEE_BPS {
        return Err(ContractError::InvalidPlatformFee);
    }
    Ok(())
}

/// Validates that `bonus_goal`, when present, is strictly greater than `goal`.
pub fn validate_bonus_goal(bonus_goal: Option<i128>, goal: i128) -> (r: Result<(), ContractError>)
    ensures
        r == (if bonus_goal_valid(bonus_goal, goal) {
            Ok(())
        } else {
            Err(ContractError::InvalidBonusGoal)
        }),
        bonus_goal is None ==> r == Ok::<(), ContractError>(()),
        bonus_goal is Some ==> (r is Ok <==> bonus_goal->0 > goal),
{
    if let Some(bg) = bonus_goal {
        if bg <= goal {
            return Err(ContractError::InvalidBonusGoal);
        }
    }
    Ok(())
}

/// The single-field rules, stated over the inputs: a goal and a minimum
/// contribution of at least 1 pass; a deadline passes exactly when it lies 60
/// seconds or more after `now`, however far ahead; a fee passes exactly up to
/// 10,000 bps; an absent bonus goal passes, and a present one exactly when it
/// exceeds the goal, with no upper bound.
pub proof fn lemma_single_field_rules(
    goal: i128,
    min_contribution: i128,
    now: u64,
    deadline: u64,
    fee_bps: u32,
    bg: i128,
)
    ensures
        goal >= MIN_GOAL <==> goal >= 1,
        min_contribution >= MIN_CONTRIBUTION <==> min_contribution >= 1,
        deadline_far_enough(now, deadline) <==> deadline as int >= now as int + 60,
        fee_bps <= MAX_PLATFORM_FEE_BPS <==> fee_bps <= 10_000,
        bonus_goal_valid(None, goal),
        bonus_goal_valid(Some(bg), goal) <==> bg > goal,
{
}

/// Moving the deadline later never turns an accepted deadline into a refused
/// one, and raising a bonus goal never turns an accepted one into a refused
/// one.
pub proof fn lemma_later_is_never_worse(now: u64, d1: u64, d2: u64, goal: i128, b1: i128, b2: i128)
    requires
        d1 <= d2,
        b1 <= b2,
    ensures
        deadline_far_enough(now, d1) ==> deadline_far_enough(now, d2),
        bonus_goal_valid(Some(b1), goal) ==> bonus_goal_valid(Some(b2), goal),
{
}

} // verus!
