//! Initialization errors, their numeric codes, and the frontend helpers that
//! turn a code into a message and tell whether a retry can succeed.

use vstd::prelude::*;

verus! {

/// Errors that campaign initialization can report.
#[derive(Debug, Clone, Copy, PartialEq, Eq, Structural)]
pub enum ContractError {
    /// The campaign has been initialized before.
    AlreadyInitialized,
    /// The funding goal is below the minimum.
    InvalidGoal,
    /// The minimum contribution is below the minimum.
    InvalidMinContribution,
    /// The deadline is too close to the current ledger time, or past it.
    DeadlineTooSoon,
    /// The platform fee exceeds 100%.
    InvalidPlatformFee,
    /// The bonus goal does not exceed the primary goal.
    InvalidBonusGoal,
}

/// The numeric code under which the contract reports an error.
pub open spec fn error_code(e: ContractError) -> u32 {
    match e {
        ContractError::AlreadyInitialized => 1,
        ContractError::InvalidGoal => 8,
        ContractError::InvalidMinContribution => 9,
        ContractError::DeadlineTooSoon => 10,
        ContractError::InvalidPlatformFee => 11,
        ContractError::InvalidBonusGoal => 12,
    }
}

impl ContractError {
    /// The numeric code under which the contract reports this error.
    pub fn code(&self) -> (r: u32)
        ensures
            r == error_code(*self),
    {
        match self {
            ContractError::AlreadyInitialized => 1,
            ContractError::InvalidGoal => 8,
            ContractError::InvalidMinContribution => 9,
            ContractError::DeadlineTooSoon => 10,
            ContractError::InvalidPlatformFee => 11,
            ContractError::InvalidBonusGoal => 12,
        }
    }
}

/// The message shown for an error code that is not an initialization error.
pub open spec fn unknown_error_message() -> Seq<char> {
    "Unknown initialization error"@
}

/// The human-readable message for an error code.
pub open spec fn init_error_message(code: u32) -> Seq<char> {
    if code == 1 {
        "Contract is already initialized"@
    } else if code == 8 {
        "Campaign goal must be at least 1"@
    } else if code == 9 {
        "Minimum contribution must be at least 1"@
    } else if code == 10 {
        "Deadline must be at least 60 seconds in the future"@
    } else if code == 11 {
        "Platform fee cannot exceed 100% (10,000 bps)"@
    } else if code == 12 {
        "Bonus goal must be strictly greater than the primary goal"@
    } else {
        unknown_error_message()
    }
}

/// Maps an error code to a human-readable message.
pub fn describe_init_error(code: u32) -> (r: &'static str)
    ensures
        r@ == init_error_message(code),
{
    match code {
        1 => "Contract is already initialized",
        8 => "Campaign goal must be at least 1",
        9 => "Minimum contribution must be at least 1",
        10 => "Deadline must be at least 60 seconds in the future",
        11 => "Platform fee cannot exceed 100% (10,000 bps)",
        12 => "Bonus goal must be strictly greater than the primary goal",
        _ => "Unknown initialization error",
    }
}

/// Whether an error code names a correctable input error, which a new call
/// with other parameters can get past.
pub open spec fn is_retryable_code(code: u32) -> bool {
    8 <= code <= 12
}

/// Returns `true` if the error is a correctable input error that can be
/// retried. `AlreadyInitialized` (1) is permanent; all validation errors
/// (8 to 12) are retryable.
pub fn is_init_error_retryable(code: u32) -> (r: bool)
    ensures
        r == is_retryable_code(code),
{
    8 <= code && code <= 12
}

/// `AlreadyInitialized` is permanent; every other initialization error is a
/// correctable input error.
pub proof fn lemma_retryable_iff_input_error(e: ContractError)
    ensures
        is_retryable_code(error_code(e)) <==> e != ContractError::AlreadyInitialized,
{
}

/// Every initialization error has a message of its own, never the message
/// for unknown codes, and no two of them share a message.
pub proof fn lemma_init_errors_described(e: ContractError, f: ContractError)
    ensures
        init_error_message(error_code(e)) != unknown_error_message(),
        e != f ==> init_error_message(error_code(e)) != init_error_message(error_code(f)),
{
    reveal_strlit("Unknown initialization error");
    reveal_strlit("Contract is already initialized");
    reveal_strlit("Campaign goal must be at least 1");
    reveal_strlit("Minimum contribution must be at least 1");
    reveal_strlit("Deadline must be at least 60 seconds in the future");
    reveal_strlit("Platform fee cannot exceed 100% (10,000 bps)");
    reveal_strlit("Bonus goal must be strictly greater than the primary goal");
    assert(unknown_error_message()[0] == 'U');
    assert(init_error_message(1)[0] == 'C');
    assert(init_error_message(8)[0] == 'C');
    assert(init_error_message(1)[1] == 'o');
    assert(init_error_message(8)[1] == 'a');
    assert(init_error_message(9)[0] == 'M');
    assert(init_error_message(10)[0] == 'D');
    assert(init_error_message(11)[0] == 'P');
    assert(init_error_message(12)[0] == 'B');
}

} // verus!
