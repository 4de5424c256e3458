use crowdfund::{describe_init_error, is_init_error_retryable, validate_bonus_goal, ContractError};

// ── validate_bonus_goal ───────────────────────────────────────────────────────

#[test]
fn test_validate_bonus_goal_none_is_ok() {
    assert!(validate_bonus_goal(None, 1_000_000).is_ok());
}

#[test]
fn test_validate_bonus_goal_greater_is_ok() {
    assert!(validate_bonus_goal(Some(1_000_001), 1_000_000).is_ok());
}

#[test]
fn test_validate_bonus_goal_equal_returns_error() {
    assert_eq!(
        validate_bonus_goal(Some(1_000_000), 1_000_000),
        Err(ContractError::InvalidBonusGoal)
    );
}

#[test]
fn test_validate_bonus_goal_less_returns_error() {
    assert_eq!(
        validate_bonus_goal(Some(999_999), 1_000_000),
        Err(ContractError::InvalidBonusGoal)
    );
}

#[test]
fn test_validate_bonus_goal_zero_when_goal_is_one_returns_error() {
    assert_eq!(
        validate_bonus_goal(Some(0), 1),
        Err(ContractError::InvalidBonusGoal)
    );
}

// ── describe_init_error ───────────────────────────────────────────────────────

#[test]
fn test_describe_init_error_already_initialized() {
    assert_eq!(describe_init_error(1), "Contract is already initialized");
}

#[test]
fn test_describe_init_error_invalid_goal() {
    assert!(describe_init_error(8).contains("goal"));
}

#[test]
fn test_describe_init_error_invalid_min_contribution() {
    assert!(describe_init_error(9).contains("contribution"));
}

#[test]
fn test_describe_init_error_deadline_too_soon() {
    assert!(describe_init_error(10).contains("Deadline"));
}

#[test]
fn test_describe_init_error_invalid_platform_fee() {
    assert!(describe_init_error(11).contains("fee"));
}

#[test]
fn test_describe_init_error_invalid_bonus_goal() {
    assert!(describe_init_error(12).contains("Bonus"));
}

#[test]
fn test_describe_init_error_unknown_code() {
    let msg = describe_init_error(99);
    assert!(!msg.is_empty());
    assert!(msg.contains("Unknown"));
}

// ── is_init_error_retryable ───────────────────────────────────────────────────

#[test]
fn test_is_retryable_already_initialized_is_false() {
    assert!(!is_init_error_retryable(1));
}

#[test]
fn test_is_retryable_input_errors_are_true() {
    for code in 8u32..=12 {
        assert!(
            is_init_error_retryable(code),
            "code {} should be retryable",
            code
        );
    }
}

#[test]
fn test_is_retryable_unknown_code_is_false() {
    assert!(!is_init_error_retryable(99));
}

// ── Laws on concrete values ───────────────────────────────────────────────────

#[test]
fn test_retryable_exactly_for_input_errors() {
    let errors = [
        ContractError::AlreadyInitialized,
        ContractError::InvalidGoal,
        ContractError::InvalidMinContribution,
        ContractError::DeadlineTooSoon,
        ContractError::InvalidPlatformFee,
        ContractError::InvalidBonusGoal,
    ];
    for e in errors {
        assert_eq!(is_init_error_retryable(e.code()), e != ContractError::AlreadyInitialized);
        assert!(!describe_init_error(e.code()).contains("Unknown"));
    }
}

#[test]
fn test_describe_init_error_exact_messages() {
    assert_eq!(describe_init_error(8), "Campaign goal must be at least 1");
    assert_eq!(describe_init_error(9), "Minimum contribution must be at least 1");
    assert_eq!(describe_init_error(10), "Deadline must be at least 60 seconds in the future");
    assert_eq!(describe_init_error(11), "Platform fee cannot exceed 100% (10,000 bps)");
    assert_eq!(
        describe_init_error(12),
        "Bonus goal must be strictly greater than the primary goal"
    );
    assert_eq!(describe_init_error(0), "Unknown initialization error");
    assert_eq!(describe_init_error(2), "Unknown initialization error");
}

#[test]
fn test_retryable_bounds() {
    assert!(!is_init_error_retryable(7));
    assert!(!is_init_error_retryable(13));
    assert!(!is_init_error_retryable(0));
    assert!(!is_init_error_retryable(u32::MAX));
}
