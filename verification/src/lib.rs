//! Campaign initialization rules of a crowdfunding contract: parameter
//! validation, the re-initialization guard, the storage writes of a
//! successful initialization and the event it emits, and the helpers that
//! describe initialization errors to a frontend.

pub mod error;
pub mod host;
pub mod initialize;
pub mod storage;
pub mod validation;

pub use error::{ContractError, describe_init_error, is_init_error_retryable};
pub use validation::validate_bonus_goal;
pub use initialize::{
    execute_initialize, validate_init_params, InitOutcome, InitParams, InitPlan, InitializedEvent,
};
pub use storage::{DataKey, PlatformConfig, Status, StorageWrite, StoredValue};
