//! Validated campaign initialization.
//!
//! Order of the checks and effects:
//! 1. re-initialization guard: a campaign that has a creator is refused with
//!    `AlreadyInitialized`, before anything else happens;
//! 2. the creator must authorize the call;
//! 3. the parameters are validated: goal, minimum contribution, deadline,
//!    platform fee, bonus goal; the first failing check decides the error;
//! 4. only when every check passed, all storage slots are written in one pass;
//! 5. then one `("campaign", "initialized")` event is emitted.

use vstd::prelude::*;
use soroban_sdk::{Address, String};
use crate::error::{error_code, is_retryable_code, ContractError};
use crate::storage::{
    apply_writes, keys_distinct, lemma_apply_distinct_writes, lemma_apply_writes_untouched, writes_key, DataKey, PlatformConfig, Status,
    StorageWrite, StoredValue,
};
use crate::validation::{
    bonus_goal_valid, deadline_far_enough, validate_bonus_goal, validate_deadline, validate_goal,
    validate_min_contribution, validate_platform_fee, MAX_PLATFORM_FEE_BPS, MIN_CONTRIBUTION,
    MIN_GOAL,
};

verus! {

/// Named parameters of a campaign initialization.
#[derive(Clone)]
pub struct InitParams {
    /// Admin address authorized to upgrade the contract.
    pub admin: Address,
    /// Campaign creator; must authorize the initialization.
    pub creator: Address,
    /// Token contract address used for contributions.
    pub token: Address,
    /// Funding goal in the token's smallest unit. Must be >= 1.
    pub goal: i128,
    /// Campaign deadline as a ledger timestamp. Must be >= now + 60s.
    pub deadline: u64,
    /// Minimum single contribution. Must be >= 1.
    pub min_contribution: i128,
    /// Optional platform fee configuration. `fee_bps` must be <= 10_000.
    pub platform_config: Option<PlatformConfig>,
    /// Optional bonus goal. When provided, must be > `goal`.
    pub bonus_goal: Option<i128>,
    /// Optional human-readable description of the bonus goal.
    pub bonus_goal_description: Option<String>,
}

/// The payload of the initialization event (topics: `InitializedEvent::topics`):
/// scalar fields only.
pub struct InitializedEvent {
    pub creator: Address,
    pub token: Address,
    pub goal: i128,
    pub deadline: u64,
    pub min_contribution: i128,
}

/// The namespace topic of the initialization event.
pub open spec fn event_namespace() -> Seq<char> {
    "campaign"@
}

/// The name topic of the initialization event.
pub open spec fn event_name() -> Seq<char> {
    "initialized"@
}

/// Whether a text is a valid short symbol name: at most 32 characters, each
/// an ASCII letter, an ASCII digit or `_`.
pub open spec fn is_symbol_text(s: Seq<char>) -> bool {
    &&& s.len() <= 32
    &&& forall|i: int|
        0 <= i < s.len() ==> {
            let c = #[trigger] s[i];
            ('a' <= c <= 'z') || ('A' <= c <= 'Z') || ('0' <= c <= '9') || c == '_'
        }
}

impl InitializedEvent {
    /// The topics under which the event is published: `("campaign",
    /// "initialized")`, both valid symbol names.
    pub fn topics() -> (r: (&'static str, &'static str))
        ensures
            r.0@ == event_namespace(),
            r.1@ == event_name(),
            is_symbol_text(r.0@),
            is_symbol_text(r.1@),
    {
        proof {
            reveal_strlit("campaign");
            reveal_strlit("initialized");
        }
        ("campaign", "initialized")
    }
}

/// What a successful initialization does: the storage writes, in order, and
/// the event emitted after them.
pub struct InitPlan {
    pub writes: Vec<StorageWrite>,
    pub event: InitializedEvent,
}

/// The decision of an initialization: whose authorization it demands before
/// anything else (none when the campaign was initialized already), and then
/// either the plan to carry out or the error to return.
pub struct InitOutcome {
    pub auth: Option<Address>,
    pub result: Result<InitPlan, ContractError>,
}

/// Whether a platform configuration, when present, asks for more than 100%.
pub open spec fn platform_fee_too_high(config: Option<PlatformConfig>) -> bool {
    match config {
        Some(c) => c.fee_bps > MAX_PLATFORM_FEE_BPS,
        None => false,
    }
}

/// The first parameter check that fails at ledger time `now`, if any.
pub open spec fn init_params_error(now: u64, p: InitParams) -> Option<ContractError> {
    if p.goal < MIN_GOAL {
        Some(ContractError::InvalidGoal)
    } else if p.min_contribution < MIN_CONTRIBUTION {
        Some(ContractError::InvalidMinContribution)
    } else if !deadline_far_enough(now, p.deadline) {
        Some(ContractError::DeadlineTooSoon)
    } else if platform_fee_too_high(p.platform_config) {
        Some(ContractError::InvalidPlatformFee)
    } else if !bonus_goal_valid(p.bonus_goal, p.goal) {
        Some(ContractError::InvalidBonusGoal)
    } else {
        None
    }
}

/// The error an initialization returns, if any: the guard first, then the
/// parameter checks.
pub open spec fn init_error(already_initialized: bool, now: u64, p: InitParams) -> Option<
    ContractError,
> {
    if already_initialized {
        Some(ContractError::AlreadyInitialized)
    } else {
        init_params_error(now, p)
    }
}

/// A storage write.
pub open spec fn slot_write(key: DataKey, value: StoredValue) -> StorageWrite {
    StorageWrite { key, value }
}

/// The writes of the optional fields, in order: platform configuration, bonus
/// goal, bonus goal description, each only when present.
pub open spec fn optional_writes(p: InitParams) -> Seq<StorageWrite> {
    (match p.platform_config {
        Some(c) => seq![slot_write(DataKey::PlatformConfig, StoredValue::PlatformConfig(c))],
        None => seq![],
    }) + (match p.bonus_goal {
        Some(bg) => seq![slot_write(DataKey::BonusGoal, StoredValue::Amount(bg))],
        None => seq![],
    }) + (match p.bonus_goal_description {
        Some(d) => seq![slot_write(DataKey::BonusGoalDescription, StoredValue::Text(d))],
        None => seq![],
    })
}

/// The writes of a successful initialization, in order: the required fields,
/// the zero total, the unset bonus flag and the active status; then the
/// optional fields that are present; then the empty contributor list and the
/// empty roadmap.
pub open spec fn init_writes(p: InitParams) -> Seq<StorageWrite> {
    seq![
        slot_write(DataKey::Admin, StoredValue::Address(p.admin)),
        slot_write(DataKey::Creator, StoredValue::Address(p.creator)),
        slot_write(DataKey::Token, StoredValue::Address(p.token)),
        slot_write(DataKey::Goal, StoredValue::Amount(p.goal)),
        slot_write(DataKey::Deadline, StoredValue::Timestamp(p.deadline)),
        slot_write(DataKey::MinContribution, StoredValue::Amount(p.min_contribution)),
        slot_write(DataKey::TotalRaised, StoredValue::Amount(0)),
        slot_write(DataKey::BonusGoalReachedEmitted, StoredValue::Flag(false)),
        slot_write(DataKey::Status, StoredValue::Status(Status::Active)),
    ] + optional_writes(p) + seq![
        slot_write(DataKey::Contributors, StoredValue::EmptyList),
        slot_write(DataKey::Roadmap, StoredValue::EmptyList),
    ]
}

/// The event of a successful initialization.
pub open spec fn init_event(p: InitParams) -> InitializedEvent {
    InitializedEvent {
        creator: p.creator,
        token: p.token,
        goal: p.goal,
        deadline: p.deadline,
        min_contribution: p.min_contribution,
    }
}

/// Whether a campaign storage holds an initialized campaign: one with a creator.
pub open spec fn is_initialized(store: Map<DataKey, StoredValue>) -> bool {
    store.contains_key(DataKey::Creator)
}

/// Whether parameters are acceptable at ledger time `now`, stated over the
/// fields: goal and minimum contribution at least 1, deadline at least 60
/// seconds after `now`, a platform fee of at most 10,000 bps when present, and
/// a bonus goal above the goal when present.
pub open spec fn valid_params_direct(now: u64, p: InitParams) -> bool {
    &&& p.goal >= 1
    &&& p.min_contribution >= 1
    &&& p.deadline as int >= now as int + 60
    &&& p.platform_config is Some ==> p.platform_config->0.fee_bps <= 10_000
    &&& p.bonus_goal is Some ==> p.bonus_goal->0 > p.goal
}

/// Validates all initialization parameters at ledger time `now`, in the order
/// goal, minimum contribution, deadline, platform fee, bonus goal; returns the
/// error of the first check that fails.
pub fn validate_init_params(now: u64, params: &InitParams) -> (r: Result<(), ContractError>)
    ensures
        r == (match init_params_error(now, *params) {
            Some(e) => Err(e),
            None => Ok(()),
        }),
        params.goal < 1 ==> r == Err::<(), ContractError>(ContractError::InvalidGoal),
        params.goal >= 1 && params.min_contribution < 1 ==> r == Err::<(), ContractError>(
            ContractError::InvalidMinContribution,
        ),
        params.goal >= 1 && params.min_contribution >= 1 && (params.deadline as int) < now as int
            + 60 ==> r == Err::<(), ContractError>(ContractError::DeadlineTooSoon),
        params.goal >= 1 && params.min_contribution >= 1 && params.deadline as int >= now as int
            + 60 && params.platform_config is Some && params.platform_config->0.fee_bps > 10_000
            ==> r == Err::<(), ContractError>(ContractError::InvalidPlatformFee),
        params.goal >= 1 && params.min_contribution >= 1 && params.deadline as int >= now as int
            + 60 && (params.platform_config is Some ==> params.platform_config->0.fee_bps
            <= 10_000) && params.bonus_goal is Some && params.bonus_goal->0 <= params.goal ==> r
            == Err::<(), ContractError>(ContractError::InvalidBonusGoal),
        r is Ok <==> valid_params_direct(now, *params),
{
    validate_goal(params.goal)?;
    validate_min_contribution(params.min_contribution)?;
    validate_deadline(now, params.deadline)?;
    if let Some(config) = &params.platform_config {
        validate_platform_fee(config.fee_bps)?;
    }
    validate_bonus_goal(params.bonus_goal, params.goal)?;
    Ok(())
}

/// Decides a campaign initialization. `already_initialized` tells whether the
/// campaign storage holds a creator, and `now` is the current ledger time.
///
/// A campaign initialized before is refused with `AlreadyInitialized`, with no
/// authorization demanded and nothing written. Otherwise the creator's
/// authorization is demanded, whatever the parameters; invalid parameters give
/// the error of the first failing check and nothing is written; valid ones
/// give the storage writes of `init_writes` and the event of `init_event`.
pub fn execute_initialize(already_initialized: bool, now: u64, params: InitParams) -> (out:
    InitOutcome)
    ensures
        out.auth == (if already_initialized {
            None
        } else {
            Some(params.creator)
        }),
        match init_error(already_initialized, now, params) {
            Some(e) => out.result == Err::<InitPlan, ContractError>(e),
            None => {
                &&& out.result is Ok
                &&& out.result->Ok_0.writes@ == init_writes(params)
                &&& out.result->Ok_0.event == init_event(params)
            },
        },
        out.result is Ok <==> !already_initialized && valid_params_direct(now, params),
        out.result is Ok ==> {
            let ev = out.result->Ok_0.event;
            &&& ev.creator == params.creator
            &&& ev.token == params.token
            &&& ev.goal == params.goal
            &&& ev.deadline == params.deadline
            &&& ev.min_contribution == params.min_contribution
        },
{
    // 1. Re-initialization guard.
    if already_initialized {
        return InitOutcome { auth: None, result: Err(ContractError::AlreadyInitialized) };
    }
    // 2. Authorization before any mutation.
    let auth = Some(params.creator.clone());
    // 3. Validation: nothing is written if a check fails.
    if let Err(e) = validate_init_params(now, &params) {
        return InitOutcome { auth, result: Err(e) };
    }
    let ghost p = params;
    let event = InitializedEvent {
        creator: params.creator.clone(),
        token: params.token.clone(),
        goal: params.goal,
        deadline: params.deadline,
        min_contribution: params.min_contribution,
    };
    let InitParams {
        admin,
        creator,
        token,
        goal,
        deadline,
        min_contribution,
        platform_config,
        bonus_goal,
        bonus_goal_description,
    } = params;
    // 4. Required fields.
    let mut writes: Vec<StorageWrite> = Vec::new();
    writes.push(StorageWrite { key: DataKey::Admin, value: StoredValue::Address(admin) });
    writes.push(StorageWrite { key: DataKey::Creator, value: StoredValue::Address(creator) });
    writes.push(StorageWrite { key: DataKey::Token, value: StoredValue::Address(token) });
    writes.push(StorageWrite { key: DataKey::Goal, value: StoredValue::Amount(goal) });
    writes.push(StorageWrite { key: DataKey::Deadline, value: StoredValue::Timestamp(deadline) });
    writes.push(
        StorageWrite { key: DataKey::MinContribution, value: StoredValue::Amount(min_contribution) },
    );
    writes.push(StorageWrite { key: DataKey::TotalRaised, value: StoredValue::Amount(0) });
    writes.push(
        StorageWrite { key: DataKey::BonusGoalReachedEmitted, value: StoredValue::Flag(false) },
    );
    writes.push(StorageWrite { key: DataKey::Status, value: StoredValue::Status(Status::Active) });
    let ghost required = writes@;
    // Optional fields.
    if let Some(config) = platform_config {
        writes.push(
            StorageWrite { key: DataKey::PlatformConfig, value: StoredValue::PlatformConfig(config) },
        );
    }
    if let Some(bg) = bonus_goal {
        writes.push(StorageWrite { key: DataKey::BonusGoal, value: StoredValue::Amount(bg) });
    }
    if let Some(desc) = bonus_goal_description {
        writes.push(
            StorageWrite { key: DataKey::BonusGoalDescription, value: StoredValue::Text(desc) },
        );
    }
    assert(writes@ == required + optional_writes(p));
    // Seed the empty collections.
    writes.push(StorageWrite { key: DataKey::Contributors, value: StoredValue::EmptyList });
    writes.push(StorageWrite { key: DataKey::Roadmap, value: StoredValue::EmptyList });
    assert(writes@ == init_writes(p));
    // 5. The event follows the writes.
    InitOutcome { auth, result: Ok(InitPlan { writes, event }) }
}

/// A successful initialization writes each storage slot at most once.
pub proof fn lemma_init_writes_distinct(p: InitParams)
    ensures
        keys_distinct(init_writes(p)),
{
    let ws = init_writes(p);
    let opt = optional_writes(p);
    assert forall|i: int, j: int| 0 <= i < j < ws.len() implies #[trigger] ws[i].key
        != #[trigger] ws[j].key by {
        assert(opt.len() <= 3);
        assert forall|k: int| 0 <= k < opt.len() implies {
            let key = #[trigger] opt[k].key;
            key == DataKey::PlatformConfig || key == DataKey::BonusGoal || key
                == DataKey::BonusGoalDescription
        } by {}
        assert forall|a: int, b: int| 0 <= a < b < opt.len() implies #[trigger] opt[a].key
            != #[trigger] opt[b].key by {}
        if 9 <= i < 9 + opt.len() {
            assert(ws[i] == opt[i - 9]);
        }
        if 9 <= j < 9 + opt.len() {
            assert(ws[j] == opt[j - 9]);
        }
    }
}

/// Whether, after the writes of an initialization with parameters `p` on
/// `store`, slot `key` holds `value`.
pub open spec fn stored(
    store: Map<DataKey, StoredValue>,
    p: InitParams,
    key: DataKey,
    value: StoredValue,
) -> bool {
    let s = apply_writes(store, init_writes(p));
    s.contains_key(key) && s[key] == value
}

/// Whether, after the writes of an initialization with parameters `p` on
/// `store`, slot `key` holds what it held before, or stays empty.
pub open spec fn kept(store: Map<DataKey, StoredValue>, p: InitParams, key: DataKey) -> bool {
    let s = apply_writes(store, init_writes(p));
    &&& s.contains_key(key) == store.contains_key(key)
    &&& store.contains_key(key) ==> s[key] == store[key]
}

/// What a read gives back after a successful initialization: whatever the
/// storage held before, each slot holds the value given for it (the zero
/// total, the unset bonus flag, the active status and the empty collections
/// for the slots that no parameter fills), and an optional slot whose
/// parameter is absent keeps what it held.
pub proof fn lemma_initialize_stores_all_fields(store: Map<DataKey, StoredValue>, p: InitParams)
    ensures
        stored(store, p, DataKey::Admin, StoredValue::Address(p.admin)),
        stored(store, p, DataKey::Creator, StoredValue::Address(p.creator)),
        stored(store, p, DataKey::Token, StoredValue::Address(p.token)),
        stored(store, p, DataKey::Goal, StoredValue::Amount(p.goal)),
        stored(store, p, DataKey::Deadline, StoredValue::Timestamp(p.deadline)),
        stored(store, p, DataKey::MinContribution, StoredValue::Amount(p.min_contribution)),
        stored(store, p, DataKey::TotalRaised, StoredValue::Amount(0)),
        stored(store, p, DataKey::BonusGoalReachedEmitted, StoredValue::Flag(false)),
        stored(store, p, DataKey::Status, StoredValue::Status(Status::Active)),
        stored(store, p, DataKey::Contributors, StoredValue::EmptyList),
        stored(store, p, DataKey::Roadmap, StoredValue::EmptyList),
        p.platform_config is Some ==> stored(
            store,
            p,
            DataKey::PlatformConfig,
            StoredValue::PlatformConfig(p.platform_config->0),
        ),
        p.platform_config is None ==> kept(store, p, DataKey::PlatformConfig),
        p.bonus_goal is Some ==> stored(
            store,
            p,
            DataKey::BonusGoal,
            StoredValue::Amount(p.bonus_goal->0),
        ),
        p.bonus_goal is None ==> kept(store, p, DataKey::BonusGoal),
        p.bonus_goal_description is Some ==> stored(
            store,
            p,
            DataKey::BonusGoalDescription,
            StoredValue::Text(p.bonus_goal_description->0),
        ),
        p.bonus_goal_description is None ==> kept(store, p, DataKey::BonusGoalDescription),
{
    let ws = init_writes(p);
    let n = ws.len();
    lemma_init_writes_distinct(p);
    lemma_apply_distinct_writes(store, ws);
    assert(ws[0] == slot_write(DataKey::Admin, StoredValue::Address(p.admin)));
    assert(apply_writes(store, ws).contains_key(ws[0].key));
    assert(ws[1] == slot_write(DataKey::Creator, StoredValue::Address(p.creator)));
    assert(apply_writes(store, ws).contains_key(ws[1].key));
    assert(ws[2] == slot_write(DataKey::Token, StoredValue::Address(p.token)));
    assert(apply_writes(store, ws).contains_key(ws[2].key));
    assert(ws[3] == slot_write(DataKey::Goal, StoredValue::Amount(p.goal)));
    assert(apply_writes(store, ws).contains_key(ws[3].key));
    assert(ws[4] == slot_write(DataKey::Deadline, StoredValue::Timestamp(p.deadline)));
    assert(apply_writes(store, ws).contains_key(ws[4].key));
    assert(ws[5] == slot_write(DataKey::MinContribution, StoredValue::Amount(p.min_contribution)));
    assert(apply_writes(store, ws).contains_key(ws[5].key));
    assert(ws[6] == slot_write(DataKey::TotalRaised, StoredValue::Amount(0)));
    assert(apply_writes(store, ws).contains_key(ws[6].key));
    assert(ws[7] == slot_write(DataKey::BonusGoalReachedEmitted, StoredValue::Flag(false)));
    assert(apply_writes(store, ws).contains_key(ws[7].key));
    assert(ws[8] == slot_write(DataKey::Status, StoredValue::Status(Status::Active)));
    assert(apply_writes(store, ws).contains_key(ws[8].key));
    assert(ws[n - 2] == slot_write(DataKey::Contributors, StoredValue::EmptyList));
    assert(apply_writes(store, ws).contains_key(ws[n - 2].key));
    assert(ws[n - 1] == slot_write(DataKey::Roadmap, StoredValue::EmptyList));
    assert(apply_writes(store, ws).contains_key(ws[n - 1].key));
    let pc = if p.platform_config is Some { 1int } else { 0int };
    let bg = if p.bonus_goal is Some { 1int } else { 0int };
    if p.platform_config is Some {
        assert(ws[9] == slot_write(
            DataKey::PlatformConfig,
            StoredValue::PlatformConfig(p.platform_config->0),
        ));
        assert(apply_writes(store, ws).contains_key(ws[9].key));
    } else {
        assert(!writes_key(ws, DataKey::PlatformConfig));
        lemma_apply_writes_untouched(store, ws, DataKey::PlatformConfig);
    }
    if p.bonus_goal is Some {
        assert(ws[9 + pc] == slot_write(DataKey::BonusGoal, StoredValue::Amount(p.bonus_goal->0)));
        assert(apply_writes(store, ws).contains_key(ws[9 + pc].key));
    } else {
        assert(!writes_key(ws, DataKey::BonusGoal));
        lemma_apply_writes_untouched(store, ws, DataKey::BonusGoal);
    }
    if p.bonus_goal_description is Some {
        assert(ws[9 + pc + bg] == slot_write(
            DataKey::BonusGoalDescription,
            StoredValue::Text(p.bonus_goal_description->0),
        ));
        assert(apply_writes(store, ws).contains_key(ws[9 + pc + bg].key));
    } else {
        assert(!writes_key(ws, DataKey::BonusGoalDescription));
        lemma_apply_writes_untouched(store, ws, DataKey::BonusGoalDescription);
    }
}

/// A campaign is initialized at most once: after a successful
/// initialization the storage holds a creator, so any later initialization,
/// whatever its parameters and its time, is refused with
/// `AlreadyInitialized`.
pub proof fn lemma_initialize_only_once(
    store: Map<DataKey, StoredValue>,
    now1: u64,
    p1: InitParams,
    now2: u64,
    p2: InitParams,
)
    requires
        init_error(is_initialized(store), now1, p1) is None,
    ensures
        is_initialized(apply_writes(store, init_writes(p1))),
        init_error(is_initialized(apply_writes(store, init_writes(p1))), now2, p2) == Some(
            ContractError::AlreadyInitialized,
        ),
{
    lemma_initialize_stores_all_fields(store, p1);
}

/// An initialization error can be got past by a new call with other
/// parameters exactly when the campaign was not initialized before: the
/// guard's error is permanent, every parameter error is retryable.
pub proof fn lemma_init_error_retryable(already_initialized: bool, now: u64, p: InitParams)
    requires
        init_error(already_initialized, now, p) is Some,
    ensures
        is_retryable_code(error_code(init_error(already_initialized, now, p)->0))
            <==> !already_initialized,
{
}

/// The parameter checks, stated over the fields: the goal is checked first,
/// then the minimum contribution, the deadline, the platform fee and the
/// bonus goal; each refuses exactly its own rule's violation, whatever the
/// later fields (the optional ones included), and parameters that break no
/// rule are accepted.
pub proof fn lemma_init_params_rules(now: u64, p: InitParams)
    ensures
        p.goal < 1 ==> init_params_error(now, p) == Some(ContractError::InvalidGoal),
        p.goal >= 1 && p.min_contribution < 1 ==> init_params_error(now, p) == Some(
            ContractError::InvalidMinContribution,
        ),
        p.goal >= 1 && p.min_contribution >= 1 && (p.deadline as int) < now as int + 60
            ==> init_params_error(now, p) == Some(ContractError::DeadlineTooSoon),
        p.goal >= 1 && p.min_contribution >= 1 && p.deadline as int >= now as int + 60
            && p.platform_config is Some && p.platform_config->0.fee_bps > 10_000
            ==> init_params_error(now, p) == Some(ContractError::InvalidPlatformFee),
        p.goal >= 1 && p.min_contribution >= 1 && p.deadline as int >= now as int + 60 && (
        p.platform_config is Some ==> p.platform_config->0.fee_bps <= 10_000) && p.bonus_goal is Some
            && p.bonus_goal->0 <= p.goal ==> init_params_error(now, p) == Some(
            ContractError::InvalidBonusGoal,
        ),
        init_params_error(now, p) is None <==> valid_params_direct(now, p),
        init_error(true, now, p) == Some(ContractError::AlreadyInitialized),
        init_error(false, now, p) == init_params_error(now, p),
{
}

/// The event of a successful initialization names the parameters' own
/// creator, token, goal, deadline and minimum contribution; and the creator,
/// admin and token slots receive the parameters' own creator, admin and token.
pub proof fn lemma_event_and_parties(p: InitParams)
    ensures
        init_event(p).creator == p.creator,
        init_event(p).token == p.token,
        init_event(p).goal == p.goal,
        init_event(p).deadline == p.deadline,
        init_event(p).min_contribution == p.min_contribution,
        init_writes(p)[0] == (StorageWrite { key: DataKey::Admin, value: StoredValue::Address(p.admin) }),
        init_writes(p)[1] == (StorageWrite {
            key: DataKey::Creator,
            value: StoredValue::Address(p.creator),
        }),
        init_writes(p)[2] == (StorageWrite { key: DataKey::Token, value: StoredValue::Address(p.token) }),
{
}

} // verus!
