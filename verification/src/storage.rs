//! The contract storage slots that campaign initialization fills, the values
//! it puts there, and a model of the storage as a map from slot to value.

use vstd::prelude::*;
use soroban_sdk::{Address, String};

verus! {

/// The storage slots written when a campaign is initialized.
#[derive(Debug, Clone, Copy, PartialEq, Eq, Structural)]
pub enum DataKey {
    Admin,
    Creator,
    Token,
    Goal,
    Deadline,
    MinContribution,
    TotalRaised,
    BonusGoalReachedEmitted,
    Status,
    PlatformConfig,
    BonusGoal,
    BonusGoalDescription,
    Contributors,
    Roadmap,
}

impl DataKey {
    /// Whether the slot lives in persistent storage; all others live in the
    /// contract's instance storage.
    pub fn is_persistent(&self) -> (r: bool)
        ensures
            r == (*self == DataKey::Contributors),
    {
        match self {
            DataKey::Contributors => true,
            _ => false,
        }
    }
}

/// The lifecycle status of a campaign.
#[derive(Debug, Clone, Copy, PartialEq, Eq, Structural)]
pub enum Status {
    /// The campaign accepts contributions.
    Active,
}

/// Platform fee configuration: the fee recipient and the fee in basis points.
#[derive(Clone)]
pub struct PlatformConfig {
    pub address: Address,
    pub fee_bps: u32,
}

/// A value held in a storage slot.
pub enum StoredValue {
    /// An account or contract address.
    Address(Address),
    /// A token amount.
    Amount(i128),
    /// A ledger timestamp, in seconds.
    Timestamp(u64),
    /// A boolean flag.
    Flag(bool),
    /// A campaign status.
    Status(Status),
    /// A platform fee configuration.
    PlatformConfig(PlatformConfig),
    /// A host string.
    Text(String),
    /// A list with no element.
    EmptyList,
}

/// One write of a value into a storage slot.
pub struct StorageWrite {
    pub key: DataKey,
    pub value: StoredValue,
}

/// The storage after performing `writes` in order on `store`: a later write to
/// a slot replaces an earlier one.
pub open spec fn apply_writes(
    store: Map<DataKey, StoredValue>,
    writes: Seq<StorageWrite>,
) -> Map<DataKey, StoredValue>
    decreases writes.len(),
{
    if writes.len() == 0 {
        store
    } else {
        let last = writes.last();
        apply_writes(store, writes.drop_last()).insert(last.key, last.value)
    }
}

/// Whether no slot is written twice by `writes`.
pub open spec fn keys_distinct(writes: Seq<StorageWrite>) -> bool {
    forall|i: int, j: int|
        0 <= i < j < writes.len() ==> #[trigger] writes[i].key != #[trigger] writes[j].key
}

/// Whether some write of `writes` targets `key`.
pub open spec fn writes_key(writes: Seq<StorageWrite>, key: DataKey) -> bool {
    exists|i: int| 0 <= i < writes.len() && #[trigger] writes[i].key == key
}

/// Performing writes leaves every slot that none of them targets as it was.
pub proof fn lemma_apply_writes_untouched(
    store: Map<DataKey, StoredValue>,
    writes: Seq<StorageWrite>,
    k: DataKey,
)
    requires
        !writes_key(writes, k),
    ensures
        apply_writes(store, writes).contains_key(k) == store.contains_key(k),
        apply_writes(store, writes)[k] == store[k],
    decreases writes.len(),
{
    if writes.len() > 0 {
        let init = writes.drop_last();
        assert(!writes_key(init, k)) by {
            if writes_key(init, k) {
                let i = choose|i: int| 0 <= i < init.len() && #[trigger] init[i].key == k;
                assert(writes[i].key == k);
            }
        }
        assert(writes[writes.len() - 1].key != k);
        lemma_apply_writes_untouched(store, init, k);
    }
}

/// After performing writes, a slot holds the value of the last write to it.
pub proof fn lemma_apply_writes_last(
    store: Map<DataKey, StoredValue>,
    writes: Seq<StorageWrite>,
    i: int,
)
    requires
        0 <= i < writes.len(),
        forall|j: int| i < j < writes.len() ==> #[trigger] writes[j].key != writes[i].key,
    ensures
        apply_writes(store, writes).contains_key(writes[i].key),
        apply_writes(store, writes)[writes[i].key] == writes[i].value,
    decreases writes.len(),
{
    if i < writes.len() - 1 {
        let init = writes.drop_last();
        assert(writes[writes.len() - 1].key != writes[i].key);
        assert(init[i] == writes[i]);
        assert forall|j: int| i < j < init.len() implies #[trigger] init[j].key != init[i].key by {
            assert(init[j] == writes[j]);
        }
        lemma_apply_writes_last(store, init, i);
    }
}

/// In writes that target distinct slots, each slot written holds the value
/// written to it, and the other slots keep what they held.
pub proof fn lemma_apply_distinct_writes(store: Map<DataKey, StoredValue>, writes: Seq<StorageWrite>)
    requires
        keys_distinct(writes),
    ensures
        forall|i: int|
            0 <= i < writes.len() ==> {
                &&& apply_writes(store, writes).contains_key(#[trigger] writes[i].key)
                &&& apply_writes(store, writes)[writes[i].key] == writes[i].value
            },
        forall|k: DataKey|
            !writes_key(writes, k) ==> {
                &&& #[trigger] apply_writes(store, writes).contains_key(k) == store.contains_key(k)
                &&& apply_writes(store, writes)[k] == store[k]
            },
{
    assert forall|i: int| 0 <= i < writes.len() implies {
        &&& apply_writes(store, writes).contains_key(#[trigger] writes[i].key)
        &&& apply_writes(store, writes)[writes[i].key] == writes[i].value
    } by {
        lemma_apply_writes_last(store, writes, i);
    }
    assert forall|k: DataKey| !writes_key(writes, k) implies {
        &&& #[trigger] apply_writes(store, writes).contains_key(k) == store.contains_key(k)
        &&& apply_writes(store, writes)[k] == store[k]
    } by {
        lemma_apply_writes_untouched(store, writes, k);
    }
}

} // verus!
