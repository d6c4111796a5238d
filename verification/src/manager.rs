use vstd::prelude::*;

use dashmap::DashMap;

use crate::address::Address;
use crate::pool::{PoolStateV2, PoolStateV3};

verus! {

/// Which mechanics a pool uses. Collaborators dispatch on this label;
/// it carries no data and is not stored per entry (the stored tag lives
/// in `PoolState`).
#[derive(Clone, Copy, Debug, PartialEq, Eq, Hash, Structural)]
pub enum Protocol {
    UniswapV2,
    UniswapV3,
}

/// Tagged union over the two pool snapshots, the store's value type.
/// Exactly one variant is active, and the tag is authoritative for
/// dispatch.
#[derive(Clone, Debug, PartialEq, Eq, Structural)]
pub enum PoolState {
    V2(PoolStateV2),
    V3(PoolStateV3),
}

/// Declares `dashmap::DashMap`, the sharded concurrent hash map the
/// store is built on, as an opaque type; what is assumed of its methods
/// stands on the wrappers below.
#[verifier::external_type_specification]
#[verifier::external_body]
#[verifier::reject_recursive_types(K)]
#[verifier::reject_recursive_types(V)]
#[verifier::reject_recursive_types(S)]
pub struct ExDashMap<K, V, S>(DashMap<K, V, S>);

/// The entries a concurrent map holds, as a mathematical map from the
/// 160 address bits to the stored state.
pub uninterp spec fn pool_map_of(m: DashMap<(u128, u32), PoolState>) -> Map<(u128, u32), PoolState>;

/// The contents of a store with no entries.
pub open spec fn empty_pools() -> Map<(u128, u32), PoolState> {
    Map::empty()
}

/// Relies on `dashmap::DashMap::new`: creates a map with no entries.
#[verifier::external_body]
fn dm_new() -> (r: DashMap<(u128, u32), PoolState>)
    ensures
        pool_map_of(r) == empty_pools(),
{
    DashMap::new()
}

/// Relies on `dashmap::DashMap::insert`: maps `key` to `value`,
/// replacing the previous entry for `key` if there was one.
#[verifier::external_body]
fn dm_insert(m: &mut DashMap<(u128, u32), PoolState>, key: (u128, u32), value: PoolState)
    ensures
        pool_map_of(*final(m)) == pool_map_of(*old(m)).insert(key, value),
{
    m.insert(key, value);
}

/// Relies on `dashmap::DashMap::get`: the value stored for `key`, if
/// any, cloned out of the map.
#[verifier::external_body]
fn dm_get(m: &DashMap<(u128, u32), PoolState>, key: (u128, u32)) -> (r: Option<PoolState>)
    ensures
        r == (if pool_map_of(*m).dom().contains(key) {
            Some(pool_map_of(*m)[key])
        } else {
            None::<PoolState>
        }),
{
    match m.get(&key) {
        Some(entry) => Some(entry.value().clone()),
        None => None,
    }
}

/// Relies on `dashmap::DashMap::len`: the number of entries, the
/// cardinality of the stored key set.
#[verifier::external_body]
fn dm_len(m: &DashMap<(u128, u32), PoolState>) -> (r: usize)
    ensures
        r == pool_map_of(*m).dom().len(),
{
    m.len()
}

/// Relies on `dashmap::DashMap::clear`: removes every entry.
#[verifier::external_body]
fn dm_clear(m: &mut DashMap<(u128, u32), PoolState>)
    ensures
        pool_map_of(*final(m)) == empty_pools(),
{
    m.clear();
}

/// Keyed store from pool address to `PoolState`. The map synchronizes
/// each key independently, so operations on different addresses never
/// block each other; every public method is a single map operation.
///
/// Writes take `&mut self`: the verified interface orders the writes it
/// sees, and what each one does to the contents is stated exactly. A
/// caller that shares one store across threads keeps a handle of its
/// own around it.
pub struct StateManager {
    pools: DashMap<(u128, u32), PoolState>,
}

impl View for StateManager {
    type V = Map<(u128, u32), PoolState>;

    closed spec fn view(&self) -> Map<(u128, u32), PoolState> {
        pool_map_of(self.pools)
    }
}

/// The snapshot a read at `key` returns on a store holding `m`: the
/// stored value, or absent when the address was never written or was
/// cleared.
pub open spec fn lookup(m: Map<(u128, u32), PoolState>, key: (u128, u32)) -> Option<PoolState> {
    if m.dom().contains(key) {
        Some(m[key])
    } else {
        None
    }
}

/// As `lookup`, filtered by tag: absent both when the address is unknown
/// and when it holds the other variant.
pub open spec fn lookup_v2(m: Map<(u128, u32), PoolState>, key: (u128, u32)) -> Option<
    PoolStateV2,
> {
    match lookup(m, key) {
        Some(PoolState::V2(p)) => Some(p),
        _ => None,
    }
}

/// As `lookup`, filtered by tag: absent both when the address is unknown
/// and when it holds the other variant.
pub open spec fn lookup_v3(m: Map<(u128, u32), PoolState>, key: (u128, u32)) -> Option<
    PoolStateV3,
> {
    match lookup(m, key) {
        Some(PoolState::V3(p)) => Some(p),
        _ => None,
    }
}

impl StateManager {
    /// An empty store.
    pub fn new() -> (r: StateManager)
        ensures
            r@ == empty_pools(),
    {
        StateManager { pools: dm_new() }
    }

    /// Insert or replace the entry at `pool.address` with the V2 variant.
    /// The whole entry is replaced; fields are never merged.
    pub fn update_v2(&mut self, pool: PoolStateV2)
        ensures
            final(self)@ == old(self)@.insert(pool.address@, PoolState::V2(pool)),
    {
        let key = (pool.address.hi, pool.address.lo);
        dm_insert(&mut self.pools, key, PoolState::V2(pool));
    }

    /// Insert or replace the entry at `pool.address` with the V3 variant.
    /// The whole entry is replaced; fields are never merged.
    pub fn update_v3(&mut self, pool: PoolStateV3)
        ensures
            final(self)@ == old(self)@.insert(pool.address@, PoolState::V3(pool)),
    {
        let key = (pool.address.hi, pool.address.lo);
        dm_insert(&mut self.pools, key, PoolState::V3(pool));
    }

    /// A cloned snapshot of the current value at `address`, or absent if
    /// never written or cleared. Once returned, the snapshot never
    /// changes.
    pub fn get(&self, address: &Address) -> (r: Option<PoolState>)
        ensures
            r == lookup(self@, address@),
    {
        dm_get(&self.pools, (address.hi, address.lo))
    }

    /// As `get`, but only a V2 snapshot: absent both when the address is
    /// unknown and when it holds a V3 entry.
    pub fn get_v2(&self, address: &Address) -> (r: Option<PoolStateV2>)
        ensures
            r == lookup_v2(self@, address@),
    {
        match self.get(address) {
            Some(PoolState::V2(pool)) => Some(pool),
            _ => None,
        }
    }

    /// As `get`, but only a V3 snapshot: absent both when the address is
    /// unknown and when it holds a V2 entry.
    pub fn get_v3(&self, address: &Address) -> (r: Option<PoolStateV3>)
        ensures
            r == lookup_v3(self@, address@),
    {
        match self.get(address) {
            Some(PoolState::V3(pool)) => Some(pool),
            _ => None,
        }
    }

    /// The number of distinct addresses currently stored.
    pub fn pool_count(&self) -> (r: usize)
        ensures
            r == self@.dom().len(),
    {
        dm_len(&self.pools)
    }

    /// Removes all entries.
    pub fn clear(&mut self)
        ensures
            final(self)@ == empty_pools(),
    {
        dm_clear(&mut self.pools);
    }
}

/// Insert/read round trip: after a V2 write, a V2 read at the written
/// address returns exactly the written snapshot, whatever the store held
/// before.
pub proof fn lemma_update_then_get_v2(m: Map<(u128, u32), PoolState>, e: PoolStateV2)
    ensures
        lookup_v2(m.insert(e.address@, PoolState::V2(e)), e.address@) == Some(e),
{
}

/// Insert/read round trip: after a V3 write, a V3 read at the written
/// address returns exactly the written snapshot, whatever the store held
/// before.
pub proof fn lemma_update_then_get_v3(m: Map<(u128, u32), PoolState>, e: PoolStateV3)
    ensures
        lookup_v3(m.insert(e.address@, PoolState::V3(e)), e.address@) == Some(e),
{
}

/// Overwrite semantics: a second write to the same address fully
/// replaces the first; a read returns the second snapshot, never a merge
/// of the two.
pub proof fn lemma_overwrite_v2(
    m: Map<(u128, u32), PoolState>,
    e1: PoolStateV2,
    e2: PoolStateV2,
)
    requires
        e1.address == e2.address,
    ensures
        lookup_v2(
            m.insert(e1.address@, PoolState::V2(e1)).insert(e2.address@, PoolState::V2(e2)),
            e2.address@,
        ) == Some(e2),
{
}

/// Cross-variant isolation: after a V2 write at an address, a V3 read
/// there is absent.
pub proof fn lemma_cross_variant(m: Map<(u128, u32), PoolState>, e: PoolStateV2)
    ensures
        lookup_v3(m.insert(e.address@, PoolState::V2(e)), e.address@) == None::<PoolStateV3>,
{
}

/// Count accuracy, fresh address: a write at an address not yet stored
/// raises the count by exactly one.
pub proof fn lemma_insert_fresh_count(m: Map<(u128, u32), PoolState>, key: (u128, u32), v: PoolState)
    requires
        m.dom().finite(),
        !m.dom().contains(key),
    ensures
        m.insert(key, v).dom().finite(),
        m.insert(key, v).dom().len() == m.dom().len() + 1,
{
    assert(m.insert(key, v).dom() =~= m.dom().insert(key));
}

/// Count accuracy, already-used address: a write at an address already
/// stored leaves the count unchanged.
pub proof fn lemma_insert_existing_count(
    m: Map<(u128, u32), PoolState>,
    key: (u128, u32),
    v: PoolState,
)
    requires
        m.dom().finite(),
        m.dom().contains(key),
    ensures
        m.insert(key, v).dom().finite(),
        m.insert(key, v).dom().len() == m.dom().len(),
{
    assert(m.insert(key, v).dom() =~= m.dom());
}

/// The contents after writing each snapshot of `pools` in order, oldest
/// first.
pub open spec fn after_v2_updates(
    m: Map<(u128, u32), PoolState>,
    pools: Seq<PoolStateV2>,
) -> Map<(u128, u32), PoolState>
    decreases pools.len(),
{
    if pools.len() == 0 {
        m
    } else {
        after_v2_updates(m.insert(pools[0].address@, PoolState::V2(pools[0])), pools.drop_first())
    }
}

/// No lost updates: writing one snapshot for each of `k` distinct fresh
/// addresses, in any order, leaves the count raised by exactly `k`.
/// Each write is a single whole-entry insert, so no interleaving of the
/// writes loses one.
pub proof fn lemma_distinct_updates_count(m: Map<(u128, u32), PoolState>, pools: Seq<PoolStateV2>)
    requires
        m.dom().finite(),
        forall|i: int, j: int|
            0 <= i < j < pools.len() ==> pools[i].address@ != pools[j].address@,
        forall|i: int| 0 <= i < pools.len() ==> !m.dom().contains(pools[i].address@),
    ensures
        after_v2_updates(m, pools).dom().finite(),
        after_v2_updates(m, pools).dom().len() == m.dom().len() + pools.len(),
    decreases pools.len(),
{
    if pools.len() > 0 {
        let key = pools[0].address@;
        let m1 = m.insert(key, PoolState::V2(pools[0]));
        lemma_insert_fresh_count(m, key, PoolState::V2(pools[0]));
        let rest = pools.drop_first();
        assert forall|i: int| 0 <= i < rest.len() implies !m1.dom().contains(
            rest[i].address@,
        ) by {
            assert(rest[i] == pools[i + 1]);
        }
        lemma_distinct_updates_count(m1, rest);
    }
}

/// Clear resets: an empty store counts zero pools, and a read at any
/// address is absent.
pub proof fn lemma_clear_resets(key: (u128, u32))
    ensures
        empty_pools().dom().len() == 0,
        lookup(empty_pools(), key) == None::<PoolState>,
{
    assert(empty_pools().dom() =~= Set::empty());
}

impl Default for StateManager {
    /// An empty store, as `new` builds it.
    fn default() -> (r: StateManager)
        ensures
            r@ == empty_pools(),
    {
        StateManager::new()
    }
}

} // verus!
