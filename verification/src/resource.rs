//! The type-indexed statistics registry.

use std::collections::HashMap;

use vstd::prelude::*;

use crate::stats::MemoryStats;

verus! {

/// An opaque, stable key uniquely identifying a registered type for the
/// lifetime of the process.
///
/// Two values are equal iff they denote the same registered type. The host
/// integrator assigns each tracked type one identity at its registration
/// call site and never reuses it.
#[derive(Debug, Clone, Copy, PartialEq, Eq, Hash, Structural)]
pub struct TypeIdentity {
    id: u64,
}

impl View for TypeIdentity {
    type V = u64;

    closed spec fn view(&self) -> u64 {
        self.id
    }
}

impl TypeIdentity {
    /// Wraps a stable number chosen by the host as a type identity.
    pub fn new(id: u64) -> (r: Self)
        ensures
            r@ == id,
    {
        TypeIdentity { id }
    }
}

/// The error raised when statistics are updated for a type that was never
/// registered: a missing setup step, not a recoverable runtime condition.
#[derive(Debug, Clone, Copy, PartialEq, Eq, Structural)]
pub struct UnregisteredType;

/// Stores memory usage statistics for registered data types.
///
/// The registry is an explicit context object owned by the host's
/// top-level state; it lives for the lifetime of the process. Each entry
/// is replaced wholesale on every refresh, so a reader never observes a
/// torn value through this interface.
#[derive(Debug)]
pub struct MemoryUsage {
    table: HashMap<u64, MemoryStats>,
}

impl View for MemoryUsage {
    type V = Map<u64, MemoryStats>;

    closed spec fn view(&self) -> Map<u64, MemoryStats> {
        self.table@
    }
}

impl MemoryUsage {
    /// Creates an empty registry with no types registered.
    pub fn new() -> (r: Self)
        ensures
            r@ == Map::<u64, MemoryStats>::empty(),
    {
        MemoryUsage { table: HashMap::new() }
    }

    /// Registers the given type identity with the usage tracker.
    ///
    /// The entry starts out as the identity statistics. Re-registering an
    /// already-present identity resets its entry to the identity value.
    pub fn register_type(&mut self, id: TypeIdentity)
        ensures
            final(self)@ == old(self)@.insert(id@, MemoryStats::spec_identity()),
    {
        self.table.insert(id.id, MemoryStats::default());
    }

    /// Returns the most recent [`MemoryStats`] for the given type identity.
    ///
    /// Returns `None` iff the identity has never been registered; the query
    /// path never fabricates a value.
    pub fn get_stats(&self, id: TypeIdentity) -> (r: Option<MemoryStats>)
        ensures
            r == if self@.contains_key(id@) {
                Some(self@[id@])
            } else {
                None::<MemoryStats>
            },
    {
        match self.table.get(&id.id) {
            Some(stats) => Some(*stats),
            None => None,
        }
    }

    /// Replaces the [`MemoryStats`] for the given type identity wholesale.
    ///
    /// Fails with [`UnregisteredType`], leaving the registry unchanged, iff
    /// the identity was never registered.
    pub fn update_stats(&mut self, id: TypeIdentity, stats: MemoryStats) -> (r: Result<
        (),
        UnregisteredType,
    >)
        ensures
            match r {
                Ok(_) => old(self)@.contains_key(id@) && final(self)@ == old(self)@.insert(
                    id@,
                    stats,
                ),
                Err(_) => !old(self)@.contains_key(id@) && final(self)@ == old(self)@,
            },
    {
        if self.table.contains_key(&id.id) {
            self.table.insert(id.id, stats);
            Ok(())
        } else {
            Err(UnregisteredType)
        }
    }

    /// Like [`update_stats`][Self::update_stats], for the concurrent fast
    /// path: the refresh drivers are expected to invoke it concurrently for
    /// distinct registered types, or for the same type from two pipeline
    /// stages.
    ///
    /// The entry is replaced as one unit, so concurrent writers for
    /// distinct identities never corrupt each other's entries (see
    /// [`lemma_distinct_updates_no_interference`]); the host serializes
    /// access to the registry itself.
    pub fn update_stats_fast(&mut self, id: TypeIdentity, stats: MemoryStats) -> (r: Result<
        (),
        UnregisteredType,
    >)
        ensures
            match r {
                Ok(_) => old(self)@.contains_key(id@) && final(self)@ == old(self)@.insert(
                    id@,
                    stats,
                ),
                Err(_) => !old(self)@.contains_key(id@) && final(self)@ == old(self)@,
            },
    {
        if self.table.contains_key(&id.id) {
            self.table.insert(id.id, stats);
            Ok(())
        } else {
            Err(UnregisteredType)
        }
    }
}

impl Default for MemoryUsage {
    /// An empty registry.
    fn default() -> (r: Self)
        ensures
            r@ == Map::<u64, MemoryStats>::empty(),
    {
        MemoryUsage::new()
    }
}

/// Registration establishes the identity statistics: after registering an
/// identity, a query of that identity returns `{0, 0, 0}`.
pub proof fn lemma_register_then_get(m: Map<u64, MemoryStats>, id: u64)
    ensures
        m.insert(id, MemoryStats::spec_identity()).contains_key(id),
        m.insert(id, MemoryStats::spec_identity())[id] == MemoryStats::spec_identity(),
{
}

/// The effect of a sequence of wholesale updates, applied first to last.
pub open spec fn spec_apply_updates(
    m: Map<u64, MemoryStats>,
    updates: Seq<(u64, MemoryStats)>,
) -> Map<u64, MemoryStats>
    decreases updates.len(),
{
    if updates.len() == 0 {
        m
    } else {
        spec_apply_updates(m, updates.drop_last()).insert(updates.last().0, updates.last().1)
    }
}

/// Fast-path updates for distinct identities never interfere: after any
/// number of updates whose identities are pairwise distinct, each identity
/// holds exactly its own last-written value, in whatever order the updates
/// ran.
pub proof fn lemma_distinct_updates_no_interference(
    m: Map<u64, MemoryStats>,
    updates: Seq<(u64, MemoryStats)>,
    i: int,
)
    requires
        0 <= i < updates.len(),
        forall|j: int, k: int|
            0 <= j < k < updates.len() ==> (#[trigger] updates[j]).0 != (#[trigger] updates[k]).0,
    ensures
        spec_apply_updates(m, updates).contains_key(updates[i].0),
        spec_apply_updates(m, updates)[updates[i].0] == updates[i].1,
    decreases updates.len(),
{
    if i == updates.len() - 1 {
    } else {
        lemma_distinct_updates_no_interference(m, updates.drop_last(), i);
        assert(updates.drop_last()[i] == updates[i]);
        assert(updates.last().0 != updates[i].0);
    }
}

} // verus!
