//! The statistics value: an associative, commutative aggregate of
//! instance count, stack bytes and heap bytes.

use vstd::prelude::*;
use vstd::seq_lib::commutative_foldl;
use vstd::seq_lib::lemma_fold_left_permutation;

use crate::estimator::DataSize;
use crate::estimator::DataSizeEstimator;
use crate::estimator::ForwardingEstimator;

verus! {

/// Clamps a mathematical sum into the `usize` range.
///
/// All aggregation in this crate saturates at `usize::MAX` instead of
/// overflowing: an aggregate must always produce a value, and saturation
/// keeps combination associative and commutative on the whole domain.
pub open spec fn sat_usize(x: int) -> usize {
    if x > usize::MAX {
        usize::MAX as usize
    } else {
        x as usize
    }
}

/// Saturation absorbs nested saturation: clamping an inner sum before an
/// outer one gives the same result as clamping the whole sum once.
pub proof fn lemma_sat_usize_absorb(a: int, b: int)
    requires
        0 <= a,
        0 <= b,
    ensures
        sat_usize(a + sat_usize(b)) == sat_usize(a + b),
        sat_usize(sat_usize(a) + b) == sat_usize(a + b),
{
}

/// Memory usage statistics for a single data type.
#[derive(Debug, Clone, Copy, PartialEq, Eq, Hash, Structural)]
pub struct MemoryStats {
    /// The total number of instances of this data type.
    pub count: usize,
    /// The total number of "stack" bytes used by instances of this data
    /// type: the bytes of their fixed in-memory representation.
    pub total_stack_bytes: usize,
    /// The estimated total number of heap bytes owned by instances of this
    /// data type, outside their fixed in-memory representation.
    pub total_heap_bytes: usize,
}

impl MemoryStats {
    /// The identity aggregate: no instances, no bytes.
    pub open spec fn spec_identity() -> MemoryStats {
        MemoryStats { count: 0, total_stack_bytes: 0, total_heap_bytes: 0 }
    }

    /// Field-wise saturating sum of two aggregates.
    pub open spec fn spec_combine(a: MemoryStats, b: MemoryStats) -> MemoryStats {
        MemoryStats {
            count: sat_usize(a.count + b.count),
            total_stack_bytes: sat_usize(a.total_stack_bytes + b.total_stack_bytes),
            total_heap_bytes: sat_usize(a.total_heap_bytes + b.total_heap_bytes),
        }
    }

    /// Returns the sum of `total_stack_bytes` and `total_heap_bytes` for
    /// `self`, saturating at `usize::MAX`.
    pub fn total_bytes(&self) -> (r: usize)
        ensures
            r == sat_usize(self.total_stack_bytes + self.total_heap_bytes),
    {
        self.total_stack_bytes.saturating_add(self.total_heap_bytes)
    }

    /// Combines two aggregates field by field.
    ///
    /// Combination is associative and commutative and has the identity
    /// value as its unit; see the `lemma_combine_*` proofs below.
    pub fn combine(self, rhs: MemoryStats) -> (r: MemoryStats)
        ensures
            r == Self::spec_combine(self, rhs),
    {
        MemoryStats {
            count: self.count.saturating_add(rhs.count),
            total_stack_bytes: self.total_stack_bytes.saturating_add(rhs.total_stack_bytes),
            total_heap_bytes: self.total_heap_bytes.saturating_add(rhs.total_heap_bytes),
        }
    }
}

/// The statistics of a single instance: one count, the instance's fixed
/// in-memory size as stack bytes, and the estimator's verdict as heap bytes.
pub open spec fn spec_from_value<T, E: DataSizeEstimator<T>>(value: T, e: E) -> MemoryStats {
    MemoryStats {
        count: 1,
        total_stack_bytes: sat_usize(vstd::layout::size_of::<T>() as int),
        total_heap_bytes: e.spec_heap_size_of(value),
    }
}

/// One folding step: combine an accumulator with one instance's statistics.
pub open spec fn spec_combine_step<T, E: DataSizeEstimator<T>>(e: E) -> spec_fn(
    MemoryStats,
    T,
) -> MemoryStats {
    |acc: MemoryStats, v: T| MemoryStats::spec_combine(acc, spec_from_value(v, e))
}

/// The statistics of a collection of instances: the fold-combine of
/// [`spec_from_value`] over each instance, starting from the identity.
pub open spec fn spec_from_values<T, E: DataSizeEstimator<T>>(values: Seq<T>, e: E) -> MemoryStats {
    values.fold_left(MemoryStats::spec_identity(), spec_combine_step(e))
}

impl MemoryStats {
    /// Returns the computed memory statistics for a single value.
    pub fn from_value<T: DataSize>(value: &T) -> (r: MemoryStats)
        ensures
            r == spec_from_value(*value, ForwardingEstimator),
    {
        Self::from_value_with_estimator(value, &ForwardingEstimator)
    }

    /// Returns the computed memory statistics for a single value using a
    /// specific [`DataSizeEstimator`].
    pub fn from_value_with_estimator<T, E: DataSizeEstimator<T>>(
        value: &T,
        estimator: &E,
    ) -> (r: MemoryStats)
        ensures
            r == spec_from_value(*value, *estimator),
    {
        MemoryStats {
            count: 1,
            total_stack_bytes: Self::stack_size_of(value),
            total_heap_bytes: Self::heap_size_of_with_estimator(value, estimator),
        }
    }

    /// Returns the computed memory statistics for a collection of values.
    pub fn from_values<T: DataSize>(values: &[T]) -> (r: MemoryStats)
        ensures
            r == spec_from_values(values@, ForwardingEstimator),
    {
        Self::from_values_with_estimator(values, &ForwardingEstimator)
    }

    /// Returns the computed memory statistics for a collection of values
    /// using a specific [`DataSizeEstimator`].
    pub fn from_values_with_estimator<T, E: DataSizeEstimator<T>>(
        values: &[T],
        estimator: &E,
    ) -> (r: MemoryStats)
        ensures
            r == spec_from_values(values@, *estimator),
    {
        let mut stats = MemoryStats::default();
        let mut i: usize = 0;
        while i < values.len()
            invariant
                i <= values@.len(),
                stats == spec_from_values(values@.take(i as int), *estimator),
            decreases values@.len() - i,
        {
            let one = Self::from_value_with_estimator(&values[i], estimator);
            proof {
                let s = values@;
                assert(s.take(i + 1).drop_last() =~= s.take(i as int));
                assert(s.take(i + 1).last() == s[i as int]);
            }
            stats = stats.combine(one);
            i = i + 1;
        }
        proof {
            assert(values@.take(values@.len() as int) =~= values@);
        }
        stats
    }

    /// Returns the "stack" size of the given value: the number of bytes the
    /// type takes up in its fixed in-memory representation.
    ///
    /// This quantity is exact.
    pub fn stack_size_of<T>(value: &T) -> (r: usize)
        ensures
            r as nat == vstd::layout::size_of::<T>(),
    {
        core::mem::size_of::<T>()
    }

    /// Returns the estimated heap size of the given value.
    pub fn heap_size_of<T: DataSize>(value: &T) -> (r: usize)
        ensures
            r == value.spec_heap_size(),
    {
        Self::heap_size_of_with_estimator(value, &ForwardingEstimator)
    }

    /// Returns the estimated heap size of the given value using a specific
    /// [`DataSizeEstimator`].
    pub fn heap_size_of_with_estimator<T, E: DataSizeEstimator<T>>(
        value: &T,
        estimator: &E,
    ) -> (r: usize)
        ensures
            r == estimator.spec_heap_size_of(*value),
    {
        estimator.estimate_heap_size(value)
    }

    /// Returns the estimated total size of the given value: the sum of its
    /// stack size and its estimated heap size.
    pub fn total_size_of<T: DataSize>(value: &T) -> (r: usize)
        ensures
            r == sat_usize(vstd::layout::size_of::<T>() + value.spec_heap_size()),
    {
        Self::total_size_of_with_estimator(value, &ForwardingEstimator)
    }

    /// Returns the estimated total size of the given value using a specific
    /// [`DataSizeEstimator`].
    pub fn total_size_of_with_estimator<T, E: DataSizeEstimator<T>>(
        value: &T,
        estimator: &E,
    ) -> (r: usize)
        ensures
            r == sat_usize(
                vstd::layout::size_of::<T>() + estimator.spec_heap_size_of(*value),
            ),
    {
        let stack = Self::stack_size_of(value);
        let heap = Self::heap_size_of_with_estimator(value, estimator);
        stack.saturating_add(heap)
    }
}

impl Default for MemoryStats {
    /// Returns the identity aggregate.
    fn default() -> (r: Self)
        ensures
            r == MemoryStats::spec_identity(),
    {
        MemoryStats { count: 0, total_stack_bytes: 0, total_heap_bytes: 0 }
    }
}

/// The identity value is a unit for combination: `combine(a, identity) == a`
/// and `combine(identity, a) == a`.
pub proof fn lemma_combine_identity(a: MemoryStats)
    ensures
        MemoryStats::spec_combine(a, MemoryStats::spec_identity()) == a,
        MemoryStats::spec_combine(MemoryStats::spec_identity(), a) == a,
{
}

/// Combination is commutative: `combine(a, b) == combine(b, a)`.
pub proof fn lemma_combine_commutative(a: MemoryStats, b: MemoryStats)
    ensures
        MemoryStats::spec_combine(a, b) == MemoryStats::spec_combine(b, a),
{
}

/// Combination is associative:
/// `combine(combine(a, b), c) == combine(a, combine(b, c))`.
pub proof fn lemma_combine_associative(a: MemoryStats, b: MemoryStats, c: MemoryStats)
    ensures
        MemoryStats::spec_combine(MemoryStats::spec_combine(a, b), c)
            == MemoryStats::spec_combine(a, MemoryStats::spec_combine(b, c)),
{
}

/// The folding step of [`spec_from_values`] is commutative, so folds may be
/// reordered freely.
pub proof fn lemma_combine_step_commutative<T, E: DataSizeEstimator<T>>(e: E)
    ensures
        commutative_foldl(spec_combine_step(e)),
{
    let f = spec_combine_step(e);
    assert forall|x: T, y: T, v: MemoryStats| #[trigger] f(f(v, x), y) == f(f(v, y), x) by {
        let a = spec_from_value(x, e);
        let b = spec_from_value(y, e);
        lemma_combine_associative(v, a, b);
        lemma_combine_associative(v, b, a);
        lemma_combine_commutative(a, b);
    }
}

/// Aggregation is independent of the iteration order: two collections
/// holding the same instances (as a multiset) fold to the same statistics.
pub proof fn lemma_from_values_permutation<T, E: DataSizeEstimator<T>>(s: Seq<T>, t: Seq<T>, e: E)
    requires
        s.to_multiset() == t.to_multiset(),
    ensures
        spec_from_values(s, e) == spec_from_values(t, e),
{
    lemma_combine_step_commutative::<T, E>(e);
    lemma_fold_left_permutation(s, t, spec_combine_step(e), MemoryStats::spec_identity());
}

/// Folding a collection onto an arbitrary accumulator is the same as
/// folding it from the identity and combining afterwards.
proof fn lemma_fold_from_accumulator<T, E: DataSizeEstimator<T>>(t: Seq<T>, acc: MemoryStats, e: E)
    ensures
        t.fold_left(acc, spec_combine_step(e))
            == MemoryStats::spec_combine(acc, spec_from_values(t, e)),
    decreases t.len(),
{
    if t.len() == 0 {
        lemma_combine_identity(acc);
    } else {
        let last = spec_from_value(t.last(), e);
        lemma_fold_from_accumulator(t.drop_last(), acc, e);
        lemma_combine_associative(acc, spec_from_values(t.drop_last(), e), last);
    }
}

/// Aggregation is independent of batching: the statistics of a
/// concatenation are the combination of the statistics of its parts.
pub proof fn lemma_from_values_concat<T, E: DataSizeEstimator<T>>(s: Seq<T>, t: Seq<T>, e: E)
    ensures
        spec_from_values(s + t, e)
            == MemoryStats::spec_combine(spec_from_values(s, e), spec_from_values(t, e)),
{
    let f = spec_combine_step(e);
    let whole = s + t;
    assert(whole.subrange(0, s.len() as int) =~= s);
    assert(whole.subrange(s.len() as int, whole.len() as int) =~= t);
    whole.lemma_fold_left_split(MemoryStats::spec_identity(), f, s.len() as int);
    lemma_fold_from_accumulator(t, spec_from_values(s, e), e);
}

} // verus!
