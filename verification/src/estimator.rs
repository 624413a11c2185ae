//! Heap size estimators.

use vstd::prelude::*;

use crate::config::MemoryConfig;
use crate::stats::sat_usize;

verus! {

/// A type that can describe its own heap usage.
///
/// `spec_heap_size` is the mathematical statement of the estimate;
/// `estimate_heap_size` computes exactly that value.
pub trait DataSize {
    /// The estimated number of heap bytes owned by `self`.
    spec fn spec_heap_size(&self) -> usize;

    /// Estimates the size of heap memory taken up by `self`.
    ///
    /// Does not include the bytes of the value's fixed in-memory
    /// representation.
    fn estimate_heap_size(&self) -> (r: usize)
        ensures
            r == self.spec_heap_size(),
    ;

    /// If `true`, the heap size can vary between values of the type at
    /// runtime. A documentation and optimization hint only; nothing relies
    /// on it for correctness.
    fn is_dynamic() -> bool;
}

/// Indicates that a type can estimate the heap usage of values of type `T`.
///
/// This trait exists so that an estimation strategy can be bound to a type
/// the strategy's author does not own.
pub trait DataSizeEstimator<T> {
    /// The estimate this strategy assigns to `value`.
    spec fn spec_heap_size_of(&self, value: T) -> usize;

    /// Estimates the size of heap memory taken up by the given value.
    ///
    /// Does not include data on the stack. An estimator never fails: it may
    /// under- or over-estimate, but it always returns a value.
    fn estimate_heap_size(&self, value: &T) -> (r: usize)
        ensures
            r == self.spec_heap_size_of(*value),
    ;

    /// If `true`, the type `T` has a heap size that can vary at runtime,
    /// depending on the actual value. A hint only, as in [`DataSize`].
    fn is_dynamic() -> bool;
}

/// A [`DataSizeEstimator`] that simply forwards to a type's implementation
/// of [`DataSize`].
pub struct ForwardingEstimator;

impl<T: DataSize> DataSizeEstimator<T> for ForwardingEstimator {
    open spec fn spec_heap_size_of(&self, value: T) -> usize {
        value.spec_heap_size()
    }

    fn estimate_heap_size(&self, value: &T) -> (r: usize) {
        value.estimate_heap_size()
    }

    fn is_dynamic() -> bool {
        T::is_dynamic()
    }
}

impl Default for ForwardingEstimator {
    fn default() -> (r: Self) {
        ForwardingEstimator
    }
}

/// A [`DataSizeEstimator`] that simply returns `0`, for types known to
/// carry no heap allocation.
pub struct ZeroEstimator;

impl<T> DataSizeEstimator<T> for ZeroEstimator {
    open spec fn spec_heap_size_of(&self, value: T) -> usize {
        0
    }

    fn estimate_heap_size(&self, value: &T) -> (r: usize) {
        0
    }

    fn is_dynamic() -> bool {
        false
    }
}

impl Default for ZeroEstimator {
    fn default() -> (r: Self) {
        ZeroEstimator
    }
}

/// A [`DataSizeEstimator`] that multiplies an element type's stack size by
/// the length of a vector of such elements: a cheap extrapolation that is
/// not exact if the elements themselves own heap data.
pub struct SliceEstimator;

impl<T> DataSizeEstimator<Vec<T>> for SliceEstimator {
    open spec fn spec_heap_size_of(&self, value: Vec<T>) -> usize {
        sat_usize(vstd::layout::size_of::<T>() * value@.len() as int)
    }

    fn estimate_heap_size(&self, value: &Vec<T>) -> (r: usize) {
        match core::mem::size_of::<T>().checked_mul(value.len()) {
            Some(total) => total,
            None => usize::MAX,
        }
    }

    fn is_dynamic() -> bool {
        true
    }
}

impl Default for SliceEstimator {
    fn default() -> (r: Self) {
        SliceEstimator
    }
}

/// Creates `Self` using data from the given [`MemoryConfig`].
///
/// Refresh drivers construct their estimator from the current
/// configuration once per cycle.
pub trait FromConfig: Sized {
    /// What the constructed value guarantees about its relation to the
    /// configuration it was built from.
    spec fn from_config_spec(config: MemoryConfig, r: Self) -> bool;

    /// Creates `Self` using data from the given [`MemoryConfig`].
    fn from_config(config: &MemoryConfig) -> (r: Self)
        ensures
            Self::from_config_spec(*config, r),
    ;
}

impl FromConfig for ForwardingEstimator {
    open spec fn from_config_spec(config: MemoryConfig, r: Self) -> bool {
        true
    }

    fn from_config(config: &MemoryConfig) -> (r: Self) {
        ForwardingEstimator
    }
}

impl FromConfig for ZeroEstimator {
    open spec fn from_config_spec(config: MemoryConfig, r: Self) -> bool {
        true
    }

    fn from_config(config: &MemoryConfig) -> (r: Self) {
        ZeroEstimator
    }
}

impl FromConfig for SliceEstimator {
    open spec fn from_config_spec(config: MemoryConfig, r: Self) -> bool {
        true
    }

    fn from_config(config: &MemoryConfig) -> (r: Self) {
        SliceEstimator
    }
}

} // verus!
