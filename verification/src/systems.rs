//! Refresh drivers: per-cycle adapters that measure the live instances of
//! one tracked type and write the folded statistics into the registry.
//!
//! The host scheduler invokes each driver once per cycle and supplies the
//! instances; the drivers themselves never block or retry. A skipped cycle
//! (tracking disabled) leaves the registry untouched.

use vstd::prelude::*;

use crate::config::MemoryConfig;
use crate::estimator::DataSizeEstimator;
use crate::estimator::FromConfig;
use crate::resource::MemoryUsage;
use crate::resource::TypeIdentity;
use crate::resource::UnregisteredType;
use crate::stats::spec_from_value;
use crate::stats::spec_from_values;
use crate::stats::MemoryStats;

verus! {

/// A helper to update the statistics of one type using a closure.
///
/// Checks the [`MemoryConfig`] first: with tracking disabled the closure is
/// never run and the registry is left unchanged. Otherwise the closure's
/// result is written through the concurrent fast path, which fails iff the
/// identity was never registered.
pub fn update_stats<F: FnOnce() -> MemoryStats>(
    memory_config: &MemoryConfig,
    memory_usage: &mut MemoryUsage,
    id: TypeIdentity,
    op: F,
) -> (r: Result<(), UnregisteredType>)
    requires
        memory_config.global ==> call_requires(op, ()),
    ensures
        !memory_config.global ==> r is Ok && final(memory_usage)@ == old(memory_usage)@,
        memory_config.global ==> match r {
            Ok(_) => exists|s: MemoryStats|
                #[trigger] call_ensures(op, (), s) && old(memory_usage)@.contains_key(id@)
                    && final(memory_usage)@ == old(memory_usage)@.insert(id@, s),
            Err(_) => !old(memory_usage)@.contains_key(id@) && final(memory_usage)@ == old(
                memory_usage,
            )@,
        },
{
    if !memory_config.global {
        return Ok(());
    }

    let stats = op();
    memory_usage.update_stats_fast(id, stats)
}

/// This driver updates the statistics for a component type `T`, measured
/// over all its live instances with the estimator type `E` constructed
/// from the current configuration.
pub fn update_stats_for_component<T, E: DataSizeEstimator<T> + FromConfig>(
    instances: &[T],
    memory_config: &MemoryConfig,
    memory_usage: &mut MemoryUsage,
    id: TypeIdentity,
) -> (r: Result<(), UnregisteredType>)
    ensures
        !memory_config.global ==> r is Ok && final(memory_usage)@ == old(memory_usage)@,
        memory_config.global ==> match r {
            Ok(_) => exists|e: E|
                #[trigger] E::from_config_spec(*memory_config, e) && old(
                    memory_usage,
                )@.contains_key(id@) && final(memory_usage)@ == old(memory_usage)@.insert(
                    id@,
                    spec_from_values(instances@, e),
                ),
            Err(_) => !old(memory_usage)@.contains_key(id@) && final(memory_usage)@ == old(
                memory_usage,
            )@,
        },
{
    let estimator = E::from_config(memory_config);
    let op = (|| -> (s: MemoryStats)
        ensures
            s == spec_from_values(instances@, estimator),
        { MemoryStats::from_values_with_estimator(instances, &estimator) });
    let ghost op_snapshot = op;
    let r = update_stats(memory_config, memory_usage, id, op);
    proof {
        if memory_config.global && r is Ok {
            let s = choose|s: MemoryStats|
                call_ensures(op_snapshot, (), s) && memory_usage@ == old(memory_usage)@.insert(
                    id@,
                    s,
                );
            assert(E::from_config_spec(*memory_config, estimator));
            assert(memory_usage@ == old(memory_usage)@.insert(
                id@,
                spec_from_values(instances@, estimator),
            ));
        }
    }
    r
}

/// This driver updates the statistics for a resource type `T`: a type with
/// a single live instance, measured with the estimator type `E`
/// constructed from the current configuration.
pub fn update_stats_for_resource<T, E: DataSizeEstimator<T> + FromConfig>(
    resource: &T,
    memory_config: &MemoryConfig,
    memory_usage: &mut MemoryUsage,
    id: TypeIdentity,
) -> (r: Result<(), UnregisteredType>)
    ensures
        !memory_config.global ==> r is Ok && final(memory_usage)@ == old(memory_usage)@,
        memory_config.global ==> match r {
            Ok(_) => exists|e: E|
                #[trigger] E::from_config_spec(*memory_config, e) && old(
                    memory_usage,
                )@.contains_key(id@) && final(memory_usage)@ == old(memory_usage)@.insert(
                    id@,
                    spec_from_value(*resource, e),
                ),
            Err(_) => !old(memory_usage)@.contains_key(id@) && final(memory_usage)@ == old(
                memory_usage,
            )@,
        },
{
    let estimator = E::from_config(memory_config);
    let op = (|| -> (s: MemoryStats)
        ensures
            s == spec_from_value(*resource, estimator),
        { MemoryStats::from_value_with_estimator(resource, &estimator) });
    let ghost op_snapshot = op;
    let r = update_stats(memory_config, memory_usage, id, op);
    proof {
        if memory_config.global && r is Ok {
            let s = choose|s: MemoryStats|
                call_ensures(op_snapshot, (), s) && memory_usage@ == old(memory_usage)@.insert(
                    id@,
                    s,
                );
            assert(E::from_config_spec(*memory_config, estimator));
            assert(memory_usage@ == old(memory_usage)@.insert(
                id@,
                spec_from_value(*resource, estimator),
            ));
        }
    }
    r
}

/// This driver updates the statistics for an asset type `T`, measured over
/// all live assets of that type.
pub fn update_stats_for_asset<T, E: DataSizeEstimator<T> + FromConfig>(
    assets: &[T],
    memory_config: &MemoryConfig,
    memory_usage: &mut MemoryUsage,
    id: TypeIdentity,
) -> (r: Result<(), UnregisteredType>)
    ensures
        !memory_config.global ==> r is Ok && final(memory_usage)@ == old(memory_usage)@,
        memory_config.global ==> match r {
            Ok(_) => exists|e: E|
                #[trigger] E::from_config_spec(*memory_config, e) && old(
                    memory_usage,
                )@.contains_key(id@) && final(memory_usage)@ == old(memory_usage)@.insert(
                    id@,
                    spec_from_values(assets@, e),
                ),
            Err(_) => !old(memory_usage)@.contains_key(id@) && final(memory_usage)@ == old(
                memory_usage,
            )@,
        },
{
    update_stats_for_component::<T, E>(assets, memory_config, memory_usage, id)
}

/// This driver updates the statistics for the prepared counterparts of a
/// dual-stage resource: the instances live in a second pipeline context,
/// to which the host copies the configuration once per cycle before the
/// driver runs.
pub fn update_stats_for_render_asset<T, E: DataSizeEstimator<T> + FromConfig>(
    prepared_assets: &[T],
    memory_config: &MemoryConfig,
    memory_usage: &mut MemoryUsage,
    id: TypeIdentity,
) -> (r: Result<(), UnregisteredType>)
    ensures
        !memory_config.global ==> r is Ok && final(memory_usage)@ == old(memory_usage)@,
        memory_config.global ==> match r {
            Ok(_) => exists|e: E|
                #[trigger] E::from_config_spec(*memory_config, e) && old(
                    memory_usage,
                )@.contains_key(id@) && final(memory_usage)@ == old(memory_usage)@.insert(
                    id@,
                    spec_from_values(prepared_assets@, e),
                ),
            Err(_) => !old(memory_usage)@.contains_key(id@) && final(memory_usage)@ == old(
                memory_usage,
            )@,
        },
{
    update_stats_for_component::<T, E>(prepared_assets, memory_config, memory_usage, id)
}

} // verus!
