//! Runtime heap-memory usage tracking for independently registered data types.
//!
//! Each tracked type is given an opaque [`TypeIdentity`][resource::TypeIdentity]
//! and an estimation strategy (a [`DataSizeEstimator`][estimator::DataSizeEstimator]).
//! Refresh drivers fold per-instance measurements into one
//! [`MemoryStats`][stats::MemoryStats] value per type and store it in the
//! [`MemoryUsage`][resource::MemoryUsage] registry, where it can be queried
//! while the application keeps running.

pub mod config;
pub mod estimator;
pub mod image;
pub mod mesh;
pub mod resource;
pub mod stats;
pub mod systems;

pub use config::MemoryConfig;
pub use estimator::DataSize;
pub use estimator::DataSizeEstimator;
pub use resource::MemoryUsage;
pub use stats::MemoryStats;
