//! The shared runtime context of a query engine: a memory-accounting pool
//! and a manager of temporary spill files, assembled from a declarative
//! configuration.
//!
//! [`RuntimeConfig`] collects the wanted policies; [`RuntimeEnv::new`]
//! resolves them once into a [`RuntimeEnv`], which is then shared, never
//! copied, by everything that executes.

pub mod config;
pub mod disk;
pub mod env;
pub mod pool;
mod share;

pub use config::RuntimeConfig;
pub use disk::{DiskManagerConfig, SpillLocation};
pub use env::{RuntimeEnv, RuntimeInitError};
pub use pool::MemoryPoolHandle;
