//! The configuration from which a runtime is built.

use crate::disk::DiskManagerConfig;
use crate::pool::MemoryPoolHandle;
use std::path::PathBuf;
use vstd::prelude::*;

verus! {

/// The resource policies wanted of a runtime, collected before anything is
/// built.
///
/// A plain value: each `with_` method consumes the configuration and returns
/// one that differs in a single field.
pub struct RuntimeConfig {
    /// How the disk manager is to be set up.
    pub disk_manager: DiskManagerConfig,
    /// The memory pool to use; `None` asks for the default, a pool without a
    /// ceiling.
    pub memory_pool: Option<MemoryPoolHandle>,
}

impl RuntimeConfig {
    /// The default configuration.
    pub open spec fn spec_new() -> Self {
        RuntimeConfig { disk_manager: DiskManagerConfig::NewOs, memory_pool: None }
    }

    /// The default configuration: spill files go to a temporary directory of
    /// the operating system, and no memory pool is chosen.
    #[verifier::when_used_as_spec(spec_new)]
    pub fn new() -> (config: Self)
        ensures
            config == Self::spec_new(),
    {
        RuntimeConfig { disk_manager: DiskManagerConfig::new(), memory_pool: None }
    }

    /// This configuration with `disk_manager` in place of its disk manager
    /// setting.
    pub open spec fn spec_with_disk_manager(self, disk_manager: DiskManagerConfig) -> Self {
        RuntimeConfig { disk_manager, memory_pool: self.memory_pool }
    }

    /// Replaces the disk manager setting.
    #[verifier::when_used_as_spec(spec_with_disk_manager)]
    pub fn with_disk_manager(self, disk_manager: DiskManagerConfig) -> (config: Self)
        ensures
            config == self.spec_with_disk_manager(disk_manager),
    {
        RuntimeConfig { disk_manager, memory_pool: self.memory_pool }
    }

    /// This configuration with `memory_pool` as its chosen pool.
    pub open spec fn spec_with_memory_pool(self, memory_pool: MemoryPoolHandle) -> Self {
        RuntimeConfig { disk_manager: self.disk_manager, memory_pool: Some(memory_pool) }
    }

    /// Chooses the memory pool, in place of the default and of any pool
    /// chosen before.
    #[verifier::when_used_as_spec(spec_with_memory_pool)]
    pub fn with_memory_pool(self, memory_pool: MemoryPoolHandle) -> (config: Self)
        ensures
            config == self.spec_with_memory_pool(memory_pool),
    {
        RuntimeConfig { disk_manager: self.disk_manager, memory_pool: Some(memory_pool) }
    }

    /// Whether `self` is `before` with a greedy pool of `pool_size` bytes
    /// chosen.
    pub open spec fn limits(self, before: Self, pool_size: usize) -> bool {
        &&& self.disk_manager == before.disk_manager
        &&& self.memory_pool matches Some(pool)
        &&& pool.ceiling() == Some(pool_size)
    }

    /// Chooses a fresh greedy pool that holds at most `pool_size` bytes, in
    /// place of the default and of any pool chosen before.
    ///
    /// No size is refused: a `pool_size` of zero gives a pool that grants
    /// nothing.
    pub fn with_memory_limit(self, pool_size: usize) -> (config: Self)
        ensures
            config.limits(self, pool_size),
    {
        self.with_memory_pool(MemoryPoolHandle::greedy(pool_size))
    }

    /// Restricts spilling to one directory: the one that `path` converts
    /// into. Shorthand for setting the disk manager to a list of that single
    /// directory.
    pub fn with_temp_file_path<P: Into<PathBuf>>(self, path: P) -> (config: Self)
        ensures
            config.memory_pool == self.memory_pool,
            config.disk_manager@ matches Some(directories)
                && directories.len() == 1
                && call_ensures(P::into, (path,), directories[0]),
    {
        let mut paths: Vec<PathBuf> = Vec::new();
        paths.push(path.into());
        self.with_disk_manager(DiskManagerConfig::new_specified(paths))
    }
}

/// Setting the disk manager twice keeps the second setting only.
pub proof fn last_disk_manager_wins(
    config: RuntimeConfig,
    first: DiskManagerConfig,
    second: DiskManagerConfig,
)
    ensures
        config.with_disk_manager(first).with_disk_manager(second) == config.with_disk_manager(
            second,
        ),
{
}

/// Choosing the memory pool twice keeps the second choice only.
pub proof fn last_memory_pool_wins(
    config: RuntimeConfig,
    first: MemoryPoolHandle,
    second: MemoryPoolHandle,
)
    ensures
        config.with_memory_pool(first).with_memory_pool(second) == config.with_memory_pool(second),
{
}

/// Limiting the memory twice keeps the second limit only.
pub proof fn last_memory_limit_wins(
    config: RuntimeConfig,
    first: usize,
    once: RuntimeConfig,
    second: usize,
    twice: RuntimeConfig,
)
    requires
        once.limits(config, first),
        twice.limits(once, second),
    ensures
        twice.limits(config, second),
{
}

/// A memory limit replaces a pool chosen before it.
pub proof fn memory_limit_replaces_pool(
    config: RuntimeConfig,
    pool: MemoryPoolHandle,
    pool_size: usize,
    limited: RuntimeConfig,
)
    requires
        limited.limits(config.with_memory_pool(pool), pool_size),
    ensures
        limited.limits(config, pool_size),
{
}

/// A pool chosen after a memory limit replaces the limit.
pub proof fn memory_pool_replaces_limit(
    config: RuntimeConfig,
    pool_size: usize,
    limited: RuntimeConfig,
    pool: MemoryPoolHandle,
)
    requires
        limited.limits(config, pool_size),
    ensures
        limited.with_memory_pool(pool) == config.with_memory_pool(pool),
{
}

impl Clone for RuntimeConfig {
    /// A configuration that lists the same directories and shares the chosen
    /// pool.
    fn clone(&self) -> (other: Self)
        ensures
            other.disk_manager@ == self.disk_manager@,
            other.memory_pool == self.memory_pool,
    {
        RuntimeConfig {
            disk_manager: self.disk_manager.clone(),
            memory_pool: match &self.memory_pool {
                Some(pool) => Some(pool.clone()),
                None => None,
            },
        }
    }
}

impl Default for RuntimeConfig {
    fn default() -> (config: Self)
        ensures
            config == RuntimeConfig::new(),
    {
        RuntimeConfig::new()
    }
}

} // verus!
