//! The runtime itself: a memory pool and a disk manager, resolved once and
//! shared from then on.

use crate::config::RuntimeConfig;
use crate::disk::{build_disk_manager, spill_location, SpillLocation};
use crate::pool::MemoryPoolHandle;
use crate::share::share;
use datafusion_common::DataFusionError;
use datafusion_execution::disk_manager::DiskManager;
use std::path::PathBuf;
use std::sync::Arc;
use vstd::prelude::*;

verus! {

/// The one failure of this layer: the disk manager could not be set up, so
/// no runtime was built.
#[derive(Debug)]
pub struct RuntimeInitError {
    /// What the disk manager reported.
    pub cause: DataFusionError,
}

/// The resources that every operator of a running plan shares: a memory pool
/// and a disk manager.
///
/// A runtime is built once and never changed afterwards: its fields are
/// private and no method assigns to them. Cloning it yields another handle
/// to the same pool and the same manager.
pub struct RuntimeEnv {
    memory_pool: MemoryPoolHandle,
    disk_manager: Arc<DiskManager>,
}

impl RuntimeEnv {
    /// The pool of this runtime.
    pub closed spec fn spec_memory_pool(&self) -> &MemoryPoolHandle {
        &self.memory_pool
    }

    /// The pool that reservations are accounted against.
    #[verifier::when_used_as_spec(spec_memory_pool)]
    pub fn memory_pool(&self) -> (pool: &MemoryPoolHandle)
        ensures
            pool == self.spec_memory_pool(),
    {
        &self.memory_pool
    }

    /// The disk manager of this runtime.
    pub closed spec fn spec_disk_manager(&self) -> &Arc<DiskManager> {
        &self.disk_manager
    }

    /// The manager of the files spilled during execution.
    #[verifier::when_used_as_spec(spec_disk_manager)]
    pub fn disk_manager(&self) -> (manager: &Arc<DiskManager>)
        ensures
            manager == self.spec_disk_manager(),
    {
        &self.disk_manager
    }

    /// Whether this runtime is what `config` asks for: the pool that the
    /// configuration chose, or one without a ceiling where it chose none, and
    /// a disk manager that spills where the configuration says.
    pub open spec fn realizes(self, config: RuntimeConfig) -> bool {
        &&& match config.memory_pool {
            Some(pool) => *self.memory_pool() == pool,
            None => self.memory_pool() is Unbounded,
        }
        &&& spill_location(**self.disk_manager()) == config.disk_manager.location()
    }

    /// Whether `built` is a possible outcome of building a runtime from
    /// `config`. A configuration that spills into the operating system's
    /// temporary directory cannot fail; whether another one fails is for the
    /// file system to decide.
    pub open spec fn builds(config: RuntimeConfig, built: Result<Self, RuntimeInitError>) -> bool {
        match built {
            Ok(env) => env.realizes(config),
            Err(_) => !(config.disk_manager.location() is OsTemp),
        }
    }

    /// Puts a runtime together from a resolved pool and the outcome of
    /// setting up the disk manager. All or nothing: where the disk manager
    /// failed, its error is passed on and the pool is dropped.
    pub fn from_parts(
        memory_pool: MemoryPoolHandle,
        disk_manager: Result<DiskManager, DataFusionError>,
    ) -> (built: Result<Self, RuntimeInitError>)
        ensures
            match disk_manager {
                Ok(manager) => built matches Ok(env) && *env.memory_pool() == memory_pool
                    && **env.disk_manager() == manager,
                Err(cause) => built matches Err(error) && error.cause == cause,
            },
    {
        match disk_manager {
            Ok(manager) => Ok(RuntimeEnv { memory_pool, disk_manager: Arc::new(manager) }),
            Err(cause) => Err(RuntimeInitError { cause }),
        }
    }

    /// Builds the runtime that `config` describes.
    ///
    /// The pool is the one that the configuration chose, or a fresh pool
    /// without a ceiling. The disk manager is set up as the configuration
    /// says, which may fail; then no runtime is returned.
    pub fn new(config: RuntimeConfig) -> (built: Result<Self, RuntimeInitError>)
        ensures
            Self::builds(config, built),
    {
        let RuntimeConfig { memory_pool, disk_manager } = config;
        let memory_pool = match memory_pool {
            Some(pool) => pool,
            None => MemoryPoolHandle::unbounded(),
        };
        Self::from_parts(memory_pool, build_disk_manager(disk_manager))
    }

    /// The fixed text by which a runtime shows itself in logs. It tells
    /// nothing of the pool or of the manager.
    pub fn label(&self) -> (text: String)
        ensures
            text@ == "RuntimeEnv"@,
    {
        "RuntimeEnv".to_owned()
    }
}

/// The default configuration always builds, and what it builds has a pool
/// without a ceiling and spills into the temporary directory of the
/// operating system.
pub proof fn default_configuration_builds(built: Result<RuntimeEnv, RuntimeInitError>)
    requires
        RuntimeEnv::builds(RuntimeConfig::new(), built),
    ensures
        built matches Ok(env) && env.memory_pool() is Unbounded && env.memory_pool().ceiling() is None
            && spill_location(**env.disk_manager()) == SpillLocation::OsTemp,
{
}

/// A runtime built after `with_temp_file_path` keeps the pool choice made
/// before and spills into one directory only: the one that the path given
/// converts into.
pub proof fn temp_file_path_restricts<P: Into<PathBuf>>(
    before: RuntimeConfig,
    path: P,
    config: RuntimeConfig,
    env: RuntimeEnv,
)
    requires
        call_ensures(RuntimeConfig::with_temp_file_path::<P>, (before, path), config),
        RuntimeEnv::builds(config, Ok(env)),
    ensures
        before.memory_pool matches Some(pool) ==> *env.memory_pool() == pool,
        before.memory_pool is None ==> env.memory_pool() is Unbounded,
        spill_location(**env.disk_manager()) matches SpillLocation::Directories(directories)
            && directories.len() == 1
            && call_ensures(P::into, (path,), directories[0]),
{
}

impl Default for RuntimeEnv {
    /// The runtime of the default configuration, which cannot fail to build.
    fn default() -> (env: Self)
        ensures
            Self::builds(RuntimeConfig::new(), Ok(env)),
    {
        RuntimeEnv::new(RuntimeConfig::new()).unwrap()
    }
}

impl Clone for RuntimeEnv {
    /// Another handle to the same pool and the same disk manager.
    fn clone(&self) -> (other: Self)
        ensures
            other == *self,
    {
        RuntimeEnv {
            memory_pool: self.memory_pool.clone(),
            disk_manager: share(&self.disk_manager),
        }
    }
}

} // verus!
