//! Where spill files go, and the manager that creates them.

use datafusion_common::DataFusionError;
use datafusion_execution::disk_manager::{DiskManager, DiskManagerMode};
use std::path::PathBuf;
use vstd::prelude::*;

verus! {

/// A file-system path, carried through unread.
#[verifier::external_type_specification]
#[verifier::external_body]
pub struct ExPathBuf(PathBuf);

/// The manager that hands out uniquely named spill files and removes them
/// when it is dropped.
#[verifier::external_type_specification]
#[verifier::external_body]
pub struct ExDiskManager(DiskManager);

/// The error that setting up a disk manager can end in.
#[verifier::external_type_specification]
#[verifier::external_body]
pub struct ExDataFusionError(DataFusionError);

/// Where a disk manager puts its spill files.
pub enum SpillLocation {
    /// In a temporary directory that the operating system chooses.
    OsTemp,
    /// In the listed directories and nowhere else.
    Directories(Seq<PathBuf>),
}

/// Trusted: `PathBuf::clone` of std returns a path equal to the one it was
/// given.
pub assume_specification[ <PathBuf as Clone>::clone ](path: &PathBuf) -> (other: PathBuf)
    ensures
        other == *path,
;

/// How the disk manager of a runtime is to be set up.
pub enum DiskManagerConfig {
    /// Spill into a temporary directory that the operating system chooses.
    NewOs,
    /// Spill into exactly these directories.
    NewSpecified(Vec<PathBuf>),
}

impl View for DiskManagerConfig {
    type V = Option<Seq<PathBuf>>;

    /// The directories listed, where any are.
    open spec fn view(&self) -> Option<Seq<PathBuf>> {
        match self {
            DiskManagerConfig::NewOs => None,
            DiskManagerConfig::NewSpecified(paths) => Some(paths@),
        }
    }
}

impl DiskManagerConfig {
    /// Where a manager that is set up this way spills. An empty list
    /// restricts nothing: it leaves the choice to the operating system.
    pub open spec fn location(self) -> SpillLocation {
        match self {
            DiskManagerConfig::NewSpecified(paths) if paths@.len() > 0 => SpillLocation::Directories(
                paths@,
            ),
            _ => SpillLocation::OsTemp,
        }
    }

    /// The default: temporary directories managed by the operating system.
    pub fn new() -> (config: Self)
        ensures
            config == DiskManagerConfig::NewOs,
    {
        DiskManagerConfig::NewOs
    }

    /// Spill into exactly the directories in `paths`.
    pub fn new_specified(paths: Vec<PathBuf>) -> (config: Self)
        ensures
            config == DiskManagerConfig::NewSpecified(paths),
    {
        DiskManagerConfig::NewSpecified(paths)
    }
}

impl Clone for DiskManagerConfig {
    fn clone(&self) -> (other: Self)
        ensures
            other@ == self@,
    {
        match self {
            DiskManagerConfig::NewOs => DiskManagerConfig::NewOs,
            DiskManagerConfig::NewSpecified(paths) => {
                DiskManagerConfig::NewSpecified(paths.clone())
            },
        }
    }
}

/// The location that a disk manager was set up to spill into: every file
/// that it creates lies there.
pub uninterp spec fn spill_location(manager: DiskManager) -> SpillLocation;

/// Builds the disk manager that `config` describes.
///
/// Trusted: `DiskManagerBuilder::build` of datafusion-execution, reached
/// through `DiskManager::builder` and `with_mode`. For the operating
/// system's temporary directory, and for an empty list of directories, it
/// touches no file and always succeeds; the manager then spills into a
/// temporary directory of the operating system. For listed directories it
/// creates each one that is missing and one fresh directory inside each, and
/// fails when any of that fails; the manager that it then returns creates
/// its files inside those directories only.
#[verifier::external_body]
pub(crate) fn build_disk_manager(config: DiskManagerConfig) -> (built: Result<
    DiskManager,
    DataFusionError,
>)
    ensures
        config.location() is OsTemp ==> built is Ok,
        built matches Ok(manager) ==> spill_location(manager) == config.location(),
{
    let mode = match config {
        DiskManagerConfig::NewOs => DiskManagerMode::OsTmpDirectory,
        DiskManagerConfig::NewSpecified(paths) => DiskManagerMode::Directories(paths),
    };
    DiskManager::builder().with_mode(mode).build()
}

} // verus!
