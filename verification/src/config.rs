//! The options of a run.

use std::path::PathBuf;
use vstd::prelude::*;

verus! {

/// A path in the file system. The library carries paths; it never looks
/// inside one.
#[verifier::external_type_specification]
#[verifier::external_body]
pub struct ExPathBuf(PathBuf);

/// The number of resources of each kind, and of antagonists for each
/// resource, where nothing else is asked.
pub const DEFAULT_COUNT: usize = 4;

/// Command-line configuration options.
#[derive(Debug, PartialEq, Eq)]
pub struct Config {
    /// The number of test instances to create.
    pub num_test_instances: usize,
    /// The number of antagonist threads to create for each instance.
    pub threads_per_instance: usize,
    /// The number of test disks to create.
    pub num_test_disks: usize,
    /// The number of antagonist threads to create for each disk.
    pub threads_per_disk: usize,
    /// The number of test snapshots to create.
    pub num_test_snapshots: usize,
    /// If true, all antagonists of a snapshot use the same disk. If false,
    /// each of them uses a disk of its own.
    pub snapshots_use_same_disk: bool,
    /// The number of antagonist threads to create for each snapshot.
    pub threads_per_snapshot: usize,
    /// The URI of the control plane. If not set, the environment decides.
    pub host_uri: Option<String>,
    /// The directory in which to search for a `credentials.toml` file.
    pub credentials_toml_dir: Option<PathBuf>,
    /// The directory in which to search for a `hosts.toml` file.
    pub hosts_toml_dir: Option<PathBuf>,
    /// Halt the run if an error of the server-error class was seen.
    pub server_errors_fatal: bool,
}

impl Default for Config {
    /// Four resources of each kind, four antagonists for each, a disk of its
    /// own for every snapshot antagonist, server errors tolerated, and nothing
    /// said of the control plane or of where its credentials lie.
    fn default() -> (config: Config)
        ensures
            config.num_test_instances == DEFAULT_COUNT,
            config.threads_per_instance == DEFAULT_COUNT,
            config.num_test_disks == DEFAULT_COUNT,
            config.threads_per_disk == DEFAULT_COUNT,
            config.num_test_snapshots == DEFAULT_COUNT,
            config.threads_per_snapshot == DEFAULT_COUNT,
            !config.snapshots_use_same_disk,
            !config.server_errors_fatal,
            config.host_uri is None,
            config.credentials_toml_dir is None,
            config.hosts_toml_dir is None,
    {
        Config {
            num_test_instances: DEFAULT_COUNT,
            threads_per_instance: DEFAULT_COUNT,
            num_test_disks: DEFAULT_COUNT,
            threads_per_disk: DEFAULT_COUNT,
            num_test_snapshots: DEFAULT_COUNT,
            snapshots_use_same_disk: false,
            threads_per_snapshot: DEFAULT_COUNT,
            host_uri: None,
            credentials_toml_dir: None,
            hosts_toml_dir: None,
            server_errors_fatal: false,
        }
    }
}

} // verus!
