//! A file system that passes requests through to a directory of the host.

pub mod device_state;
mod host;
pub mod inode_store;
pub mod macos;
pub mod util;

use vstd::prelude::*;

use device_state::preserialization::HandleMigrationInfo;
use inode_store::InodeStore;

verus! {

/// Identifies a file or directory that the guest has open.
pub type Handle = u64;

/// How the destination of a migration is told where to find an inode.
#[derive(Clone, Copy, Debug, PartialEq, Eq, Structural)]
pub enum MigrationMode {
    /// By its path in the shared directory.
    FindPaths,
    /// By its file handle.
    FileHandles,
}

/// The settings of a file system that matter to its migration.
#[derive(Clone, Copy, Debug, PartialEq, Eq, Structural)]
pub struct Config {
    /// How the destination is told where to find an inode.
    pub migration_mode: MigrationMode,
    /// Whether collected paths are double-checked right before they are sent.
    pub migration_confirm_paths: bool,
    /// Whether file handles are sent along for the destination to compare.
    pub migration_verify_handles: bool,
}

/// A file or directory that the guest has open.
#[derive(Clone, Copy, Debug, PartialEq, Eq, Structural)]
pub struct HandleData {
    /// The inode that is open.
    pub inode: u64,
    /// What the destination of a migration has to know to open it.
    pub migration_info: HandleMigrationInfo,
}

/// The state of a file system, as far as it is migrated.
#[derive(Debug)]
pub struct PassthroughFs {
    /// The inodes that the guest knows.
    pub inodes: InodeStore,
    /// The ID that the next new inode gets.
    pub next_inode: u64,
    /// What the guest has open.
    pub handles: Vec<(Handle, HandleData)>,
    /// The ID that the next new handle gets.
    pub next_handle: Handle,
    /// Whether the guest caches writes.
    pub writeback: bool,
    /// Whether the guest is told about mount points in the shared directory.
    pub announce_submounts: bool,
    /// Whether the guest uses POSIX ACLs.
    pub posix_acl: bool,
    /// Whether the guest sends supplementary groups.
    pub sup_group_extension: bool,
    /// Whether every inode is supposed to have up-to-date migration information.
    pub track_migration_info: bool,
    /// The settings.
    pub cfg: Config,
}

} // verus!
