//! What is collected of inodes and handles before they are serialized.

pub mod proc_paths;

use vstd::prelude::*;

verus! {

/// Data that uniquely identifies a file or directory on a filesystem.
#[derive(Debug)]
pub struct SerializableFileHandle {
    pub bytes: Vec<u8>,
}

impl View for SerializableFileHandle {
    type V = Seq<u8>;

    open spec fn view(&self) -> Seq<u8> {
        self.bytes@
    }
}

impl Clone for SerializableFileHandle {
    fn clone(&self) -> (handle: Self)
        ensures
            handle@ == self@,
    {
        SerializableFileHandle { bytes: vstd::slice::slice_to_vec(self.bytes.as_slice()) }
    }
}

/// Where to find an inode: by name, below another one.
#[derive(Debug)]
pub struct InodePath {
    /// The inode of the directory.
    pub parent: u64,
    /// The name in that directory.
    pub filename: String,
}

/// Where to find an inode.
#[derive(Debug)]
pub enum InodeLocation {
    /// It is the root of the shared directory.
    RootNode,
    /// It has a path.
    Path(InodePath),
}

/// Where the destination of a migration can find an inode.
#[derive(Debug)]
pub struct InodeMigrationInfo {
    /// Where to find it.
    pub location: InodeLocation,
    /// Its file handle, if one was prepared.
    pub file_handle: Option<SerializableFileHandle>,
}

/// What the destination of a migration has to know to open an inode for a handle.
#[derive(Clone, Copy, Debug, PartialEq, Eq, Structural)]
pub enum HandleMigrationInfo {
    /// Open the inode with these flags.
    OpenInode { flags: i32 },
}

/// What is said of where to find an inode.
pub ghost enum LocationState {
    /// It is the root of the shared directory.
    RootNode,
    /// It is in the directory `parent` under the name `filename`.
    Path { parent: u64, filename: Seq<char> },
    /// It cannot be found.
    Invalid,
}

/// What an [`InodeMigrationInfo`] says.
pub ghost struct InfoState {
    pub location: LocationState,
    pub file_handle: Option<Seq<u8>>,
}

impl View for InodeLocation {
    type V = LocationState;

    open spec fn view(&self) -> LocationState {
        match *self {
            InodeLocation::RootNode => LocationState::RootNode,
            InodeLocation::Path(path) => LocationState::Path {
                parent: path.parent,
                filename: path.filename@,
            },
        }
    }
}

/// The bytes of a file handle, if there is one.
pub open spec fn handle_bytes(handle: Option<SerializableFileHandle>) -> Option<Seq<u8>> {
    match handle {
        Some(handle) => Some(handle@),
        None => None,
    }
}

impl View for InodeMigrationInfo {
    type V = InfoState;

    open spec fn view(&self) -> InfoState {
        InfoState { location: self.location@, file_handle: handle_bytes(self.file_handle) }
    }
}

} // verus!
