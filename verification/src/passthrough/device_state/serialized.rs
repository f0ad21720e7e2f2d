//! The state of a file system as it is sent to the destination of a migration.

use vstd::prelude::*;

use crate::passthrough::device_state::preserialization::{
    LocationState, SerializableFileHandle,
};
use crate::passthrough::Handle as HandleId;

verus! {

/// The state, in one of the versions of its format.
#[derive(Debug)]
pub enum PassthroughFs {
    V1(PassthroughFsV1),
    V2(PassthroughFsV2),
}

/// Version 1 of the state.
#[derive(Debug)]
pub struct PassthroughFsV1 {
    /// The inodes that the guest knows.
    pub inodes: Vec<Inode>,
    /// The ID that the next new inode gets.
    pub next_inode: u64,
    /// What the guest has open.
    pub handles: Vec<Handle>,
    /// The ID that the next new handle gets.
    pub next_handle: HandleId,
    /// What was negotiated with the guest.
    pub negotiated_opts: NegotiatedOpts,
}

/// Version 2 of the state.
#[derive(Debug)]
pub struct PassthroughFsV2 {
    /// What version 1 has.
    pub v1: PassthroughFsV1,
}

/// What was negotiated with the guest.
#[derive(Clone, Copy, Debug, PartialEq, Eq, Structural)]
pub struct NegotiatedOpts {
    pub writeback: bool,
    pub announce_submounts: bool,
    pub posix_acl: bool,
    pub sup_group_extension: bool,
}

/// An inode that the guest knows.
#[derive(Debug)]
pub struct Inode {
    /// Its ID.
    pub id: u64,
    /// How many references there are to it.
    pub refcount: u64,
    /// Where to find it.
    pub location: InodeLocation,
    /// Its file handle, for the destination to compare.
    pub file_handle: Option<SerializableFileHandle>,
}

/// Where to find an inode.
#[derive(Debug)]
pub enum InodeLocation {
    /// It is the root of the shared directory.
    RootNode,
    /// It is in the directory `parent` under the name `filename`.
    Path { parent: u64, filename: String },
    /// It cannot be found.
    Invalid,
}

/// A file or directory that the guest has open.
#[derive(Clone, Copy, Debug, PartialEq, Eq, Structural)]
pub struct Handle {
    /// Its ID.
    pub id: HandleId,
    /// The inode that is open.
    pub inode: u64,
    /// How to open it.
    pub source: HandleSource,
}

/// How to open the inode of a handle.
#[derive(Clone, Copy, Debug, PartialEq, Eq, Structural)]
pub enum HandleSource {
    /// Open it with these flags.
    OpenInode { flags: i32 },
}

/// What a serialized inode says.
pub ghost struct SerializedInode {
    pub id: u64,
    pub refcount: u64,
    pub location: LocationState,
    pub file_handle: Option<Seq<u8>>,
}

/// What the state says.
pub ghost struct SerializedFs {
    pub inodes: Seq<SerializedInode>,
    pub next_inode: u64,
    pub handles: Seq<Handle>,
    pub next_handle: HandleId,
    pub negotiated_opts: NegotiatedOpts,
}

impl View for InodeLocation {
    type V = LocationState;

    open spec fn view(&self) -> LocationState {
        match *self {
            InodeLocation::RootNode => LocationState::RootNode,
            InodeLocation::Path { parent, filename } => LocationState::Path {
                parent,
                filename: filename@,
            },
            InodeLocation::Invalid => LocationState::Invalid,
        }
    }
}

impl View for Inode {
    type V = SerializedInode;

    open spec fn view(&self) -> SerializedInode {
        SerializedInode {
            id: self.id,
            refcount: self.refcount,
            location: self.location@,
            file_handle: crate::passthrough::device_state::preserialization::handle_bytes(
                self.file_handle,
            ),
        }
    }
}

impl View for PassthroughFsV1 {
    type V = SerializedFs;

    open spec fn view(&self) -> SerializedFs {
        SerializedFs {
            inodes: Seq::new(self.inodes@.len(), |i: int| self.inodes@[i]@),
            next_inode: self.next_inode,
            handles: self.handles@,
            next_handle: self.next_handle,
            negotiated_opts: self.negotiated_opts,
        }
    }
}

} // verus!
