//! Turning the state of a file system, with what was collected for its migration, into what is sent
//! to the destination.

use vstd::prelude::*;

use crate::passthrough::device_state::preserialization::{
    HandleMigrationInfo, InodeLocation, InodeMigrationInfo, LocationState, SerializableFileHandle,
};
use crate::passthrough::device_state::serialized;
use crate::passthrough::inode_store::{
    InodeData, InodeError, InodeErrorView, InodeState, InodeStore, ROOT_ID,
};
use crate::passthrough::{Handle, HandleData, PassthroughFs};
use crate::util::{other_io_error, IoError, IoErrorView};

verus! {

/// The root node, and only the root node, has its special kind of placeholder info, if it has any.
pub open spec fn root_is_marked(inode: InodeState) -> bool {
    inode.info matches Some(info) ==> ((inode.inode == ROOT_ID) == (info.location
        is RootNode))
}

/// The root node, and only the root node, has its special kind of placeholder info, if it has any.
pub open spec fn roots_are_marked(inodes: Seq<InodeState>) -> bool {
    forall|i: int| 0 <= i < inodes.len() ==> root_is_marked(#[trigger] inodes[i])
}

/// Whether the root node, and only the root node, has its special kind of placeholder info.
pub fn check_root_marks(store: &InodeStore) -> (marked: bool)
    ensures
        marked == roots_are_marked(store@),
{
    let mut i: usize = 0;
    while i < store.inodes.len()
        invariant
            i <= store.inodes@.len(),
            forall|j: int| 0 <= j < i ==> root_is_marked(#[trigger] store@[j]),
        decreases store.inodes@.len() - i,
    {
        let inode: &InodeData = &store.inodes[i];
        if let Some(info) = &inode.migration_info {
            let at_root: bool = match &info.location {
                InodeLocation::RootNode => true,
                InodeLocation::Path(_) => false,
            };
            if at_root != (inode.inode == ROOT_ID) {
                assert(!root_is_marked(store@[i as int]));
                return false;
            }
        }
        assert(root_is_marked(store@[i as int]));
        i += 1;
    }
    true
}

/// What is sent of an inode, or why nothing can be: its location has to be known, and its file
/// handle too, if handles are to be verified.
pub open spec fn inode_as_serialized(inode: InodeState, verify_handles: bool) -> Result<
    serialized::SerializedInode,
    IoErrorView,
> {
    match inode.info {
        None => Err(IoErrorView::Other("Failed to reconstruct inode location"@)),
        Some(info) => if verify_handles && info.file_handle is None {
            Err(IoErrorView::Other("No prepared file handle found"@))
        } else {
            Ok(
                serialized::SerializedInode {
                    id: inode.inode,
                    refcount: inode.refcount,
                    location: info.location,
                    file_handle: if verify_handles {
                        info.file_handle
                    } else {
                        None
                    },
                },
            )
        },
    }
}

/// What is sent of an inode in any case: one of which the destination cannot be told where to find
/// it is marked as invalid.
pub open spec fn inode_or_invalid(
    inode: InodeState,
    verify_handles: bool,
) -> serialized::SerializedInode {
    match inode_as_serialized(inode, verify_handles) {
        Ok(sent) => sent,
        Err(_) => serialized::SerializedInode {
            id: inode.inode,
            refcount: inode.refcount,
            location: LocationState::Invalid,
            file_handle: None,
        },
    }
}

/// Why inodes are marked as invalid, for each that is, in order.
pub open spec fn invalid_inodes(inodes: Seq<InodeState>, verify_handles: bool) -> Seq<
    InodeErrorView,
>
    decreases inodes.len(),
{
    if inodes.len() == 0 {
        seq![]
    } else {
        let before = invalid_inodes(inodes.drop_last(), verify_handles);
        match inode_as_serialized(inodes.last(), verify_handles) {
            Ok(_) => before,
            Err(err) => before.push(InodeErrorView { inode: inodes.last().inode, error: err }),
        }
    }
}

/// What is sent of a handle.
pub open spec fn handle_as_serialized(handle: (Handle, HandleData)) -> serialized::Handle {
    serialized::Handle {
        id: handle.0,
        inode: handle.1.inode,
        source: handle_source(handle.1.migration_info),
    }
}

/// How the inode of a handle is to be opened.
pub open spec fn handle_source(info: HandleMigrationInfo) -> serialized::HandleSource {
    match info {
        HandleMigrationInfo::OpenInode { flags } => serialized::HandleSource::OpenInode { flags },
    }
}

/// What was negotiated with the guest.
pub open spec fn negotiated_opts(fs: PassthroughFs) -> serialized::NegotiatedOpts {
    serialized::NegotiatedOpts {
        writeback: fs.writeback,
        announce_submounts: fs.announce_submounts,
        posix_acl: fs.posix_acl,
        sup_group_extension: fs.sup_group_extension,
    }
}

/// What is sent of a file system.
pub open spec fn fs_as_serialized(fs: PassthroughFs) -> serialized::SerializedFs {
    serialized::SerializedFs {
        inodes: fs.inodes@.map_values(
            |inode: InodeState| inode_or_invalid(inode, fs.cfg.migration_verify_handles),
        ),
        next_inode: fs.next_inode,
        handles: fs.handles@.map_values(
            |handle: (Handle, HandleData)| handle_as_serialized(handle),
        ),
        next_handle: fs.next_handle,
        negotiated_opts: negotiated_opts(fs),
    }
}

impl<'a> vstd::std_specs::convert::FromSpecImpl<&'a PassthroughFs> for serialized::NegotiatedOpts {
    open spec fn obeys_from_spec() -> bool {
        true
    }

    open spec fn from_spec(fs: &'a PassthroughFs) -> serialized::NegotiatedOpts {
        negotiated_opts(*fs)
    }
}

impl<'a> From<&'a PassthroughFs> for serialized::NegotiatedOpts {
    /// Serialize the options we have negotiated with the guest.
    fn from(fs: &'a PassthroughFs) -> (opts: serialized::NegotiatedOpts) {
        serialized::NegotiatedOpts {
            writeback: fs.writeback,
            announce_submounts: fs.announce_submounts,
            posix_acl: fs.posix_acl,
            sup_group_extension: fs.sup_group_extension,
        }
    }
}

impl<'a> vstd::std_specs::convert::FromSpecImpl<&'a HandleMigrationInfo> for serialized::HandleSource {
    open spec fn obeys_from_spec() -> bool {
        true
    }

    open spec fn from_spec(info: &'a HandleMigrationInfo) -> serialized::HandleSource {
        handle_source(*info)
    }
}

impl<'a> From<&'a HandleMigrationInfo> for serialized::HandleSource {
    /// Helper for serializing handles: turn their prepared migration info into what is sent.
    fn from(info: &'a HandleMigrationInfo) -> (source: serialized::HandleSource) {
        match *info {
            HandleMigrationInfo::OpenInode { flags } => serialized::HandleSource::OpenInode {
                flags,
            },
        }
    }
}

impl<'a> vstd::std_specs::convert::FromSpecImpl<(Handle, &'a HandleData)> for serialized::Handle {
    open spec fn obeys_from_spec() -> bool {
        true
    }

    open spec fn from_spec(handle: (Handle, &'a HandleData)) -> serialized::Handle {
        handle_as_serialized((handle.0, *handle.1))
    }
}

impl<'a> From<(Handle, &'a HandleData)> for serialized::Handle {
    /// Serialize a handle.
    ///
    /// A handle is identified by the inode to which it belongs, and instructions on how to open
    /// that inode; whether this instance could open it makes no difference.
    fn from(handle: (Handle, &'a HandleData)) -> (sent: serialized::Handle) {
        serialized::Handle {
            id: handle.0,
            inode: handle.1.inode,
            source: serialized::HandleSource::from(&handle.1.migration_info),
        }
    }
}

impl InodeMigrationInfo {
    /// Helper for serializing inodes: turn their prepared location into what is sent.
    pub fn as_serialized(&self) -> (location: Result<serialized::InodeLocation, IoError>)
        ensures
            location matches Ok(sent) && sent@ == self@.location,
    {
        Ok(
            match &self.location {
                InodeLocation::RootNode => serialized::InodeLocation::RootNode,
                InodeLocation::Path(path) => serialized::InodeLocation::Path {
                    parent: path.parent,
                    filename: path.filename.clone(),
                },
            },
        )
    }
}

impl InodeData {
    /// Serialize an inode, which requires that its migration info is set.
    pub fn as_serialized(&self, fs: &PassthroughFs) -> (sent: Result<serialized::Inode, IoError>)
        requires
            root_is_marked(self@),
        ensures
            match inode_as_serialized(self@, fs.cfg.migration_verify_handles) {
                Ok(expected) => sent matches Ok(inode) && inode@ == expected,
                Err(expected) => sent matches Err(err) && err@ == expected,
            },
    {
        let migration_info: &InodeMigrationInfo = match &self.migration_info {
            None => return Err(other_io_error("Failed to reconstruct inode location")),
            Some(info) => info,
        };
        let location: serialized::InodeLocation = match migration_info.as_serialized() {
            Err(err) => return Err(err),
            Ok(location) => location,
        };
        let file_handle: Option<SerializableFileHandle> = if fs.cfg.migration_verify_handles {
            match &migration_info.file_handle {
                None => return Err(other_io_error("No prepared file handle found")),
                Some(handle) => Some(handle.clone()),
            }
        } else {
            None
        };
        Ok(
            serialized::Inode {
                id: self.inode,
                refcount: self.refcount,
                location,
                file_handle,
            },
        )
    }
}

impl serialized::PassthroughFsV1 {
    /// Serialize `fs`, assuming it has been prepared for serialization.  An inode whose migration
    /// info is not set is marked as invalid.
    pub fn try_from(fs: &PassthroughFs) -> (state: Result<serialized::PassthroughFsV1, IoError>)
        requires
            roots_are_marked(fs.inodes@),
        ensures
            state matches Ok(sent) && sent@ == fs_as_serialized(*fs),
    {
        Ok(serialized::PassthroughFsV1::with_errors(fs).0)
    }

    /// Like [`Self::try_from`], but also tells why inodes are marked as invalid.
    pub fn with_errors(fs: &PassthroughFs) -> (collected: (
        serialized::PassthroughFsV1,
        Vec<InodeError>,
    ))
        requires
            roots_are_marked(fs.inodes@),
        ensures
            collected.0@ == fs_as_serialized(*fs),
            crate::passthrough::inode_store::errors_meaning(collected.1@) == invalid_inodes(
                fs.inodes@,
                fs.cfg.migration_verify_handles,
            ),
    {
        let mut inodes: Vec<serialized::Inode> = Vec::new();
        let mut invalid: Vec<InodeError> = Vec::new();
        let ghost verify = fs.cfg.migration_verify_handles;
        let mut i: usize = 0;
        assert(crate::passthrough::inode_store::errors_meaning(invalid@) =~= invalid_inodes(
            fs.inodes@.take(0),
            verify,
        ));
        while i < fs.inodes.inodes.len()
            invariant
                i <= fs.inodes.inodes@.len(),
                inodes@.len() == i,
                roots_are_marked(fs.inodes@),
                verify == fs.cfg.migration_verify_handles,
                crate::passthrough::inode_store::errors_meaning(invalid@) == invalid_inodes(
                    fs.inodes@.take(i as int),
                    verify,
                ),
                forall|j: int|
                    0 <= j < i ==> (#[trigger] inodes@[j])@ == inode_or_invalid(
                        fs.inodes@[j],
                        verify,
                    ),
            decreases fs.inodes.inodes@.len() - i,
        {
            let inode: &InodeData = &fs.inodes.inodes[i];
            assert(root_is_marked(fs.inodes@[i as int]));
            let ghost before = invalid@;
            let sent: serialized::Inode = match inode.as_serialized(fs) {
                Ok(sent) => sent,
                Err(error) => {
                    invalid.push(InodeError { inode: inode.inode, error });
                    serialized::Inode {
                        id: inode.inode,
                        refcount: inode.refcount,
                        location: serialized::InodeLocation::Invalid,
                        file_handle: None,
                    }
                },
            };
            proof {
                let seen = fs.inodes@.take(i + 1);
                assert(seen.drop_last() =~= fs.inodes@.take(i as int));
                assert(seen.last() == fs.inodes@[i as int]);
                if invalid@.len() > before.len() {
                    assert(crate::passthrough::inode_store::errors_meaning(invalid@)
                        =~= crate::passthrough::inode_store::errors_meaning(before).push(
                        invalid@.last()@,
                    ));
                }
            }
            inodes.push(sent);
            i += 1;
        }
        let mut handles: Vec<serialized::Handle> = Vec::new();
        let mut j: usize = 0;
        while j < fs.handles.len()
            invariant
                j <= fs.handles@.len(),
                handles@.len() == j,
                forall|k: int|
                    0 <= k < j ==> #[trigger] handles@[k] == handle_as_serialized(fs.handles@[k]),
            decreases fs.handles@.len() - j,
        {
            let handle: &(Handle, HandleData) = &fs.handles[j];
            handles.push(serialized::Handle::from((handle.0, &handle.1)));
            j += 1;
        }
        let state: serialized::PassthroughFsV1 = serialized::PassthroughFsV1 {
            inodes,
            next_inode: fs.next_inode,
            handles,
            next_handle: fs.next_handle,
            negotiated_opts: serialized::NegotiatedOpts::from(fs),
        };
        proof {
            assert(state@.inodes =~= fs_as_serialized(*fs).inodes);
            assert(state@.handles =~= fs_as_serialized(*fs).handles);
            assert(fs.inodes@.take(i as int) =~= fs.inodes@);
        }
        (state, invalid)
    }
}

} // verus!
