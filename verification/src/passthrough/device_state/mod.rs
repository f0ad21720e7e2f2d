//! Migrating the state of a file system.
//!
//! - `serialized`: what is sent to the destination
//! - `preserialization`: what is collected of inodes and handles before that
//! - `serialization`: turning the latter into the former

pub mod preserialization;
pub mod serialization;
pub mod serialized;

use vstd::prelude::*;

use crate::passthrough::device_state::preserialization::proc_paths;
use crate::passthrough::device_state::preserialization::proc_paths::{Answer, WalkView};
use crate::passthrough::inode_store::{InodeError, InodeState};
use crate::passthrough::{MigrationMode, PassthroughFs};
use crate::util::IoError;

verus! {

/// Preparing for serialization, at the point where the host has to act; then go on with
/// [`Preparation::next`].
#[derive(Clone, Copy, Debug, PartialEq, Eq, Structural)]
pub enum Preparation {
    /// Look up the path of each inode through /proc/self/fd.
    ProcPaths,
    /// Look for each inode by going through the shared directory.
    FindPaths,
    /// Get a file handle for each inode.
    FileHandles,
    /// Check the paths that were found: one that was found before the guest removed it would be
    /// wrong.
    CheckPaths,
}

/// What preparing starts with.
pub open spec fn first_preparation(mode: MigrationMode) -> Preparation {
    match mode {
        MigrationMode::FindPaths => Preparation::ProcPaths,
        MigrationMode::FileHandles => Preparation::FileHandles,
    }
}

/// What follows a step of preparing, where `fall_back` says whether looking up paths through
/// /proc/self/fd advised to look for them otherwise.
pub open spec fn next_preparation(step: Preparation, fall_back: bool) -> Option<Preparation> {
    match step {
        Preparation::ProcPaths => if fall_back {
            Some(Preparation::FindPaths)
        } else {
            Some(Preparation::CheckPaths)
        },
        Preparation::FindPaths => Some(Preparation::CheckPaths),
        Preparation::FileHandles => Some(Preparation::CheckPaths),
        Preparation::CheckPaths => None,
    }
}

impl Preparation {
    /// What comes next, if anything does.  `fall_back` says whether looking up paths through
    /// /proc/self/fd advised to look for them otherwise.
    pub fn next(self, fall_back: bool) -> (step: Option<Preparation>)
        ensures
            step == next_preparation(self, fall_back),
    {
        match self {
            Preparation::ProcPaths => if fall_back {
                Some(Preparation::FindPaths)
            } else {
                Some(Preparation::CheckPaths)
            },
            Preparation::FindPaths => Some(Preparation::CheckPaths),
            Preparation::FileHandles => Some(Preparation::CheckPaths),
            Preparation::CheckPaths => None,
        }
    }
}

/// The steps of preparing from `step` on.
pub open spec fn preparations_from(step: Preparation, fall_back: bool) -> Seq<Preparation>
    decreases
            (match step {
                Preparation::ProcPaths => 2int,
                Preparation::CheckPaths => 0,
                _ => 1,
            }),
{
    match next_preparation(step, fall_back) {
        Some(next) => seq![step] + preparations_from(next, fall_back),
        None => seq![step],
    }
}

/// Whatever the mode, preparing ends with a check of what was collected.  The shared directory is
/// gone through only to look for paths that /proc/self/fd did not give.
pub proof fn law_preparing_ends_with_check(mode: MigrationMode, fall_back: bool)
    ensures
        preparations_from(first_preparation(mode), fall_back) == (match mode {
            MigrationMode::FileHandles => seq![Preparation::FileHandles, Preparation::CheckPaths],
            MigrationMode::FindPaths => if fall_back {
                seq![Preparation::ProcPaths, Preparation::FindPaths, Preparation::CheckPaths]
            } else {
                seq![Preparation::ProcPaths, Preparation::CheckPaths]
            },
        }),
{
    reveal_with_fuel(preparations_from, 3);
    let steps = preparations_from(first_preparation(mode), fall_back);
    if mode == MigrationMode::FileHandles {
        assert(steps =~= seq![Preparation::FileHandles, Preparation::CheckPaths]);
    } else if fall_back {
        assert(steps =~= seq![
            Preparation::ProcPaths,
            Preparation::FindPaths,
            Preparation::CheckPaths,
        ]);
    } else {
        assert(steps =~= seq![Preparation::ProcPaths, Preparation::CheckPaths]);
    }
}

/// Serialization, at the point where the host has to act.
#[derive(Debug)]
pub enum Serialization {
    /// Confirm the paths that were collected, then go on with
    /// [`PassthroughFs::serialize_confirmed`].
    ConfirmPaths,
    /// Encode the state and send it.
    Send {
        /// The state.
        state: serialized::PassthroughFs,
        /// Why inodes are marked as invalid in it, for each that is.
        invalid: Vec<InodeError>,
    },
    /// There is nothing to send, because of this error.
    Fail(IoError),
}

/// `next` is to send what there is to be said of `fs`, and tells why inodes are marked as invalid.
pub open spec fn sends(next: Serialization, fs: PassthroughFs) -> bool {
    &&& next matches Serialization::Send { state: serialized::PassthroughFs::V2(state), invalid }
    &&& state.v1@ == serialization::fs_as_serialized(fs)
    &&& crate::passthrough::inode_store::errors_meaning(invalid@) == serialization::invalid_inodes(
        fs.inodes@,
        fs.cfg.migration_verify_handles,
    )
}

/// `after` is `before`, with tracking of migration information switched as given, and all that was
/// known of the locations of inodes forgotten.
pub open spec fn is_cleared(before: PassthroughFs, after: PassthroughFs, tracking: bool) -> bool {
    &&& after.inodes@ == before.inodes@.map_values(
        |inode: InodeState| crate::passthrough::inode_store::without_info(inode),
    )
    &&& after.track_migration_info == tracking
    &&& same_but_tracking(before, after)
}

/// `after` is `before`, but for the inodes and whether migration information is tracked.
pub open spec fn same_but_tracking(before: PassthroughFs, after: PassthroughFs) -> bool {
    &&& after.next_inode == before.next_inode
    &&& same_beside_inodes(before, after)
}

/// `after` is `before`, but for the inodes, the number that the next new one gets, and whether
/// migration information is tracked.
pub open spec fn same_beside_inodes(before: PassthroughFs, after: PassthroughFs) -> bool {
    &&& after.handles == before.handles
    &&& after.next_handle == before.next_handle
    &&& after.writeback == before.writeback
    &&& after.announce_submounts == before.announce_submounts
    &&& after.posix_acl == before.posix_acl
    &&& after.sup_group_extension == before.sup_group_extension
    &&& after.cfg == before.cfg
}

impl PassthroughFs {
    /// Starts to prepare for serialization: what was known of the locations of inodes is forgotten,
    /// and the file system keeps them up to date from now on.
    pub fn prepare_serialization(&mut self) -> (next: Preparation)
        ensures
            is_cleared(*old(self), *final(self), true),
            next == first_preparation(old(self).cfg.migration_mode),
    {
        self.inodes.clear_migration_info();
        self.track_migration_info = true;
        match self.cfg.migration_mode {
            MigrationMode::FindPaths => Preparation::ProcPaths,
            MigrationMode::FileHandles => Preparation::FileHandles,
        }
    }

    /// Starts to serialize the file system, which need not keep locations up to date any longer.
    pub fn serialize(&mut self) -> (next: Serialization)
        requires
            !old(self).cfg.migration_confirm_paths ==> serialization::roots_are_marked(
                old(self).inodes@,
            ),
        ensures
            old(self).cfg.migration_confirm_paths ==> {
                &&& next == Serialization::ConfirmPaths
                &&& *final(self) == (PassthroughFs { track_migration_info: false, ..*old(self) })
            },
            !old(self).cfg.migration_confirm_paths ==> {
                &&& sends(next, *old(self))
                &&& is_cleared(*old(self), *final(self), false)
            },
    {
        self.track_migration_info = false;
        if self.cfg.migration_confirm_paths {
            Serialization::ConfirmPaths
        } else {
            self.serialize_confirmed(Ok(()))
        }
    }

    /// Serializes the file system, given the outcome of confirming the paths that were collected.
    /// What is known of the locations of inodes is forgotten in any case, once it is not needed any
    /// longer.
    pub fn serialize_confirmed(&mut self, confirmed: Result<(), IoError>) -> (next: Serialization)
        requires
            confirmed is Ok ==> serialization::roots_are_marked(old(self).inodes@),
        ensures
            match confirmed {
                Ok(_) => sends(next, *old(self)),
                Err(err) => next == Serialization::Fail(err),
            },
            is_cleared(*old(self), *final(self), old(self).track_migration_info),
    {
        if let Err(err) = confirmed {
            self.inodes.clear_migration_info();
            return Serialization::Fail(err);
        }
        let (v1, invalid): (serialized::PassthroughFsV1, Vec<InodeError>) =
            serialized::PassthroughFsV1::with_errors(self);
        self.inodes.clear_migration_info();
        Serialization::Send {
            state: serialized::PassthroughFs::V2(serialized::PassthroughFsV2 { v1 }),
            invalid,
        }
    }
}

/// Once the locations of inodes are forgotten, there is none left, and the inodes are the same as
/// before otherwise.
pub proof fn law_clearing_leaves_no_location(
    before: PassthroughFs,
    after: PassthroughFs,
    tracking: bool,
)
    requires
        is_cleared(before, after, tracking),
    ensures
        after.inodes@.len() == before.inodes@.len(),
        forall|i: int|
            0 <= i < after.inodes@.len() ==> {
                let inode = #[trigger] after.inodes@[i];
                &&& inode.info is None
                &&& inode.inode == before.inodes@[i].inode
                &&& inode.refcount == before.inodes@[i].refcount
            },
{
}

/// Every inode is sent, in order, with its ID and reference count.  It is marked as invalid if and
/// only if its location is unknown, or its file handle is to be verified but was not prepared.
pub proof fn law_every_inode_is_sent(fs: PassthroughFs, i: int)
    requires
        0 <= i < fs.inodes@.len(),
        serialization::roots_are_marked(fs.inodes@),
    ensures
        ({
            let inode = fs.inodes@[i];
            let state = serialization::fs_as_serialized(fs);
            let sent = state.inodes[i];
            &&& state.inodes.len() == fs.inodes@.len()
            &&& sent.id == inode.inode
            &&& sent.refcount == inode.refcount
            &&& (sent.location is Invalid) == (inode.info is None || (
            fs.cfg.migration_verify_handles && inode.info->0.file_handle is None))
            &&& !(sent.location is Invalid) ==> sent.location == inode.info->0.location
            &&& (sent.location is RootNode) ==> inode.inode
                == crate::passthrough::inode_store::ROOT_ID
            &&& sent.file_handle is Some ==> fs.cfg.migration_verify_handles
        }),
{
    assert(serialization::root_is_marked(fs.inodes@[i]));
    assert(fs.inodes@[i] == fs.inodes.inodes@[i]@);
}

/// Once paths were confirmed without an error, the destination is told where to find every inode
/// but perhaps the root, unless a file handle that is to be verified was not prepared.
pub proof fn law_confirmed_inodes_can_be_found(
    inodes: Seq<InodeState>,
    answers: Seq<Answer>,
    fs: PassthroughFs,
    i: int,
)
    requires
        crate::passthrough::inode_store::ids_are_distinct(inodes),
        proc_paths::steps(proc_paths::begin(inodes), answers) == (WalkView::Done {
            inodes: fs.inodes@,
            result: Ok(()),
            errors: seq![],
        }),
        0 <= i < fs.inodes@.len(),
        fs.inodes@[i].inode != crate::passthrough::inode_store::ROOT_ID,
    ensures
        ({
            let sent = serialization::fs_as_serialized(fs).inodes[i];
            ||| !(sent.location is Invalid)
            ||| fs.cfg.migration_verify_handles && fs.inodes@[i].info->0.file_handle is None
        }),
{
    proc_paths::law_successful_walk_locates_every_inode(inodes, answers);
    assert(proc_paths::is_settled(fs.inodes@[i]));
    assert(fs.inodes@[i] == fs.inodes.inodes@[i]@);
}

} // verus!
