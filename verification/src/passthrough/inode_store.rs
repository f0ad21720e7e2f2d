//! The inodes that the guest knows.

use vstd::prelude::*;

use crate::passthrough::device_state::preserialization::{InfoState, InodeMigrationInfo};
use crate::util::{IoError, IoErrorView};

verus! {

/// The ID of the root of the shared directory.
pub const ROOT_ID: u64 = 1;

/// An inode that the guest knows.
#[derive(Debug)]
pub struct InodeData {
    /// Its ID.
    pub inode: u64,
    /// How many references there are to it.
    pub refcount: u64,
    /// Where the destination of a migration can find it, if that is known.
    pub migration_info: Option<InodeMigrationInfo>,
}

/// What is known of an inode.
pub ghost struct InodeState {
    pub inode: u64,
    pub refcount: u64,
    pub info: Option<InfoState>,
}

impl View for InodeData {
    type V = InodeState;

    open spec fn view(&self) -> InodeState {
        InodeState {
            inode: self.inode,
            refcount: self.refcount,
            info: match self.migration_info {
                Some(info) => Some(info@),
                None => None,
            },
        }
    }
}

/// An error that concerns one inode.
#[derive(Debug)]
pub struct InodeError {
    /// The inode.
    pub inode: u64,
    /// What went wrong.
    pub error: IoError,
}

/// What an [`InodeError`] says.
pub ghost struct InodeErrorView {
    pub inode: u64,
    pub error: IoErrorView,
}

impl View for InodeError {
    type V = InodeErrorView;

    open spec fn view(&self) -> InodeErrorView {
        InodeErrorView { inode: self.inode, error: self.error@ }
    }
}

/// What errors say, one after the other.
pub open spec fn errors_meaning(errors: Seq<InodeError>) -> Seq<InodeErrorView> {
    errors.map_values(|err: InodeError| err@)
}

/// The inodes that the guest knows, in the order in which they are walked.
#[derive(Debug)]
pub struct InodeStore {
    pub inodes: Vec<InodeData>,
}

impl View for InodeStore {
    type V = Seq<InodeState>;

    open spec fn view(&self) -> Seq<InodeState> {
        Seq::new(self.inodes@.len(), |i: int| self.inodes@[i]@)
    }
}

/// No two inodes have the same ID.
pub open spec fn ids_are_distinct(inodes: Seq<InodeState>) -> bool {
    forall|i: int, j: int|
        0 <= i < j < inodes.len() ==> (#[trigger] inodes[i]).inode != (#[trigger] inodes[j]).inode
}

/// There is an inode with the given ID.
pub open spec fn knows(inodes: Seq<InodeState>, inode: u64) -> bool {
    exists|i: int| 0 <= i < inodes.len() && (#[trigger] inodes[i]).inode == inode
}

/// The inode without what is known of its location.
pub open spec fn without_info(inode: InodeState) -> InodeState {
    InodeState { info: None, ..inode }
}

impl InodeStore {
    /// Whether the guest knows no inode at all.
    pub fn is_empty(&self) -> (empty: bool)
        ensures
            empty == (self@.len() == 0),
    {
        self.inodes.len() == 0
    }

    /// The position of the inode with the given ID.
    pub fn find(&self, inode: u64) -> (position: Option<usize>)
        ensures
            match position {
                Some(p) => p < self@.len() && self@[p as int].inode == inode && forall|i: int|
                    0 <= i < p ==> (#[trigger] self@[i]).inode != inode,
                None => !knows(self@, inode),
            },
    {
        let mut i: usize = 0;
        while i < self.inodes.len()
            invariant
                i <= self.inodes@.len(),
                forall|j: int| 0 <= j < i ==> (#[trigger] self@[j]).inode != inode,
            decreases self.inodes@.len() - i,
        {
            if self.inodes[i].inode == inode {
                assert(self@[i as int].inode == inode);
                return Some(i);
            }
            i += 1;
        }
        None
    }

    /// Sets what is known of the location of the inode at `position`.
    pub fn set_info(&mut self, position: usize, info: Option<InodeMigrationInfo>)
        requires
            position < old(self)@.len(),
        ensures
            final(self)@ == old(self)@.update(
                position as int,
                (InodeState {
                    info: match info {
                        Some(info) => Some(info@),
                        None => None,
                    },
                    ..old(self)@[position as int]
                }),
            ),
    {
        let data: InodeData = InodeData {
            inode: self.inodes[position].inode,
            refcount: self.inodes[position].refcount,
            migration_info: info,
        };
        self.inodes.set(position, data);
        assert(self@ =~= old(self)@.update(position as int, data@));
    }

    /// Adds an inode.
    pub fn add_inode(&mut self, data: InodeData)
        ensures
            final(self)@ == old(self)@.push(data@),
    {
        self.inodes.push(data);
        assert(self@ =~= old(self)@.push(data@));
    }

    /// Forgets what is known of the locations of all inodes.
    pub fn clear_migration_info(&mut self)
        ensures
            final(self)@ == old(self)@.map_values(|inode: InodeState| without_info(inode)),
    {
        let mut i: usize = 0;
        while i < self.inodes.len()
            invariant
                i <= self@.len(),
                self@.len() == old(self)@.len(),
                forall|j: int| 0 <= j < i ==> self@[j] == without_info(#[trigger] old(self)@[j]),
                forall|j: int| i <= j < self@.len() ==> self@[j] == #[trigger] old(self)@[j],
            decreases self@.len() - i,
        {
            self.set_info(i, None);
            i += 1;
        }
        assert(self@ =~= old(self)@.map_values(|inode: InodeState| without_info(inode)));
    }
}

} // verus!
