//! Types for user and group IDs, one for each of host and guest, so that they cannot be mixed up.

use vstd::prelude::*;

verus! {

/// A user or group ID.
pub trait Id: Copy {
    /// The number.
    spec fn inner(self) -> u32;

    /// The ID with the given number.
    spec fn of_inner(inner: u32) -> Self;

    /// The number.
    fn into_inner(self) -> (inner: u32)
        ensures
            inner == self.inner(),
    ;

    /// The ID with the given number.
    fn from_inner(inner: u32) -> (id: Self)
        ensures
            id == Self::of_inner(inner),
    ;

    /// An ID is its number.
    proof fn lemma_inner(self, inner: u32)
        ensures
            Self::of_inner(inner).inner() == inner,
            Self::of_inner(self.inner()) == self,
    ;
}

/// An ID in the guest.
pub trait GuestId: Id {
    /// The same kind of ID on the host.
    type HostType: HostId;

    /// The ID on the host with the same number.
    fn id_mapped(self) -> (host: Self::HostType)
        ensures
            host == <Self::HostType as Id>::of_inner(self.inner()),
    ;
}

/// An ID on the host.
pub trait HostId: Id {
    /// The same kind of ID in the guest.
    type GuestType: Id;

    /// The ID in the guest with the same number.
    fn id_mapped(self) -> (guest: Self::GuestType)
        ensures
            guest == <Self::GuestType as Id>::of_inner(self.inner()),
    ;
}

/// A user ID in the guest.
#[derive(Clone, Copy, Debug, PartialEq, Eq, Structural)]
pub struct GuestUid(pub u32);

/// A group ID in the guest.
#[derive(Clone, Copy, Debug, PartialEq, Eq, Structural)]
pub struct GuestGid(pub u32);

/// A user ID on the host.
#[derive(Clone, Copy, Debug, PartialEq, Eq, Structural)]
pub struct HostUid(pub u32);

/// A group ID on the host.
#[derive(Clone, Copy, Debug, PartialEq, Eq, Structural)]
pub struct HostGid(pub u32);

impl Id for GuestUid {
    open spec fn inner(self) -> u32 {
        self.0
    }

    open spec fn of_inner(inner: u32) -> GuestUid {
        GuestUid(inner)
    }

    fn into_inner(self) -> u32 {
        self.0
    }

    fn from_inner(inner: u32) -> GuestUid {
        GuestUid(inner)
    }

    proof fn lemma_inner(self, inner: u32) {
    }
}

impl Id for GuestGid {
    open spec fn inner(self) -> u32 {
        self.0
    }

    open spec fn of_inner(inner: u32) -> GuestGid {
        GuestGid(inner)
    }

    fn into_inner(self) -> u32 {
        self.0
    }

    fn from_inner(inner: u32) -> GuestGid {
        GuestGid(inner)
    }

    proof fn lemma_inner(self, inner: u32) {
    }
}

impl Id for HostUid {
    open spec fn inner(self) -> u32 {
        self.0
    }

    open spec fn of_inner(inner: u32) -> HostUid {
        HostUid(inner)
    }

    fn into_inner(self) -> u32 {
        self.0
    }

    fn from_inner(inner: u32) -> HostUid {
        HostUid(inner)
    }

    proof fn lemma_inner(self, inner: u32) {
    }
}

impl Id for HostGid {
    open spec fn inner(self) -> u32 {
        self.0
    }

    open spec fn of_inner(inner: u32) -> HostGid {
        HostGid(inner)
    }

    fn into_inner(self) -> u32 {
        self.0
    }

    fn from_inner(inner: u32) -> HostGid {
        HostGid(inner)
    }

    proof fn lemma_inner(self, inner: u32) {
    }
}

impl GuestId for GuestUid {
    type HostType = HostUid;

    fn id_mapped(self) -> HostUid {
        HostUid(self.0)
    }
}

impl HostId for HostUid {
    type GuestType = GuestUid;

    fn id_mapped(self) -> GuestUid {
        GuestUid(self.0)
    }
}

impl GuestId for GuestGid {
    type HostType = HostGid;

    fn id_mapped(self) -> HostGid {
        HostGid(self.0)
    }
}

impl HostId for HostGid {
    type GuestType = GuestGid;

    fn id_mapped(self) -> GuestGid {
        GuestGid(self.0)
    }
}

} // verus!
