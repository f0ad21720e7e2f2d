//! Facilities for mapping UIDs/GIDs between host and guest, with separate translation functions in
//! either direction.

pub mod id_types;

use btree_range_map::RangeMap;
use std::marker::PhantomData;
use vstd::prelude::*;

pub use id_types::{GuestGid, GuestId, GuestUid, HostGid, HostId, HostUid, Id};

use crate::util::{push_decimal, IoError, IoErrorView};

verus! {

/// A range of IDs: those from `start` up to, but not including, `end`.
#[derive(Clone, Copy, Debug, PartialEq, Eq, Structural)]
pub struct IdRange {
    pub start: u32,
    pub end: u32,
}

impl IdRange {
    /// `id` is in the range.
    pub open spec fn has(self, id: u32) -> bool {
        self.start <= id < self.end
    }
}

/// Maps a range of IDs.
///
/// Can be either UIDs or GIDs, and either host to guest or guest to host.
#[derive(Clone, Copy, Debug, PartialEq, Eq, Structural)]
pub enum MapEntry {
    /// Squash a range of IDs onto a single one.
    Squash {
        /// Range of source IDs.
        from: IdRange,
        /// Single target ID.
        to: u32,
    },
    /// 1:1 map a range of IDs to another range (of the same length).
    Range {
        /// Range of source IDs.
        from: IdRange,
        /// First ID in the target range (i.e. mapping for `from.start`).
        to_base: u32,
    },
    /// Disallow using this ID range: Return an error.
    Fail {
        /// Range of source IDs.
        from: IdRange,
    },
}

/// Why an ID could not be mapped.
#[derive(Debug)]
pub enum MapError<Source: Id> {
    /// The use of the ID has been disallowed.
    ExplicitFailMapping { id: Source },
}

impl<Source: Id> Clone for MapError<Source> {
    fn clone(&self) -> (err: Self)
        ensures
            err == *self,
    {
        match *self {
            MapError::ExplicitFailMapping { id } => MapError::ExplicitFailMapping { id },
        }
    }
}

impl MapEntry {
    /// The IDs that the entry maps.
    pub open spec fn source(self) -> IdRange {
        match self {
            MapEntry::Squash { from, .. } => from,
            MapEntry::Range { from, .. } => from,
            MapEntry::Fail { from } => from,
        }
    }

    /// The entry maps `id`, and the ID that it maps it to, if any, is a number that an ID can have.
    pub open spec fn can_map(self, id: u32) -> bool {
        &&& self.source().has(id)
        &&& self matches MapEntry::Range { from, to_base } ==> to_base + (id - from.start)
            <= u32::MAX
    }

    /// What `id` is mapped to; `None` if its use has been disallowed.
    pub open spec fn target(self, id: u32) -> Option<u32> {
        match self {
            MapEntry::Squash { to, .. } => Some(to),
            MapEntry::Range { from, to_base } => Some((to_base + (id - from.start)) as u32),
            MapEntry::Fail { .. } => None,
        }
    }

    /// Maps an ID from the source domain into the target domain.
    pub fn map<Source: Id, Target: Id>(&self, id: Source) -> (mapped: Result<
        Target,
        MapError<Source>,
    >)
        requires
            self.can_map(id.inner()),
        ensures
            mapped == mapping_result::<Source, Target>(id, self.target(id.inner())),
    {
        match *self {
            MapEntry::Squash { to, .. } => Ok(Target::from_inner(to)),
            MapEntry::Range { from, to_base } => Ok(
                Target::from_inner(to_base + (id.into_inner() - from.start)),
            ),
            MapEntry::Fail { .. } => Err(MapError::ExplicitFailMapping { id }),
        }
    }

    /// The target range of the entry ends at a number that an ID can have.
    pub open spec fn has_target_end(self) -> bool {
        self matches MapEntry::Range { from, to_base } ==> from.start <= from.end && to_base + (
        from.end - from.start) <= u32::MAX
    }

    /// The entry as text.
    pub fn to_text(&self) -> (text: String)
        requires
            self.has_target_end(),
        ensures
            text@ == (match *self {
                MapEntry::Squash { from, to } => "squash "@ + range_text(from.start, from.end)
                    + " to "@ + crate::util::decimal(to as nat),
                MapEntry::Range { from, to_base } => "map "@ + range_text(from.start, from.end)
                    + " to "@ + range_text(to_base, (to_base + (from.end - from.start)) as u32),
                MapEntry::Fail { from } => "fail "@ + range_text(from.start, from.end),
            }),
    {
        match *self {
            MapEntry::Squash { from, to } => {
                let mut text: String = "squash ".to_owned();
                push_range(&mut text, from.start, from.end);
                text.append(" to ");
                push_decimal(&mut text, to as u64);
                text
            },
            MapEntry::Range { from, to_base } => {
                let mut text: String = "map ".to_owned();
                push_range(&mut text, from.start, from.end);
                text.append(" to ");
                push_range(&mut text, to_base, to_base + (from.end - from.start));
                text
            },
            MapEntry::Fail { from } => {
                let mut text: String = "fail ".to_owned();
                push_range(&mut text, from.start, from.end);
                text
            },
        }
    }
}

/// The numbers from `start` up to, but not including, `end`, as text.
pub open spec fn range_text(start: u32, end: u32) -> Seq<char> {
    "["@ + crate::util::decimal(start as nat) + ", "@ + crate::util::decimal(end as nat) + ")"@
}

/// Appends a range to `out`.
fn push_range(out: &mut String, start: u32, end: u32)
    ensures
        final(out)@ == old(out)@ + range_text(start, end),
{
    out.append("[");
    push_decimal(out, start as u64);
    out.append(", ");
    push_decimal(out, end as u64);
    out.append(")");
    assert(out@ =~= old(out)@ + range_text(start, end));
}

/// What mapping `id` gives, where `target` is the number that it is mapped to, if any.
pub open spec fn mapping_result<Source: Id, Target: Id>(id: Source, target: Option<u32>) -> Result<
    Target,
    MapError<Source>,
> {
    match target {
        Some(inner) => Ok(Target::of_inner(inner)),
        None => Err(MapError::ExplicitFailMapping { id }),
    }
}

impl<Source: Id> MapError<Source> {
    /// The error as text.
    pub fn to_text(&self) -> (text: String)
        ensures
            text@ == map_error_text(*self),
    {
        match *self {
            MapError::ExplicitFailMapping { id } => {
                let mut text: String = "Use of ID ".to_owned();
                push_decimal(&mut text, id.into_inner() as u64);
                text.append(" has been configured to fail");
                text
            },
        }
    }
}

/// The error as text.
pub open spec fn map_error_text<Source: Id>(err: MapError<Source>) -> Seq<char> {
    match err {
        MapError::ExplicitFailMapping { id } => "Use of ID "@ + crate::util::decimal(
            id.inner() as nat,
        ) + " has been configured to fail"@,
    }
}

impl<Source: Id> vstd::std_specs::convert::FromSpecImpl<MapError<Source>> for IoError {
    open spec fn obeys_from_spec() -> bool {
        false
    }

    open spec fn from_spec(err: MapError<Source>) -> IoError {
        arbitrary()
    }
}

impl<Source: Id> From<MapError<Source>> for IoError {
    /// Using an ID that was disallowed is not permitted.
    fn from(err: MapError<Source>) -> (io_err: IoError)
        ensures
            io_err@ == IoErrorView::PermissionDenied(map_error_text(err)),
    {
        IoError::PermissionDenied(err.to_text())
    }
}

/// A `btree_range_map::RangeMap` from IDs to the entries that map them.
#[verifier::external_body]
pub struct IdRanges {
    map: RangeMap<u32, MapEntry>,
}

/// The entry for each ID for which the map holds one.
pub uninterp spec fn id_ranges(ranges: IdRanges) -> Map<u32, MapEntry>;

/// `RangeMap::new`.  The contract claims that the map is empty.
#[verifier::external_body]
fn range_map_new() -> (ranges: IdRanges)
    ensures
        id_ranges(ranges).dom() == Set::<u32>::empty(),
{
    IdRanges { map: RangeMap::new() }
}

/// `RangeMap::get`.  The contract claims that it gives the entry that the map holds for the ID, if
/// there is one.
#[verifier::external_body]
fn range_map_get(ranges: &IdRanges, id: u32) -> (entry: Option<&MapEntry>)
    ensures
        entry is Some == id_ranges(*ranges).contains_key(id),
        entry is Some ==> *entry->0 == id_ranges(*ranges)[id],
{
    ranges.map.get(id)
}

/// Every entry of `map` maps the IDs that it is stored for.
pub open spec fn entries_fit(map: Map<u32, MapEntry>) -> bool {
    forall|id: u32| #[trigger] map.contains_key(id) ==> map[id].can_map(id)
}

/// What `id` is mapped to, if it may be used at all: what its entry says, and itself if there is
/// none.
pub open spec fn mapped_number(map: Map<u32, MapEntry>, id: u32) -> Option<u32> {
    if map.contains_key(id) {
        map[id].target(id)
    } else {
        Some(id)
    }
}

/// Provides mappings for UIDs or GIDs between host and guest.
///
/// Each `IdMap` will only translate UIDs or GIDs, not both.  Translation in either direction (host
/// to guest, guest to host) is independent of the other direction, i.e. does not need to be
/// bijective (invertible).
#[verifier::reject_recursive_types(Guest)]
#[verifier::reject_recursive_types(Host)]
pub struct IdMap<Guest: GuestId<HostType = Host>, Host: HostId<GuestType = Guest>> {
    /// Guest-to-host mapping.
    guest_to_host: IdRanges,
    /// Host-to-guest mapping.
    host_to_guest: IdRanges,
    ids: PhantomData<(Guest, Host)>,
}

impl<Guest, Host> IdMap<Guest, Host> where
    Guest: GuestId<HostType = Host>,
    Host: HostId<GuestType = Guest>,
 {
    /// The entries that map guest IDs.
    pub closed spec fn guest_entries(&self) -> Map<u32, MapEntry> {
        id_ranges(self.guest_to_host)
    }

    /// The entries that map host IDs.
    pub closed spec fn host_entries(&self) -> Map<u32, MapEntry> {
        id_ranges(self.host_to_guest)
    }

    /// Every entry maps the IDs that it is stored for.
    pub open spec fn wf(&self) -> bool {
        entries_fit(self.guest_entries()) && entries_fit(self.host_entries())
    }

    /// Create an empty map.
    ///
    /// Note that unmapped ranges default to identity mapping, i.e. an empty map will map everything
    /// to itself (numerically speaking).
    pub fn empty() -> (map: Self)
        ensures
            map.wf(),
            map.guest_entries().dom() == Set::<u32>::empty(),
            map.host_entries().dom() == Set::<u32>::empty(),
    {
        IdMap {
            guest_to_host: range_map_new(),
            host_to_guest: range_map_new(),
            ids: PhantomData,
        }
    }

    /// Map a guest UID/GID to one in the host domain.
    pub fn map_guest(&self, guest_id: Guest) -> (mapped: Result<Host, MapError<Guest>>)
        requires
            self.wf(),
        ensures
            mapped == mapping_result::<Guest, Host>(
                guest_id,
                mapped_number(self.guest_entries(), guest_id.inner()),
            ),
    {
        match range_map_get(&self.guest_to_host, guest_id.into_inner()) {
            Some(entry) => entry.map(guest_id),
            None => Ok(guest_id.id_mapped()),
        }
    }

    /// Map a host UID/GID to one in the guest domain.
    pub fn map_host(&self, host_id: Host) -> (mapped: Result<Guest, MapError<Host>>)
        requires
            self.wf(),
        ensures
            mapped == mapping_result::<Host, Guest>(
                host_id,
                mapped_number(self.host_entries(), host_id.inner()),
            ),
    {
        match range_map_get(&self.host_to_guest, host_id.into_inner()) {
            Some(entry) => entry.map(host_id),
            None => Ok(host_id.id_mapped()),
        }
    }
}

/// An ID without an entry is mapped to itself (numerically speaking); so an empty map maps
/// everything to itself.
pub proof fn law_unmapped_ids_keep_their_number<Source: Id, Target: Id>(
    map: Map<u32, MapEntry>,
    id: Source,
)
    requires
        !map.contains_key(id.inner()),
    ensures
        mapping_result::<Source, Target>(id, mapped_number(map, id.inner())) matches Ok(mapped)
            && mapped.inner() == id.inner(),
{
    Target::of_inner(id.inner()).lemma_inner(id.inner());
}

/// A 1:1 entry maps its range to one of the same length, in order: distinct IDs stay distinct, as
/// far apart as they were.
pub proof fn law_range_entries_keep_distances(entry: MapEntry, id1: u32, id2: u32)
    requires
        entry is Range,
        entry.can_map(id1),
        entry.can_map(id2),
    ensures
        entry.target(id1) matches Some(target1) && entry.target(id2) matches Some(target2)
            && target1 - target2 == id1 - id2,
        entry.target(entry.source().start) == Some(entry->to_base),
{
}

/// A squashing entry maps its whole range to a single ID.
pub proof fn law_squash_entries_have_one_target(entry: MapEntry, id1: u32, id2: u32)
    requires
        entry is Squash,
        entry.can_map(id1),
        entry.can_map(id2),
    ensures
        entry.target(id1) is Some,
        entry.target(id1) == entry.target(id2),
{
}

} // verus!
