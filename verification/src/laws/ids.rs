//! Mapping IDs.

use vstd::prelude::*;

use crate::soft_idmap::{
    GuestGid, GuestId, GuestUid, HostGid, HostId, HostUid, Id, IdMap, MapEntry, MapError,
};
use crate::util::IoError;

verus! {

/// Every ID is its number, and keeps it when it changes sides.
pub proof fn law_ids_are_their_numbers(
    n: u32,
    host_uid: HostUid,
    guest_uid: GuestUid,
    host_gid: HostGid,
    guest_gid: GuestGid,
)
    requires
        call_ensures(<GuestUid as GuestId>::id_mapped, (GuestUid(n),), host_uid),
        call_ensures(<HostUid as HostId>::id_mapped, (HostUid(n),), guest_uid),
        call_ensures(<GuestGid as GuestId>::id_mapped, (GuestGid(n),), host_gid),
        call_ensures(<HostGid as HostId>::id_mapped, (HostGid(n),), guest_gid),
    ensures
        host_uid == HostUid(n) && guest_uid == GuestUid(n),
        host_gid == HostGid(n) && guest_gid == GuestGid(n),
        GuestUid(n).inner() == n && HostUid(n).inner() == n,
        GuestGid(n).inner() == n && HostGid(n).inner() == n,
        <GuestUid as Id>::of_inner(n) == GuestUid(n) && <HostUid as Id>::of_inner(n) == HostUid(n),
        <GuestGid as Id>::of_inner(n) == GuestGid(n) && <HostGid as Id>::of_inner(n) == HostGid(n),
{
}

/// What mapping `id` gives is the ID with the number `target`.
pub open spec fn is_mapped_to<Source: Id, Target: Id>(
    mapped: Result<Target, MapError<Source>>,
    target: int,
) -> bool {
    mapped matches Ok(to) && to.inner() == target
}

/// Mapping `id` is an error that tells which ID it was.
pub open spec fn is_disallowed<Source: Id, Target: Id>(
    mapped: Result<Target, MapError<Source>>,
    id: Source,
) -> bool {
    mapped matches Err(MapError::ExplicitFailMapping { id: failed }) && failed == id
}

/// A squashing entry maps each ID to its one target; a 1:1 entry maps the one that is `k` above the
/// start of its range to the one that is `k` above its base; a failing entry maps none.
pub proof fn law_entries_map_by_kind<Source: Id, Target: Id>(
    entry: MapEntry,
    id: Source,
    mapped: Result<Target, MapError<Source>>,
)
    requires
        call_ensures(MapEntry::map::<Source, Target>, (&entry, id), mapped),
    ensures
        match entry {
            MapEntry::Squash { from, to } => is_mapped_to(mapped, to as int),
            MapEntry::Range { from, to_base } => 0 <= to_base + (id.inner() - from.start)
                <= u32::MAX ==> is_mapped_to(mapped, to_base + (id.inner() - from.start)),
            MapEntry::Fail { from } => is_disallowed(mapped, id),
        },
{
    match entry {
        MapEntry::Squash { from, to } => {
            lemma_number_of_id::<Target>(to);
        },
        MapEntry::Range { from, to_base } => {
            lemma_number_of_id::<Target>((to_base + (id.inner() - from.start)) as u32);
        },
        MapEntry::Fail { .. } => {},
    }
}

/// The ID with a number has that number.
proof fn lemma_number_of_id<T: Id>(n: u32)
    ensures
        T::of_inner(n).inner() == n,
{
    T::of_inner(n).lemma_inner(n);
}

/// An entry is for the IDs from the start of its range up to, but not including, the end.
pub proof fn law_entries_are_for_their_range(entry: MapEntry, id: u32)
    ensures
        entry.can_map(id) == (match entry {
            MapEntry::Squash { from, .. } => from.start <= id < from.end,
            MapEntry::Range { from, to_base } => from.start <= id < from.end && to_base + (id
                - from.start) <= u32::MAX,
            MapEntry::Fail { from } => from.start <= id < from.end,
        }),
{
}

/// What mapping `id` through the entries `entries` gives: what its entry says, and the same number if
/// there is none.
pub open spec fn is_mapped_by<Source: Id, Target: Id>(
    entries: Map<u32, MapEntry>,
    id: Source,
    mapped: Result<Target, MapError<Source>>,
) -> bool {
    if !entries.contains_key(id.inner()) {
        is_mapped_to(mapped, id.inner() as int)
    } else {
        match entries[id.inner()] {
            MapEntry::Squash { from, to } => is_mapped_to(mapped, to as int),
            MapEntry::Range { from, to_base } => is_mapped_to(
                mapped,
                to_base + (id.inner() - from.start),
            ),
            MapEntry::Fail { from } => is_disallowed(mapped, id),
        }
    }
}

/// Each direction of a map goes by its own entries; an ID without one keeps its number.  So an empty
/// map maps everything to itself, in both directions.
pub proof fn law_maps_go_by_their_entries<Guest, Host>(
    map: &IdMap<Guest, Host>,
    guest_id: Guest,
    to_host: Result<Host, MapError<Guest>>,
    host_id: Host,
    to_guest: Result<Guest, MapError<Host>>,
    nothing: IdMap<Guest, Host>,
) where Guest: GuestId<HostType = Host>, Host: HostId<GuestType = Guest>
    requires
        map.wf(),
        call_ensures(IdMap::<Guest, Host>::map_guest, (map, guest_id), to_host),
        call_ensures(IdMap::<Guest, Host>::map_host, (map, host_id), to_guest),
        call_ensures(IdMap::<Guest, Host>::empty, (), nothing),
    ensures
        is_mapped_by(map.guest_entries(), guest_id, to_host),
        is_mapped_by(map.host_entries(), host_id, to_guest),
        nothing.wf(),
        forall|id: u32| !#[trigger] nothing.guest_entries().contains_key(id),
        forall|id: u32| !#[trigger] nothing.host_entries().contains_key(id),
{
    lemma_number_of_id::<Host>(guest_id.inner());
    lemma_number_of_id::<Guest>(host_id.inner());
    if map.guest_entries().contains_key(guest_id.inner()) {
        let entry = map.guest_entries()[guest_id.inner()];
        assert(entry.can_map(guest_id.inner()));
        if let Some(n) = entry.target(guest_id.inner()) {
            lemma_number_of_id::<Host>(n);
        }
    }
    if map.host_entries().contains_key(host_id.inner()) {
        let entry = map.host_entries()[host_id.inner()];
        assert(entry.can_map(host_id.inner()));
        if let Some(n) = entry.target(host_id.inner()) {
            lemma_number_of_id::<Guest>(n);
        }
    }
}

/// An entry is shown by its kind, its range and what it maps that to, with the numbers in decimal.
pub proof fn law_entries_are_shown_by_kind(
    entry: MapEntry,
    text: String,
    start: Seq<char>,
    end: Seq<char>,
    to: Seq<char>,
    to_end: Seq<char>,
)
    requires
        entry.has_target_end(),
        call_ensures(MapEntry::to_text, (&entry,), text),
        match entry {
            MapEntry::Squash { from, to: target } => {
                &&& crate::laws::texts::is_decimal(start, from.start as int)
                &&& crate::laws::texts::is_decimal(end, from.end as int)
                &&& crate::laws::texts::is_decimal(to, target as int)
            },
            MapEntry::Range { from, to_base } => {
                &&& crate::laws::texts::is_decimal(start, from.start as int)
                &&& crate::laws::texts::is_decimal(end, from.end as int)
                &&& crate::laws::texts::is_decimal(to, to_base as int)
                &&& crate::laws::texts::is_decimal(to_end, to_base + (from.end - from.start))
            },
            MapEntry::Fail { from } => {
                &&& crate::laws::texts::is_decimal(start, from.start as int)
                &&& crate::laws::texts::is_decimal(end, from.end as int)
            },
        },
    ensures
        match entry {
            MapEntry::Squash { .. } => text@ == "squash ["@ + start + ", "@ + end + ") to "@ + to,
            MapEntry::Range { .. } => text@ == "map ["@ + start + ", "@ + end + ") to ["@ + to
                + ", "@ + to_end + ")"@,
            MapEntry::Fail { .. } => text@ == "fail ["@ + start + ", "@ + end + ")"@,
        },
{
    reveal_strlit("[");
    reveal_strlit(")");
    reveal_strlit(" to ");
    reveal_strlit("squash ");
    reveal_strlit("squash [");
    reveal_strlit("map ");
    reveal_strlit("map [");
    reveal_strlit("fail ");
    reveal_strlit("fail [");
    reveal_strlit(") to ");
    reveal_strlit(") to [");
    match entry {
        MapEntry::Squash { from, to: target } => {
            crate::laws::texts::lemma_is_decimal(start, from.start as nat);
            crate::laws::texts::lemma_is_decimal(end, from.end as nat);
            crate::laws::texts::lemma_is_decimal(to, target as nat);
            assert(text@ =~= "squash ["@ + start + ", "@ + end + ") to "@ + to);
        },
        MapEntry::Range { from, to_base } => {
            crate::laws::texts::lemma_is_decimal(start, from.start as nat);
            crate::laws::texts::lemma_is_decimal(end, from.end as nat);
            crate::laws::texts::lemma_is_decimal(to, to_base as nat);
            crate::laws::texts::lemma_is_decimal(
                to_end,
                (to_base + (from.end - from.start)) as nat,
            );
            assert(text@ =~= "map ["@ + start + ", "@ + end + ") to ["@ + to + ", "@ + to_end
                + ")"@);
        },
        MapEntry::Fail { from } => {
            crate::laws::texts::lemma_is_decimal(start, from.start as nat);
            crate::laws::texts::lemma_is_decimal(end, from.end as nat);
            assert(text@ =~= "fail ["@ + start + ", "@ + end + ")"@);
        },
    }
}

/// The error of an ID that was disallowed shows its number; as a general error, it is that the
/// operation is not permitted, with the same text.
pub proof fn law_disallowed_ids_are_shown<Source: Id>(
    err: MapError<Source>,
    text: String,
    io_err: IoError,
    number: Seq<char>,
    copy: MapError<Source>,
)
    requires
        call_ensures(MapError::<Source>::to_text, (&err,), text),
        call_ensures(<IoError as From<MapError<Source>>>::from, (err,), io_err),
        call_ensures(<MapError<Source> as Clone>::clone, (&err,), copy),
        err matches MapError::ExplicitFailMapping { id } && crate::laws::texts::is_decimal(
            number,
            id.inner() as int,
        ),
    ensures
        text@ == "Use of ID "@ + number + " has been configured to fail"@,
        io_err matches IoError::PermissionDenied(t) && t@ == text@,
        copy == err,
{
    let MapError::ExplicitFailMapping { id } = err;
    crate::laws::texts::lemma_is_decimal(number, id.inner() as nat);
}

} // verus!
