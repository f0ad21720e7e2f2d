use virtiofsd::soft_idmap::{
    GuestGid, GuestUid, HostGid, HostUid, IdMap, IdRange, MapEntry, MapError,
};
use virtiofsd::util::IoError;

#[test]
fn empty_map_maps_everything_to_itself() {
    let uids: IdMap<GuestUid, HostUid> = IdMap::empty();
    let gids: IdMap<GuestGid, HostGid> = IdMap::empty();
    for id in [0, 1, 1000, 65534, u32::MAX] {
        assert_eq!(uids.map_guest(GuestUid(id)).unwrap(), HostUid(id));
        assert_eq!(uids.map_host(HostUid(id)).unwrap(), GuestUid(id));
        assert_eq!(gids.map_guest(GuestGid(id)).unwrap(), HostGid(id));
        assert_eq!(gids.map_host(HostGid(id)).unwrap(), GuestGid(id));
    }
}

fn range(start: u32, end: u32) -> IdRange {
    IdRange { start, end }
}

#[test]
fn squashed_ranges_have_one_target() {
    let entry = MapEntry::Squash { from: range(10, 20), to: 65534 };
    for id in 10..20 {
        let mapped: Result<HostUid, MapError<GuestUid>> = entry.map(GuestUid(id));
        assert_eq!(mapped.unwrap(), HostUid(65534));
    }
    assert_eq!(entry.to_text(), "squash [10, 20) to 65534");
}

#[test]
fn ranges_are_mapped_one_to_one() {
    let entry = MapEntry::Range { from: range(0, 1000), to_base: 100000 };
    for id in [0, 1, 999] {
        let mapped: Result<GuestGid, MapError<HostGid>> = entry.map(HostGid(id));
        assert_eq!(mapped.unwrap(), GuestGid(100000 + id));
    }
    assert_eq!(entry.to_text(), "map [0, 1000) to [100000, 101000)");
}

#[test]
fn disallowed_ids_are_errors() {
    let entry = MapEntry::Fail { from: range(5, 6) };
    let mapped: Result<HostUid, MapError<GuestUid>> = entry.map(GuestUid(5));
    let err = mapped.unwrap_err();
    assert!(matches!(err, MapError::ExplicitFailMapping { id: GuestUid(5) }));
    assert_eq!(err.to_text(), "Use of ID 5 has been configured to fail");
    assert_eq!(entry.to_text(), "fail [5, 6)");
    match IoError::from(err.clone()) {
        IoError::PermissionDenied(text) => {
            assert_eq!(text, "Use of ID 5 has been configured to fail")
        }
        other => panic!("{:?}", other),
    }
}
