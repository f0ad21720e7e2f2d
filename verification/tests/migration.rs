use virtiofsd::passthrough::device_state::preserialization::proc_paths::{
    split_path, ConfirmPaths, Finished, Walk,
};
use virtiofsd::passthrough::device_state::preserialization::{
    HandleMigrationInfo, InodeLocation, InodeMigrationInfo, InodePath, SerializableFileHandle,
};
use virtiofsd::passthrough::device_state::serialization::check_root_marks;
use virtiofsd::passthrough::device_state::{serialized, Preparation, Serialization};
use virtiofsd::passthrough::inode_store::{InodeData, InodeStore, ROOT_ID};
use virtiofsd::passthrough::{Config, HandleData, MigrationMode, PassthroughFs};
use virtiofsd::util::IoError;

fn root() -> InodeData {
    InodeData {
        inode: ROOT_ID,
        refcount: 2,
        migration_info: Some(InodeMigrationInfo {
            location: InodeLocation::RootNode,
            file_handle: None,
        }),
    }
}

fn inode(inode: u64, location: Option<(u64, &str)>) -> InodeData {
    InodeData {
        inode,
        refcount: inode * 10,
        migration_info: location.map(|(parent, filename)| InodeMigrationInfo {
            location: InodeLocation::Path(InodePath { parent, filename: filename.to_string() }),
            file_handle: None,
        }),
    }
}

fn file_system(inodes: Vec<InodeData>) -> PassthroughFs {
    PassthroughFs {
        inodes: InodeStore { inodes },
        next_inode: 50,
        handles: vec![(
            3,
            HandleData { inode: 2, migration_info: HandleMigrationInfo::OpenInode { flags: 0o2 } },
        )],
        next_handle: 4,
        writeback: true,
        announce_submounts: false,
        posix_acl: true,
        sup_group_extension: false,
        track_migration_info: true,
        cfg: Config {
            migration_mode: MigrationMode::FindPaths,
            migration_confirm_paths: false,
            migration_verify_handles: false,
        },
    }
}

fn place(fs: &PassthroughFs, inode: u64) -> Option<(u64, String)> {
    let data = fs.inodes.inodes.iter().find(|d| d.inode == inode).unwrap();
    match &data.migration_info {
        None => None,
        Some(info) => match &info.location {
            InodeLocation::RootNode => Some((0, "".to_string())),
            InodeLocation::Path(path) => Some((path.parent, path.filename.clone())),
        },
    }
}

#[test]
fn paths_are_split_into_names() {
    assert_eq!(split_path(""), Vec::<String>::new());
    assert_eq!(split_path("a"), vec!["a"]);
    assert_eq!(split_path("a/b/c"), vec!["a", "b", "c"]);
    assert_eq!(split_path("a//b/"), vec!["a", "b"]);
    assert_eq!(split_path("a/./b/."), vec!["a", "b"]);
    assert_eq!(split_path("./a"), vec![".", "a"]);
    assert_eq!(split_path("../\u{e4}"), vec!["..", "\u{e4}"]);
    for path in ["", "a", "a//b/", "a/./b/.", "./a", ".", "./.", "../x", "a/.b/..", ".a"] {
        let expected: Vec<String> =
            std::path::Path::new(path).iter().map(|e| e.to_str().unwrap().to_string()).collect();
        assert_eq!(split_path(path), expected, "{path}");
    }
}

/// A host with a shared directory at /srv.
struct Host {
    /// Paths of inodes; `None` if reading one fails.
    paths: Vec<(u64, Option<&'static str>)>,
    /// What names lead to.
    entries: Vec<(u64, &'static str, u64)>,
    /// Inodes that are not where they are said to be.
    lost: Vec<u64>,
    /// Inodes for which no file handle can be generated.
    handleless: Vec<u64>,
    /// What was asked.
    checked: Vec<u64>,
}

impl Host {
    fn run(&mut self, fs: PassthroughFs) -> Finished {
        let mut walk = ConfirmPaths::new(fs).confirm_paths();
        loop {
            walk = match walk {
                Walk::RootPath(w) => {
                    let path = self.path(w.inode());
                    w.resume(path)
                }
                Walk::Presence(w) => {
                    self.checked.push(w.inode());
                    assert!(w.location().is_some());
                    let present = !self.lost.contains(&w.inode());
                    w.resume(present)
                }
                Walk::Path(w) => {
                    let path = self.path(w.inode());
                    w.resume(path)
                }
                Walk::Entry(w) => {
                    let found = self.entries.iter().find(|e| e.0 == w.parent() && e.1 == w.name());
                    let entry = match found {
                        Some(e) => Ok((e.2, 1)),
                        None => Err(IoError::Os(libc::ENOENT)),
                    };
                    w.resume(entry)
                }
                Walk::Info(w) => {
                    let handle = if self.handleless.contains(&w.inode()) {
                        Err(IoError::Os(libc::EOPNOTSUPP))
                    } else if w.needs_handle() {
                        Ok(Some(SerializableFileHandle { bytes: vec![w.inode() as u8] }))
                    } else {
                        Ok(None)
                    };
                    w.resume(handle)
                }
                Walk::Done(done) => return done,
            }
        }
    }

    fn path(&self, inode: u64) -> Result<Vec<u8>, IoError> {
        match self.paths.iter().find(|p| p.0 == inode) {
            Some((_, Some(path))) => Ok(path.as_bytes().to_vec()),
            _ => Err(IoError::Os(libc::EACCES)),
        }
    }
}

fn host() -> Host {
    Host {
        paths: vec![(1, Some("/srv")), (2, Some("/srv/a")), (3, Some("/srv/a/b"))],
        entries: vec![(1, "a", 2), (2, "b", 3)],
        lost: vec![],
        handleless: vec![],
        checked: vec![],
    }
}

#[test]
fn confirming_keeps_correct_locations() {
    let mut host = host();
    let fs = file_system(vec![root(), inode(2, Some((1, "a"))), inode(3, Some((7, "odd")))]);
    let done = host.run(fs);
    assert!(done.result.is_ok());
    assert_eq!(host.checked, vec![1, 2, 3]);
    assert_eq!(place(&done.fs, 2), Some((1, "a".to_string())));
    assert_eq!(place(&done.fs, 3), Some((7, "odd".to_string())));
    assert_eq!(done.fs.next_inode, 50);
}

#[test]
fn confirming_looks_up_what_is_missing() {
    let mut host = host();
    let done = host.run(file_system(vec![root(), inode(3, None), inode(2, None)]));
    assert!(done.result.is_ok());
    assert_eq!(place(&done.fs, 2), Some((1, "a".to_string())));
    assert_eq!(place(&done.fs, 3), Some((2, "b".to_string())));
    assert_eq!(done.fs.inodes.inodes[1].refcount, 30);
}

#[test]
fn confirming_replaces_wrong_locations() {
    let mut host = host();
    host.lost = vec![2];
    let fs = file_system(vec![root(), inode(2, Some((1, "old"))), inode(3, Some((2, "b")))]);
    let done = host.run(fs);
    assert!(done.result.is_ok());
    assert_eq!(place(&done.fs, 2), Some((1, "a".to_string())));
    assert_eq!(place(&done.fs, 3), Some((2, "b".to_string())));
}

#[test]
fn confirming_locates_inodes_on_the_way() {
    let mut host = host();
    let done = host.run(file_system(vec![root(), inode(3, None)]));
    assert!(done.result.is_ok());
    assert_eq!(done.fs.inodes.inodes.len(), 3);
    assert_eq!(place(&done.fs, 2), Some((1, "a".to_string())));
    assert_eq!(place(&done.fs, 3), Some((2, "b".to_string())));
}

#[test]
fn confirming_adds_handles_where_they_are_verified() {
    let mut host = host();
    let mut fs = file_system(vec![root(), inode(2, None)]);
    fs.cfg.migration_verify_handles = true;
    let done = host.run(fs);
    assert!(done.result.is_ok());
    let info = done.fs.inodes.inodes[1].migration_info.as_ref().unwrap();
    assert_eq!(info.file_handle.as_ref().unwrap().bytes, vec![2]);
}

#[test]
fn confirming_forgets_wrong_locations_that_cannot_be_replaced() {
    let mut host = host();
    host.lost = vec![2];
    host.paths[1] = (2, None);
    let fs = file_system(vec![root(), inode(2, Some((1, "old"))), inode(3, None)]);
    let done = host.run(fs);
    match done.result {
        Err(IoError::Context { context, source }) => {
            assert_eq!(context, "Failed to get path from /proc/self/fd");
            assert_eq!(source.raw_os_error(), Some(libc::EACCES));
        }
        other => panic!("{:?}", other),
    }
    // The walk went on: the location of the other inode was found, and with it that of the first.
    assert_eq!(place(&done.fs, 3), Some((2, "b".to_string())));
    assert_eq!(place(&done.fs, 2), Some((1, "a".to_string())));
}

#[test]
fn confirming_returns_the_first_error() {
    let mut host = host();
    host.paths = vec![(1, Some("/srv")), (2, Some("/elsewhere/a")), (3, None)];
    let done = host.run(file_system(vec![root(), inode(2, None), inode(3, None)]));
    match done.result {
        Err(IoError::OutsideDirectory { path, prefix }) => {
            assert_eq!(path, b"/elsewhere/a".to_vec());
            assert_eq!(prefix, b"/srv".to_vec());
        }
        other => panic!("{:?}", other),
    }
    assert_eq!(place(&done.fs, 2), None);
    // The others are kept too.
    assert_eq!(done.errors.len(), 2);
    assert_eq!((done.errors[0].inode, done.errors[1].inode), (2, 3));
    assert!(matches!(&done.errors[0].error, IoError::OutsideDirectory { .. }));
    assert!(matches!(&done.errors[1].error, IoError::Context { .. }));
}

#[test]
fn confirming_keeps_the_next_number_above_new_inodes() {
    let mut fs = file_system(vec![root(), inode(3, None)]);
    fs.next_inode = 2;
    let done = host().run(fs);
    assert!(done.result.is_ok());
    assert!(done.errors.is_empty());
    assert_eq!(done.fs.next_inode, 3);

    let done = host().run(file_system(vec![root(), inode(3, None)]));
    assert_eq!(done.fs.next_inode, 50);

    let mut far = host();
    far.entries = vec![(1, "a", u64::MAX), (u64::MAX, "b", 3)];
    let done = far.run(file_system(vec![root(), inode(3, None)]));
    assert_eq!(done.fs.next_inode, u64::MAX);
}

#[test]
fn errors_can_be_cloned() {
    for err in [
        IoError::Os(5),
        IoError::Other("a".to_string()),
        IoError::PermissionDenied("b".to_string()),
        IoError::NulInPath(3),
        IoError::BadTermination(Some(1)),
        IoError::OutsideDirectory { path: vec![1], prefix: vec![2] },
        IoError::NotUtf8 { path: vec![1, 255], rel_bytes: vec![255] },
        IoError::NotUnderPath { rel_path: "c".to_string() },
        IoError::Os(2).context("d").context("e"),
    ] {
        assert_eq!(format!("{:?}", err.clone()), format!("{:?}", err));
    }
}

#[test]
fn serializing_tells_why_inodes_are_invalid() {
    let mut fs = file_system(vec![root(), inode(2, None), inode(3, Some((1, "b")))]);
    fs.cfg.migration_verify_handles = true;
    match fs.serialize() {
        Serialization::Send { invalid, .. } => {
            let reasons: Vec<(u64, String)> = invalid
                .into_iter()
                .map(|failed| match failed.error {
                    IoError::Other(text) => (failed.inode, text),
                    other => panic!("{:?}", other),
                })
                .collect();
            let no_handle = "No prepared file handle found".to_string();
            assert_eq!(
                reasons,
                vec![
                    (1, no_handle.clone()),
                    (2, "Failed to reconstruct inode location".to_string()),
                    (3, no_handle),
                ]
            );
        }
        other => panic!("{:?}", other),
    }
}

#[test]
fn confirming_rejects_paths_to_other_inodes() {
    let mut host = host();
    host.paths[2] = (3, Some("/srv/a"));
    let done = host.run(file_system(vec![root(), inode(3, None)]));
    match done.result {
        Err(IoError::NotUnderPath { rel_path }) => assert_eq!(rel_path, "a"),
        other => panic!("{:?}", other),
    }
}

#[test]
fn confirming_rejects_names_that_lead_nowhere() {
    let mut host = host();
    host.entries.pop();
    let done = host.run(file_system(vec![root(), inode(3, None)]));
    assert_eq!(done.result.unwrap_err().raw_os_error(), Some(libc::ENOENT));
}

#[test]
fn confirming_rejects_inodes_without_handle() {
    let mut host = host();
    host.handleless = vec![2];
    let done = host.run(file_system(vec![root(), inode(2, None)]));
    assert_eq!(done.result.unwrap_err().raw_os_error(), Some(libc::EOPNOTSUPP));
    assert_eq!(place(&done.fs, 2), None);
}

#[test]
fn confirming_rejects_paths_that_are_not_utf8() {
    let mut walk = ConfirmPaths::new(file_system(vec![root(), inode(2, None)])).confirm_paths();
    loop {
        walk = match walk {
            Walk::RootPath(w) => w.resume(Ok(b"/srv".to_vec())),
            Walk::Presence(w) => w.resume(true),
            Walk::Path(w) => w.resume(Ok(b"/srv/\xff".to_vec())),
            Walk::Done(done) => {
                assert!(matches!(
                    done.result,
                    Err(IoError::NotUtf8 { path, rel_bytes })
                        if path == b"/srv/\xff".to_vec() && rel_bytes == b"\xff".to_vec()
                ));
                return;
            }
            other => panic!("{:?}", other),
        }
    }
}

#[test]
fn confirming_needs_a_root() {
    let done = host().run(file_system(vec![]));
    assert!(done.result.is_ok());
    match host().run(file_system(vec![inode(2, None)])).result {
        Err(IoError::Other(text)) => assert_eq!(text, "Root node not found"),
        other => panic!("{:?}", other),
    }
    let mut without_path = host();
    without_path.paths.clear();
    match without_path.run(file_system(vec![root()])).result {
        Err(IoError::Context { context, .. }) => {
            assert_eq!(context, "Failed to get shared directory's path")
        }
        other => panic!("{:?}", other),
    }
}

#[test]
fn preparing_starts_afresh() {
    let mut fs = file_system(vec![root(), inode(2, Some((1, "a")))]);
    fs.track_migration_info = false;
    assert_eq!(fs.prepare_serialization(), Preparation::ProcPaths);
    assert!(fs.track_migration_info);
    assert!(fs.inodes.inodes.iter().all(|d| d.migration_info.is_none()));
    assert_eq!(fs.inodes.inodes[1].refcount, 20);
    fs.cfg.migration_mode = MigrationMode::FileHandles;
    assert_eq!(fs.prepare_serialization(), Preparation::FileHandles);
}

#[test]
fn preparing_ends_with_a_check() {
    assert_eq!(Preparation::ProcPaths.next(false), Some(Preparation::CheckPaths));
    assert_eq!(Preparation::ProcPaths.next(true), Some(Preparation::FindPaths));
    assert_eq!(Preparation::FindPaths.next(true), Some(Preparation::CheckPaths));
    assert_eq!(Preparation::FileHandles.next(false), Some(Preparation::CheckPaths));
    assert_eq!(Preparation::CheckPaths.next(false), None);
}

fn sent(next: Serialization) -> serialized::PassthroughFsV1 {
    match next {
        Serialization::Send { state: serialized::PassthroughFs::V2(state), .. } => state.v1,
        other => panic!("{:?}", other),
    }
}

#[test]
fn serializing_sends_the_whole_state() {
    let mut fs = file_system(vec![root(), inode(2, Some((1, "a"))), inode(3, None)]);
    assert!(check_root_marks(&fs.inodes));
    let state = sent(fs.serialize());
    assert_eq!((state.next_inode, state.next_handle), (50, 4));
    assert_eq!(
        state.negotiated_opts,
        serialized::NegotiatedOpts {
            writeback: true,
            announce_submounts: false,
            posix_acl: true,
            sup_group_extension: false,
        }
    );
    assert_eq!(
        state.handles,
        vec![serialized::Handle {
            id: 3,
            inode: 2,
            source: serialized::HandleSource::OpenInode { flags: 0o2 },
        }]
    );
    assert_eq!(state.inodes.len(), 3);
    assert!(matches!(state.inodes[0].location, serialized::InodeLocation::RootNode));
    match &state.inodes[1].location {
        serialized::InodeLocation::Path { parent, filename } => {
            assert_eq!((*parent, filename.as_str()), (1, "a"))
        }
        other => panic!("{:?}", other),
    }
    assert_eq!((state.inodes[1].id, state.inodes[1].refcount), (2, 20));
    // An inode without a location is sent nevertheless.
    assert!(matches!(state.inodes[2].location, serialized::InodeLocation::Invalid));
    assert_eq!((state.inodes[2].id, state.inodes[2].refcount), (3, 30));
    assert!(!fs.track_migration_info);
    assert!(fs.inodes.inodes.iter().all(|d| d.migration_info.is_none()));
}

#[test]
fn serializing_sends_handles_only_to_be_verified() {
    let with_handle = || {
        let mut data = inode(2, Some((1, "a")));
        data.migration_info.as_mut().unwrap().file_handle =
            Some(SerializableFileHandle { bytes: vec![1, 2] });
        data
    };
    let mut fs = file_system(vec![with_handle(), inode(3, Some((1, "b")))]);
    let state = sent(fs.serialize());
    assert!(state.inodes[0].file_handle.is_none());
    let mut fs = file_system(vec![with_handle(), inode(3, Some((1, "b")))]);
    fs.cfg.migration_verify_handles = true;
    let state = sent(fs.serialize());
    assert_eq!(state.inodes[0].file_handle.as_ref().unwrap().bytes, vec![1, 2]);
    assert!(matches!(state.inodes[1].location, serialized::InodeLocation::Invalid));
}

#[test]
fn inodes_that_cannot_be_serialized_are_errors() {
    let mut fs = file_system(vec![]);
    match inode(2, None).as_serialized(&fs) {
        Err(IoError::Other(text)) => assert_eq!(text, "Failed to reconstruct inode location"),
        other => panic!("{:?}", other),
    }
    fs.cfg.migration_verify_handles = true;
    match inode(2, Some((1, "a"))).as_serialized(&fs) {
        Err(IoError::Other(text)) => assert_eq!(text, "No prepared file handle found"),
        other => panic!("{:?}", other),
    }
}

#[test]
fn serializing_waits_for_confirmation() {
    let mut fs = file_system(vec![root(), inode(2, Some((1, "a")))]);
    fs.cfg.migration_confirm_paths = true;
    assert!(matches!(fs.serialize(), Serialization::ConfirmPaths));
    assert!(!fs.track_migration_info);
    assert!(fs.inodes.inodes[1].migration_info.is_some());
    let state = sent(fs.serialize_confirmed(Ok(())));
    assert!(matches!(state.inodes[1].location, serialized::InodeLocation::Path { .. }));
    assert!(fs.inodes.inodes[1].migration_info.is_none());
}

#[test]
fn confirmed_inodes_can_be_found() {
    let mut fs = file_system(vec![root(), inode(3, None)]);
    fs.cfg.migration_confirm_paths = true;
    assert!(matches!(fs.serialize(), Serialization::ConfirmPaths));
    let done = host().run(fs);
    let mut fs = done.fs;
    let state = sent(fs.serialize_confirmed(done.result));
    assert_eq!(state.inodes.len(), 3);
    assert!(matches!(state.inodes[0].location, serialized::InodeLocation::RootNode));
    for sent in &state.inodes[1..] {
        assert!(matches!(sent.location, serialized::InodeLocation::Path { .. }));
    }
}

#[test]
fn serializing_fails_without_confirmation() {
    let mut fs = file_system(vec![root(), inode(2, Some((1, "a")))]);
    fs.cfg.migration_confirm_paths = true;
    assert!(matches!(fs.serialize(), Serialization::ConfirmPaths));
    match fs.serialize_confirmed(Err(IoError::Os(libc::EIO))) {
        Serialization::Fail(err) => assert_eq!(err.raw_os_error(), Some(libc::EIO)),
        other => panic!("{:?}", other),
    }
    assert!(fs.inodes.inodes.iter().all(|d| d.migration_info.is_none()));
}

#[test]
fn only_the_root_may_have_its_mark() {
    let mut unmarked_root = root();
    unmarked_root.migration_info = inode(1, Some((1, "x"))).migration_info;
    assert!(!check_root_marks(&InodeStore { inodes: vec![unmarked_root] }));
    let mut marked = inode(2, None);
    marked.migration_info = root().migration_info;
    assert!(!check_root_marks(&InodeStore { inodes: vec![marked] }));
    assert!(check_root_marks(&InodeStore { inodes: vec![root(), inode(2, None)] }));
}
