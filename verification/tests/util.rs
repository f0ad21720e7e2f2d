use virtiofsd::passthrough::macos;
use virtiofsd::passthrough::util::{
    check_link_text, ebadf, einval, erofs, get_path_by_fd, is_safe_inode, names_no_file,
    openat_path, openat_result, printable_fd, proc_self_fd_name, relative_path,
    reopen_fd_through_proc, translate_linux_open_flags, translate_linux_seek_whence, without_flag,
    FdPathError, LINUX_SEEK_CUR, LINUX_SEEK_DATA, LINUX_SEEK_END, LINUX_SEEK_HOLE, LINUX_SEEK_SET,
};
use virtiofsd::util::IoError;

#[test]
fn seek_whence_constants_match_linux_abi() {
    assert_eq!(LINUX_SEEK_SET, 0);
    assert_eq!(LINUX_SEEK_CUR, 1);
    assert_eq!(LINUX_SEEK_END, 2);
    assert_eq!(LINUX_SEEK_DATA, 3);
    assert_eq!(LINUX_SEEK_HOLE, 4);
}

#[test]
fn translate_linux_seek_whence_basic_modes() {
    assert_eq!(translate_linux_seek_whence(LINUX_SEEK_SET).unwrap(), libc::SEEK_SET);
    assert_eq!(translate_linux_seek_whence(LINUX_SEEK_CUR).unwrap(), libc::SEEK_CUR);
    assert_eq!(translate_linux_seek_whence(LINUX_SEEK_END).unwrap(), libc::SEEK_END);
}

#[test]
fn translate_linux_seek_whence_data_and_hole() {
    assert_eq!(translate_linux_seek_whence(LINUX_SEEK_DATA).unwrap(), libc::SEEK_DATA);
    assert_eq!(translate_linux_seek_whence(LINUX_SEEK_HOLE).unwrap(), libc::SEEK_HOLE);
}

#[test]
fn translate_linux_seek_whence_actually_swaps_on_macos() {
    assert_eq!(macos::SEEK_HOLE, 3);
    assert_eq!(macos::SEEK_DATA, 4);
    assert_eq!(macos::translate_linux_seek_whence(LINUX_SEEK_DATA).unwrap(), 4);
    assert_eq!(macos::translate_linux_seek_whence(LINUX_SEEK_HOLE).unwrap(), 3);
}

#[test]
fn translate_linux_seek_whence_rejects_unknown() {
    let err = translate_linux_seek_whence(99).unwrap_err();
    assert_eq!(err.raw_os_error(), Some(libc::EINVAL));
}

#[test]
fn seek_whence_rejects_neighbours_of_known_values() {
    assert!(translate_linux_seek_whence(-1).is_err());
    assert!(translate_linux_seek_whence(5).is_err());
    assert_eq!(macos::translate_linux_seek_whence(99).unwrap_err().raw_os_error(), Some(22));
    assert_eq!(macos::translate_linux_seek_whence(2).unwrap(), 2);
}

#[test]
fn open_flags_are_native_on_linux() {
    assert_eq!(translate_linux_open_flags(libc::O_RDWR | libc::O_CREAT), libc::O_RDWR | libc::O_CREAT);
    assert_eq!(translate_linux_open_flags(-1), -1);
}

#[test]
fn open_flags_are_renumbered_on_macos() {
    // O_RDWR | O_CREAT | O_EXCL
    assert_eq!(macos::translate_linux_open_flags(0o302), 0x2 | 0x200 | 0x800);
    // O_WRONLY | O_TRUNC | O_APPEND | O_NONBLOCK
    assert_eq!(macos::translate_linux_open_flags(0o7001), 0x1 | 0x400 | 0x8 | 0x4);
    // O_DIRECTORY | O_NOFOLLOW | O_CLOEXEC | O_NOCTTY
    assert_eq!(
        macos::translate_linux_open_flags(0o200000 | 0o400000 | 0o2000000 | 0o400),
        0x100000 | 0x100 | 0x1000000 | 0x20000
    );
    assert_eq!(macos::translate_linux_open_flags(0), 0);
}

#[test]
fn access_mode_that_is_none_is_read_only_on_macos() {
    assert_eq!(macos::translate_linux_open_flags(3), 0);
}

#[test]
fn dsync_is_part_of_sync_on_macos() {
    assert_eq!(macos::translate_linux_open_flags(0o4010000), 0x80 | 0x400000);
    assert_eq!(macos::translate_linux_open_flags(0o10000), 0x80 | 0x400000);
    assert_eq!(macos::translate_linux_open_flags(0o4000000), 0x80);
}

#[test]
fn flags_without_equivalent_are_dropped_on_macos() {
    assert_eq!(macos::translate_linux_open_flags(0o40000 | 0o100000 | 0o1000000 | 0o101), 0x201);
}

#[test]
fn only_files_and_directories_are_safe() {
    assert!(is_safe_inode(libc::S_IFREG | 0o644));
    assert!(is_safe_inode(libc::S_IFDIR | 0o755));
    assert!(!is_safe_inode(libc::S_IFLNK | 0o777));
    assert!(!is_safe_inode(libc::S_IFIFO));
    assert!(!is_safe_inode(libc::S_IFSOCK));
    assert!(!is_safe_inode(libc::S_IFCHR));
    assert!(!is_safe_inode(libc::S_IFBLK));
    assert!(!is_safe_inode(0));
}

#[test]
fn error_numbers_are_those_of_the_host() {
    assert_eq!(ebadf().raw_os_error(), Some(libc::EBADF));
    assert_eq!(einval().raw_os_error(), Some(libc::EINVAL));
    assert_eq!(erofs().raw_os_error(), Some(libc::EROFS));
}

#[test]
fn context_hides_the_error_number() {
    assert_eq!(ebadf().context("opening").raw_os_error(), None);
}

#[test]
fn paths_for_openat_are_terminated() {
    assert_eq!(openat_path("a/b").unwrap(), b"a/b\0".to_vec());
    assert_eq!(openat_path("").unwrap(), vec![0u8]);
    assert!(matches!(openat_path("a\0b"), Err(IoError::NulInPath(1))));
}

#[test]
fn negative_descriptors_are_errors() {
    assert_eq!(openat_result(0, 7).unwrap(), 0);
    assert_eq!(openat_result(-1, libc::ENOENT).unwrap_err().raw_os_error(), Some(libc::ENOENT));
}

#[test]
fn descriptors_are_named_in_decimal() {
    assert_eq!(proc_self_fd_name(0), "0");
    assert_eq!(proc_self_fd_name(1907), "1907");
    assert_eq!(proc_self_fd_name(-100), "-100");
    assert_eq!(proc_self_fd_name(i32::MIN), "-2147483648");
    assert_eq!(proc_self_fd_name(i32::MAX), "2147483647");
}

#[test]
fn reopening_follows_links() {
    let (name, flags) = reopen_fd_through_proc(12, libc::O_RDWR | libc::O_NOFOLLOW);
    assert_eq!(name, "12");
    assert_eq!(flags, libc::O_RDWR);
    assert_eq!(without_flag(0o7, 0o2), 0o5);
}

fn link(target: &[u8]) -> Vec<u8> {
    let mut buf = target.to_vec();
    buf.resize(4097, 0);
    buf
}

#[test]
fn links_give_paths() {
    assert_eq!(get_path_by_fd(Ok(4), link(b"/a/b")).unwrap(), b"/a/b".to_vec());
    // A colon behind a slash does no harm.
    assert_eq!(get_path_by_fd(Ok(4), link(b"/a:b")).unwrap(), b"/a:b".to_vec());
    // Nor do bytes that are not UTF-8.
    assert_eq!(get_path_by_fd(Ok(3), link(b"/\xff\xfe")).unwrap(), b"/\xff\xfe".to_vec());
}

#[test]
fn links_that_cannot_be_read_are_errors() {
    let err = get_path_by_fd(Err(IoError::Os(libc::EACCES)), link(b""));
    assert!(matches!(err, Err(FdPathError::ReadLink(IoError::Os(libc::EACCES)))));
    assert!(matches!(get_path_by_fd(Ok(4096), link(b"")), Err(FdPathError::TooLong)));
}

#[test]
fn links_with_nuls_are_errors() {
    let err = get_path_by_fd(Ok(4), link(b"/\0ab"));
    assert!(matches!(err, Err(FdPathError::InvalidCString(IoError::BadTermination(Some(1))))));
    let err = get_path_by_fd(Ok(2), vec![1, 2, 3]);
    assert!(matches!(err, Err(FdPathError::InvalidCString(IoError::BadTermination(None)))));
}

#[test]
fn links_to_no_file_are_errors() {
    match get_path_by_fd(Ok(12), link(b"socket:[123]")) {
        Err(FdPathError::NotAFile(text)) => assert_eq!(text, "socket:[123]"),
        other => panic!("{:?}", other),
    }
    match get_path_by_fd(Ok(4), link(b"a:\xffb")) {
        Err(FdPathError::NotAFile(text)) => assert_eq!(text, "a:\u{fffd}b"),
        other => panic!("{:?}", other),
    }
    assert!(names_no_file("pipe:[7]"));
    assert!(!names_no_file("/x:y"));
    assert!(!names_no_file("plain"));
}

#[test]
fn links_to_deleted_files_are_errors() {
    match get_path_by_fd(Ok(12), link(b"/a (deleted)")) {
        Err(FdPathError::Deleted(text)) => assert_eq!(text, "/a"),
        other => panic!("{:?}", other),
    }
    assert!(check_link_text("/a (deleted) ").is_none());
    assert!(matches!(check_link_text(" (deleted)"), Some(FdPathError::Deleted(p)) if p.is_empty()));
}

#[test]
fn path_errors_as_text() {
    assert_eq!(FdPathError::ReadLink(einval()).to_text("bad"), "readlink: bad");
    assert_eq!(FdPathError::TooLong.to_text(""), "Path returned from readlink is too long");
    assert_eq!(
        FdPathError::InvalidCString(einval()).to_text("nul"),
        "readlink returned invalid path: nul"
    );
    assert_eq!(FdPathError::NotAFile("a:b".to_string()).to_text(""), "Not a file (a:b)");
    assert_eq!(FdPathError::Deleted("/a".to_string()).to_text(""), "Inode deleted (/a)");
}

#[test]
fn path_errors_as_general_errors() {
    match IoError::from(FdPathError::Deleted("/a".to_string())) {
        IoError::Other(text) => assert_eq!(text, "Inode deleted (/a)"),
        other => panic!("{:?}", other),
    }
    match IoError::from(FdPathError::TooLong) {
        IoError::Other(text) => assert_eq!(text, "Path returned from readlink is too long"),
        other => panic!("{:?}", other),
    }
    match IoError::from(FdPathError::ReadLink(einval())) {
        IoError::Context { context, source } => {
            assert_eq!(context, "readlink");
            assert_eq!(source.raw_os_error(), Some(libc::EINVAL));
        }
        other => panic!("{:?}", other),
    }
}

#[test]
fn descriptors_can_be_shown() {
    assert_eq!(printable_fd(3, None), "{fd:3}");
    assert_eq!(printable_fd(3, Some(Err(FdPathError::TooLong))), "{fd:3}");
    assert_eq!(printable_fd(3, Some(Ok(b"/a\xc3\xa4".to_vec()))), "/a\u{e4}");
    assert_eq!(printable_fd(3, Some(Ok(b"/\xff".to_vec()))), "/\u{fffd}");
}

#[test]
fn relative_paths_have_no_leading_slash() {
    assert_eq!(relative_path(b"/srv/share/a/b", b"/srv/share").unwrap(), b"a/b");
    assert_eq!(relative_path(b"/srv///a", b"/srv").unwrap(), b"a");
    assert_eq!(relative_path(b"/srv", b"/srv").unwrap(), b"");
    assert_eq!(relative_path(b"/a", b"/").unwrap(), b"a");
    assert_eq!(relative_path(b"/srv", b"").unwrap(), b"srv");
}

#[test]
fn relative_paths_outside_are_errors() {
    match relative_path(b"/other", b"/srv") {
        Err(IoError::OutsideDirectory { path, prefix }) => {
            assert_eq!(path, b"/other".to_vec());
            assert_eq!(prefix, b"/srv".to_vec());
        }
        other => panic!("{:?}", other),
    }
    assert!(relative_path(b"/s", b"/srv").is_err());
}

#[test]
fn macos_paths_come_from_the_buffer() {
    assert_eq!(macos::get_path_by_fd(Ok(()), b"/a\0\0\0".to_vec()).unwrap(), b"/a".to_vec());
    assert!(matches!(
        macos::get_path_by_fd(Err(IoError::Os(9)), vec![]),
        Err(FdPathError::ReadLink(IoError::Os(9)))
    ));
    match macos::get_path_by_fd(Ok(()), b"\0abc".to_vec()) {
        Err(FdPathError::ReadLink(IoError::Other(text))) => {
            assert_eq!(text, "F_GETPATH returned empty path")
        }
        other => panic!("{:?}", other),
    }
    assert!(matches!(
        macos::get_path_by_fd(Ok(()), b"/abc".to_vec()),
        Err(FdPathError::InvalidCString(IoError::BadTermination(None)))
    ));
    assert!(matches!(
        macos::get_path_by_fd(Ok(()), b"pipe:1\0".to_vec()),
        Err(FdPathError::NotAFile(text)) if text == "pipe:1"
    ));
    // There is no note on deleted files there.
    assert!(macos::get_path_by_fd(Ok(()), b"/a (deleted)\0".to_vec()).is_ok());
}

#[test]
fn macos_reopens_paths() {
    let (path, flags) = macos::reopen_fd_through_proc(Ok(()), b"/a\0x".to_vec(), 0x102).unwrap();
    assert_eq!(path, b"/a".to_vec());
    assert_eq!(flags, 0x2);
    assert_eq!(
        macos::reopen_fd_through_proc(Err(IoError::Os(5)), vec![], 0).unwrap_err().raw_os_error(),
        Some(5)
    );
    match macos::reopen_fd_through_proc(Ok(()), b"/a".to_vec(), 0) {
        Err(IoError::Other(text)) => assert_eq!(text, "F_GETPATH returned invalid path"),
        other => panic!("{:?}", other),
    }
}
