//! Helpers around file descriptors, paths, modes and error numbers.

use vstd::prelude::*;

use crate::passthrough::host::{
    libc_ebadf, libc_einval, libc_erofs, libc_o_nofollow, libc_path_max, libc_s_ifdir, libc_s_ifmt, libc_s_ifreg,
};
use crate::util::{
    c_length, other_io_error, push_signed_decimal, string_from_utf8_lossy, IoError, IoErrorView,
};

verus! {

/// "Bad file descriptor".
pub const EBADF: i32 = 9;

/// "Invalid argument".
pub const EINVAL: i32 = 22;

/// "Read-only file system".
pub const EROFS: i32 = 30;

/// FUSE wire `whence` values for `lseek` (Linux numbering).
///
/// The FUSE protocol always uses Linux's numeric values, regardless of the host platform.
pub const LINUX_SEEK_SET: i32 = 0;
pub const LINUX_SEEK_CUR: i32 = 1;
pub const LINUX_SEEK_END: i32 = 2;
pub const LINUX_SEEK_DATA: i32 = 3;
pub const LINUX_SEEK_HOLE: i32 = 4;

/// Translates Linux open(2) flags to those of a Linux host, where they are native already.
pub fn translate_linux_open_flags(linux_flags: i32) -> (flags: i32)
    ensures
        flags == linux_flags,
{
    linux_flags
}

/// Translates a FUSE-wire `whence` value to the one that a Linux host takes.  The modes that exist
/// are native already; every other value is an invalid argument.
pub fn translate_linux_seek_whence(linux_whence: i32) -> (whence: Result<i32, IoError>)
    ensures
        if LINUX_SEEK_SET <= linux_whence <= LINUX_SEEK_HOLE {
            whence == Ok::<i32, IoError>(linux_whence)
        } else {
            whence matches Err(err) && err@ == IoErrorView::Os(EINVAL)
        },
{
    match linux_whence {
        LINUX_SEEK_SET | LINUX_SEEK_CUR | LINUX_SEEK_END | LINUX_SEEK_DATA | LINUX_SEEK_HOLE => Ok(
            linux_whence,
        ),
        _ => Err(einval()),
    }
}

/// The bits of a mode that give the type of the file.
pub open spec fn file_type(mode: u32) -> u32 {
    mode & 0o170000
}

/// Returns true if it's safe to open this inode without `O_PATH`: only regular files and
/// directories are.
pub fn is_safe_inode(mode: u32) -> (safe: bool)
    ensures
        safe == (file_type(mode) == 0o100000 || file_type(mode) == 0o040000),
{
    let kind: u32 = mode & libc_s_ifmt();
    kind == libc_s_ifreg() || kind == libc_s_ifdir()
}

/// "Bad file descriptor", as an error.
pub fn ebadf() -> (err: IoError)
    ensures
        err@ == IoErrorView::Os(EBADF),
{
    IoError::Os(libc_ebadf())
}

/// "Invalid argument", as an error.
pub fn einval() -> (err: IoError)
    ensures
        err@ == IoErrorView::Os(EINVAL),
{
    IoError::Os(libc_einval())
}

/// "Read-only file system", as an error.
pub fn erofs() -> (err: IoError)
    ensures
        err@ == IoErrorView::Os(EROFS),
{
    IoError::Os(libc_erofs())
}

/// `bytes` are a C string: their only NUL is at the end.
pub open spec fn is_c_string(bytes: Seq<u8>) -> bool {
    crate::util::c_len(bytes) + 1 == bytes.len()
}

/// The bytes to hand to openat(2) for `path`: its text and a NUL.  A path that holds a NUL itself
/// is invalid data.
pub fn openat_path(path: &str) -> (bytes: Result<Vec<u8>, IoError>)
    ensures
        ({
            let text = vstd::utf8::encode_utf8(path@);
            let len = crate::util::c_len(text);
            if len == text.len() {
                bytes matches Ok(b) && b@ == text.push(0)
            } else {
                bytes matches Err(err) && err@ == IoErrorView::NulInPath(len as usize)
            }
        }),
{
    let text: &[u8] = path.as_bytes();
    let len: usize = c_length(text);
    proof {
        crate::util::lemma_c_len(text@);
    }
    if len < text.len() {
        return Err(IoError::NulInPath(len));
    }
    let mut bytes: Vec<u8> = vstd::slice::slice_to_vec(text);
    bytes.push(0);
    Ok(bytes)
}

/// What a system call that returns a file descriptor did: the descriptor, or, if the number that
/// it returned is negative, the error number.
pub fn openat_result(fd: i32, errno: i32) -> (result: Result<i32, IoError>)
    ensures
        fd >= 0 ==> result == Ok::<i32, IoError>(fd),
        fd < 0 ==> result == Err::<i32, IoError>(IoError::Os(errno)),
{
    if fd >= 0 {
        Ok(fd)
    } else {
        Err(IoError::Os(errno))
    }
}

/// The name of the file descriptor `fd` in /proc/self/fd.
pub fn proc_self_fd_name(fd: i32) -> (name: String)
    ensures
        name@ == crate::util::signed_decimal(fd as int),
{
    let mut name: String = String::new();
    push_signed_decimal(&mut name, fd);
    assert(name@ =~= crate::util::signed_decimal(fd as int));
    name
}

/// `flags` without the flag `nofollow`.
pub fn without_flag(flags: i32, nofollow: i32) -> (rest: i32)
    ensures
        rest == flags & !nofollow,
{
    flags & !nofollow
}

/// What to open, and with which flags, to duplicate `fd` through /proc/self/fd with new flags: the
/// link in /proc/self/fd has to be followed, so the host's `O_NOFOLLOW` is cleared.
pub fn reopen_fd_through_proc(fd: i32, flags: i32) -> (target: (String, i32))
    ensures
        target.0@ == crate::util::signed_decimal(fd as int),
        target.1 == flags & !0o100000 || target.1 == flags & !0o400000,
{
    (proc_self_fd_name(fd), without_flag(flags, libc_o_nofollow()))
}

/// Errors that looking up the path of a file descriptor can encounter.
///
/// This specialized error type exists so that callers can decide which errors they consider
/// recoverable.
#[derive(Debug)]
pub enum FdPathError {
    /// Reading the link failed with the contained error.
    ReadLink(IoError),
    /// Link name is too long.
    TooLong,
    /// Link name is not a valid C string.
    InvalidCString(IoError),
    /// Returned path (contained string) is not a plain file path.
    NotAFile(String),
    /// Returned path (contained string) is reported to be deleted, i.e. no longer valid.
    Deleted(String),
}

/// What an [`FdPathError`] says.
pub ghost enum FdPathErrorView {
    ReadLink(IoErrorView),
    TooLong,
    InvalidCString(IoErrorView),
    NotAFile(Seq<char>),
    Deleted(Seq<char>),
}

impl View for FdPathError {
    type V = FdPathErrorView;

    open spec fn view(&self) -> FdPathErrorView {
        match *self {
            FdPathError::ReadLink(err) => FdPathErrorView::ReadLink(err@),
            FdPathError::TooLong => FdPathErrorView::TooLong,
            FdPathError::InvalidCString(err) => FdPathErrorView::InvalidCString(err@),
            FdPathError::NotAFile(path) => FdPathErrorView::NotAFile(path@),
            FdPathError::Deleted(path) => FdPathErrorView::Deleted(path@),
        }
    }
}

/// The text has a colon before its first slash, as the links of pipes, sockets and the like have.
pub open spec fn has_colon_before_slash(text: Seq<char>) -> bool {
    exists|i: int| #![trigger text[i]]
        0 <= i < text.len() && text[i] == ':' && forall|j: int| 0 <= j < i ==> text[j] != '/'
}

/// The text ends in the note that the kernel adds to the path of a file that was deleted.
pub open spec fn has_deleted_note(text: Seq<char>) -> bool {
    &&& text.len() >= 10
    &&& text.skip(text.len() - 10) == " (deleted)"@
}

/// Why a link with this text gives no path, if it does not.
pub open spec fn link_text_error(text: Seq<char>) -> Option<FdPathErrorView> {
    if has_colon_before_slash(text) {
        Some(FdPathErrorView::NotAFile(text))
    } else if has_deleted_note(text) {
        Some(FdPathErrorView::Deleted(text.take(text.len() - 10)))
    } else {
        None
    }
}

/// Whether there is a colon before the first slash of `text`.
pub fn names_no_file(text: &str) -> (found: bool)
    ensures
        found == has_colon_before_slash(text@),
{
    let len: usize = text.unicode_len();
    let mut i: usize = 0;
    while i < len
        invariant
            i <= len,
            len == text@.len(),
            forall|j: int| 0 <= j < i ==> text@[j] != '/' && text@[j] != ':',
        decreases len - i,
    {
        let c: char = text.get_char(i);
        if c == ':' {
            assert(text@[i as int] == ':');
            return true;
        }
        if c == '/' {
            assert forall|k: int| 0 <= k < text@.len() && text@[k] == ':' implies exists|j: int|
                0 <= j < k && text@[j] == '/' by {
                assert(text@[i as int] == '/');
                assert(i < k);
            }
            return false;
        }
        i += 1;
    }
    false
}

/// Checks the text of a link: an error, if it does not name a file that exists.
pub fn check_link_text(text: &str) -> (err: Option<FdPathError>)
    ensures
        match link_text_error(text@) {
            Some(expected) => err matches Some(e) && e@ == expected,
            None => err is None,
        },
{
    if names_no_file(text) {
        return Some(FdPathError::NotAFile(text.to_owned()));
    }
    let len: usize = text.unicode_len();
    proof {
        reveal_strlit(" (deleted)");
    }
    if len >= 10 {
        let tail: &str = text.substring_char(len - 10, len);
        assert(tail@ =~= text@.skip(len - 10));
        if tail.to_owned() == " (deleted)".to_owned() {
            let path: &str = text.substring_char(0, len - 10);
            assert(path@ =~= text@.take(len - 10));
            return Some(FdPathError::Deleted(path.to_owned()));
        }
    }
    None
}

/// Removes the NUL at the end of a C string.
pub fn strip_nul(bytes: Vec<u8>) -> (text: Result<Vec<u8>, IoError>)
    ensures
        if is_c_string(bytes@) {
            text matches Ok(t) && t@ == bytes@.drop_last()
        } else {
            text matches Err(err) && err@ == IoErrorView::BadTermination(
                if crate::util::c_len(bytes@) == bytes@.len() {
                    None
                } else {
                    Some(crate::util::c_len(bytes@) as usize)
                },
            )
        },
{
    let len: usize = c_length(bytes.as_slice());
    proof {
        crate::util::lemma_c_len(bytes@);
    }
    if len == bytes.len() {
        return Err(IoError::BadTermination(None));
    }
    if len + 1 < bytes.len() {
        return Err(IoError::BadTermination(Some(len)));
    }
    let mut text: Vec<u8> = bytes;
    text.truncate(len);
    assert(text@ =~= bytes@.drop_last());
    Ok(text)
}

/// The bytes that the OS wrote to the buffer `link_target`, of which there are `read`, and the one
/// behind them.
pub open spec fn link_bytes(read: usize, link_target: Seq<u8>) -> Seq<u8> {
    if read < link_target.len() {
        link_target.take(read + 1)
    } else {
        link_target
    }
}

/// What reading a link of /proc/self/fd into the buffer `link_target` gave, where `read` is how
/// many bytes the OS wrote there.
pub open spec fn path_of_link(read: usize, link_target: Seq<u8>) -> Result<
    Seq<u8>,
    FdPathErrorView,
> {
    let bytes = link_bytes(read, link_target);
    let len = crate::util::c_len(bytes);
    if read == 4096 {
        Err(FdPathErrorView::TooLong)
    } else if len == bytes.len() {
        Err(FdPathErrorView::InvalidCString(IoErrorView::BadTermination(None)))
    } else if !is_c_string(bytes) {
        Err(FdPathErrorView::InvalidCString(IoErrorView::BadTermination(Some(len as usize))))
    } else {
        let path = bytes.drop_last();
        match link_text_error(crate::util::utf8_lossy(path)) {
            Some(err) => Err(err),
            None => Ok(path),
        }
    }
}

/// The path of a file descriptor, given what readlinkat(2) on its name in /proc/self/fd returned
/// (how many bytes it wrote, or its error) and the buffer that it was given, which has room for a
/// path of maximal length and a NUL, and was filled with NULs before.
pub fn get_path_by_fd(read: Result<usize, IoError>, link_target: Vec<u8>) -> (path: Result<
    Vec<u8>,
    FdPathError,
>)
    requires
        read matches Ok(n) ==> n <= 4096,
    ensures
        match read {
            Err(err) => path == Err::<Vec<u8>, FdPathError>(FdPathError::ReadLink(err)),
            Ok(n) => match path_of_link(n, link_target@) {
                Ok(expected) => path matches Ok(p) && p@ == expected,
                Err(expected) => path matches Err(err) && err@ == expected,
            },
        },
        read matches Ok(n) ==> n < 4096 && is_c_string(link_bytes(n, link_target@))
            ==> crate::util::lossy_keeps_utf8(link_bytes(n, link_target@).drop_last()),
{
    let n: usize = match read {
        Err(err) => return Err(FdPathError::ReadLink(err)),
        Ok(n) => n,
    };
    if n == libc_path_max() {
        return Err(FdPathError::TooLong);
    }
    let mut bytes: Vec<u8> = link_target;
    bytes.truncate(n + 1);
    proof {
        if n < link_target@.len() {
            assert(bytes@ =~= link_target@.take(n + 1));
        }
    }
    let path: Vec<u8> = match strip_nul(bytes) {
        Err(err) => return Err(FdPathError::InvalidCString(err)),
        Ok(path) => path,
    };
    let text: String = string_from_utf8_lossy(path.as_slice());
    match check_link_text(text.as_str()) {
        Some(err) => Err(err),
        None => Ok(path),
    }
}

/// A path that the kernel wrote to the start of a buffer of NULs is read back unchanged, if it names
/// a file that exists and there was room for all of it.
pub proof fn law_path_is_read_back(path: Seq<u8>, link_target: Seq<u8>)
    requires
        path.len() < 4096,
        path.len() < link_target.len(),
        path.is_prefix_of(link_target),
        forall|i: int| 0 <= i < path.len() ==> path[i] != 0,
        forall|i: int| path.len() <= i < link_target.len() ==> link_target[i] == 0,
        link_text_error(crate::util::utf8_lossy(path)) is None,
    ensures
        path_of_link(path.len() as usize, link_target) == Ok::<Seq<u8>, FdPathErrorView>(path),
{
    let bytes = link_target.take(path.len() as int + 1);
    assert forall|i: int| 0 <= i < path.len() implies bytes[i] == path[i] by {
        assert(link_target.subrange(0, path.len() as int)[i] == path[i]);
    }
    crate::util::lemma_c_len_unique(bytes, path.len());
    assert(bytes.drop_last() =~= path);
}

/// `text` in brackets behind `label` and a blank.
fn labelled(label: &str, text: &String) -> (out: String)
    ensures
        out@ == label@ + " ("@ + text@ + ")"@,
{
    let mut out: String = label.to_owned();
    out.append(" (");
    out.append(text.as_str());
    out.append(")");
    out
}

impl FdPathError {
    /// The error as text.  `cause` is the text of the contained error, where there is one.
    pub fn to_text(&self, cause: &str) -> (text: String)
        ensures
            text@ == (match self@ {
                FdPathErrorView::ReadLink(_) => "readlink: "@ + cause@,
                FdPathErrorView::TooLong => "Path returned from readlink is too long"@,
                FdPathErrorView::InvalidCString(_) => "readlink returned invalid path: "@ + cause@,
                FdPathErrorView::NotAFile(path) => "Not a file"@ + " ("@ + path + ")"@,
                FdPathErrorView::Deleted(path) => "Inode deleted"@ + " ("@ + path + ")"@,
            }),
    {
        match self {
            FdPathError::ReadLink(_) => {
                let mut text: String = "readlink: ".to_owned();
                text.append(cause);
                text
            },
            FdPathError::TooLong => "Path returned from readlink is too long".to_owned(),
            FdPathError::InvalidCString(_) => {
                let mut text: String = "readlink returned invalid path: ".to_owned();
                text.append(cause);
                text
            },
            FdPathError::NotAFile(path) => labelled("Not a file", path),
            FdPathError::Deleted(path) => labelled("Inode deleted", path),
        }
    }
}

/// What an [`FdPathError`] is as a general error.
pub open spec fn fd_path_io_error(err: FdPathErrorView) -> IoErrorView {
    match err {
        FdPathErrorView::ReadLink(err) => crate::util::in_context("readlink"@, err),
        FdPathErrorView::TooLong => IoErrorView::Other("Path returned from readlink is too long"@),
        FdPathErrorView::InvalidCString(err) => crate::util::in_context(
            "readlink returned invalid path"@,
            err,
        ),
        FdPathErrorView::NotAFile(path) => IoErrorView::Other(
            "Not a file"@ + " ("@ + path + ")"@,
        ),
        FdPathErrorView::Deleted(path) => IoErrorView::Other(
            "Inode deleted"@ + " ("@ + path + ")"@,
        ),
    }
}

impl vstd::std_specs::convert::FromSpecImpl<FdPathError> for IoError {
    open spec fn obeys_from_spec() -> bool {
        false
    }

    open spec fn from_spec(err: FdPathError) -> IoError {
        arbitrary()
    }
}

impl From<FdPathError> for IoError {
    /// The error as a general one.
    fn from(err: FdPathError) -> (io_err: IoError)
        ensures
            io_err@ == fd_path_io_error(err@),
    {
        match err {
            FdPathError::ReadLink(err) => err.context("readlink"),
            FdPathError::TooLong => other_io_error("Path returned from readlink is too long"),
            FdPathError::InvalidCString(err) => err.context("readlink returned invalid path"),
            FdPathError::NotAFile(path) => IoError::Other(labelled("Not a file", &path)),
            FdPathError::Deleted(path) => IoError::Other(labelled("Inode deleted", &path)),
        }
    }
}

/// Debugging helper: a string for the file descriptor `fd` that can be shown to the user.  `path`
/// is the outcome of looking its path up, if that was tried; without a path, the string is the
/// integer, as in `{fd:3}`.
pub fn printable_fd(fd: i32, path: Option<Result<Vec<u8>, FdPathError>>) -> (text: String)
    ensures
        text@ == (match path {
            Some(Ok(path)) => crate::util::utf8_lossy(path@),
            _ => "{fd:"@ + crate::util::signed_decimal(fd as int) + "}"@,
        }),
        path matches Some(Ok(p)) ==> crate::util::lossy_keeps_utf8(p@),
{
    if let Some(Ok(path)) = path {
        return string_from_utf8_lossy(path.as_slice());
    }
    let mut text: String = "{fd:".to_owned();
    push_signed_decimal(&mut text, fd);
    text.append("}");
    text
}

/// `s` without the slashes that it starts with.
pub open spec fn without_leading_slashes(s: Seq<u8>) -> Seq<u8>
    decreases s.len(),
{
    if s.len() > 0 && s[0] == 0x2f {
        without_leading_slashes(s.drop_first())
    } else {
        s
    }
}

/// `n` slashes.
pub open spec fn slashes(n: nat) -> Seq<u8> {
    Seq::new(n, |i: int| 0x2fu8)
}

/// The part of `path` below `prefix`, without leading slashes.
pub fn relative_path<'a>(path: &'a [u8], prefix: &[u8]) -> (rest: Result<&'a [u8], IoError>)
    ensures
        if prefix@.is_prefix_of(path@) {
            rest matches Ok(r) && r@ == without_leading_slashes(
                path@.skip(prefix@.len() as int),
            )
        } else {
            rest matches Err(err) && err@ == (IoErrorView::OutsideDirectory {
                path: path@,
                prefix: prefix@,
            })
        },
{
    let mut n: usize = 0;
    while n < prefix.len() && n < path.len() && path[n] == prefix[n]
        invariant
            n <= prefix.len(),
            n <= path.len(),
            forall|i: int| 0 <= i < n ==> path[i] == prefix[i],
        decreases prefix.len() - n,
    {
        n += 1;
    }
    if n < prefix.len() {
        assert(!prefix@.is_prefix_of(path@)) by {
            if prefix@.is_prefix_of(path@) {
                assert(prefix@[n as int] == path@.subrange(0, prefix@.len() as int)[n as int]);
            }
        }
        return Err(
            IoError::OutsideDirectory {
                path: vstd::slice::slice_to_vec(path),
                prefix: vstd::slice::slice_to_vec(prefix),
            },
        );
    }
    assert(prefix@ =~= path@.subrange(0, prefix@.len() as int));
    let mut start: usize = n;
    while start < path.len() && path[start] == 0x2f
        invariant
            n <= start <= path.len(),
            without_leading_slashes(path@.skip(start as int)) == without_leading_slashes(
                path@.skip(n as int),
            ),
        decreases path.len() - start,
    {
        assert(path@.skip(start as int).drop_first() =~= path@.skip(start + 1));
        start += 1;
    }
    let rest: &[u8] = vstd::slice::slice_subrange(path, start, path.len());
    assert(rest@ =~= path@.skip(start as int));
    Ok(rest)
}

/// The part of a path below a directory does not start with a slash, and is what is left of the
/// path behind the directory and a number of slashes.
pub proof fn law_relative_path_is_rest_of_path(path: Seq<u8>, prefix: Seq<u8>)
    requires
        prefix.is_prefix_of(path),
    ensures
        ({
            let rest = without_leading_slashes(path.skip(prefix.len() as int));
            &&& rest.len() > 0 ==> rest[0] != 0x2f
            &&& exists|n: nat| path == prefix + #[trigger] slashes(n) + rest
        }),
{
    let below = path.skip(prefix.len() as int);
    lemma_without_leading_slashes(below);
    let rest = without_leading_slashes(below);
    let n = (below.len() - rest.len()) as nat;
    assert(path =~= prefix + below);
    assert(path =~= prefix + slashes(n) + rest);
}

/// Only slashes are removed, and all of them.
proof fn lemma_without_leading_slashes(s: Seq<u8>)
    ensures
        without_leading_slashes(s).len() <= s.len(),
        without_leading_slashes(s).len() > 0 ==> without_leading_slashes(s)[0] != 0x2f,
        s == slashes((s.len() - without_leading_slashes(s).len()) as nat)
            + without_leading_slashes(s),
    decreases s.len(),
{
    if s.len() > 0 && s[0] == 0x2f {
        lemma_without_leading_slashes(s.drop_first());
        assert(s =~= seq![0x2fu8] + s.drop_first());
    }
    assert(s =~= slashes((s.len() - without_leading_slashes(s).len()) as nat)
        + without_leading_slashes(s));
}

} // verus!
