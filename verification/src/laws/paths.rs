//! Paths, and the buffers and links that they come from.

use vstd::prelude::*;

use crate::passthrough::util::{
    check_link_text, get_path_by_fd, names_no_file, openat_path, openat_result, printable_fd,
    proc_self_fd_name, relative_path, reopen_fd_through_proc, strip_nul, FdPathError,
};
use crate::passthrough::macos;
use crate::util::{c_length, IoError};

verus! {

/// There is no NUL among the bytes.
pub open spec fn has_no_nul(bytes: Seq<u8>) -> bool {
    forall|i: int| 0 <= i < bytes.len() ==> bytes[i] != 0
}

/// The first NUL among the bytes is at `at`.
pub open spec fn first_nul_at(bytes: Seq<u8>, at: int) -> bool {
    &&& 0 <= at < bytes.len()
    &&& bytes[at] == 0
    &&& forall|i: int| 0 <= i < at ==> bytes[i] != 0
}

/// The position of the first NUL, however it is said.
proof fn lemma_first_nul(bytes: Seq<u8>, at: int)
    ensures
        first_nul_at(bytes, at) ==> crate::util::c_len(bytes) == at,
        has_no_nul(bytes) ==> crate::util::c_len(bytes) == bytes.len(),
{
    if first_nul_at(bytes, at) {
        crate::util::lemma_c_len_unique(bytes, at as nat);
    }
    if has_no_nul(bytes) {
        crate::util::lemma_c_len_unique(bytes, bytes.len());
    }
}

/// The length of a C string is the position of its first NUL.
pub proof fn law_c_length_is_position_of_first_nul(bytes: &[u8], n: usize, at: int)
    requires
        call_ensures(c_length, (bytes,), n),
    ensures
        first_nul_at(bytes@, at) ==> n == at,
        has_no_nul(bytes@) ==> n == bytes@.len(),
{
    lemma_first_nul(bytes@, at);
}

/// A path is handed to the OS as its bytes and a NUL; one that holds a NUL is rejected, and the
/// error tells where the first one is.
pub proof fn law_openat_path_is_terminated(path: &str, bytes: Result<Vec<u8>, IoError>, at: int)
    requires
        call_ensures(openat_path, (path,), bytes),
        vstd::utf8::encode_utf8(path@).len() <= usize::MAX,
    ensures
        has_no_nul(vstd::utf8::encode_utf8(path@)) ==> (bytes matches Ok(b) && b@
            == vstd::utf8::encode_utf8(path@).push(0)),
        first_nul_at(vstd::utf8::encode_utf8(path@), at) ==> (bytes
            matches Err(IoError::NulInPath(position)) && position == at),
{
    lemma_first_nul(vstd::utf8::encode_utf8(path@), at);
}

/// A number that is not negative is a file descriptor; any other stands for the error number.
pub proof fn law_negative_descriptors_are_errors(
    fd: i32,
    errno: i32,
    result: Result<i32, IoError>,
)
    requires
        call_ensures(openat_result, (fd, errno), result),
    ensures
        result == (if fd < 0 {
            Err::<i32, IoError>(IoError::Os(errno))
        } else {
            Ok(fd)
        }),
{
}

/// What is opened in place of a descriptor is its name, with the flags but for the one of the host
/// that forbids to follow links.
pub proof fn law_reopening_follows_links(fd: i32, flags: i32, target: (String, i32), name: String)
    requires
        call_ensures(reopen_fd_through_proc, (fd, flags), target),
        call_ensures(proc_self_fd_name, (fd,), name),
    ensures
        target.0@ == name@,
        target.1 & 0o100000 == 0 && target.1 | (flags & 0o100000) == flags || target.1 & 0o400000
            == 0 && target.1 | (flags & 0o400000) == flags,
{
    let without = target.1;
    assert(without == flags & !0o100000i32 ==> without & 0o100000 == 0 && without | (flags
        & 0o100000) == flags) by (bit_vector);
    assert(without == flags & !0o400000i32 ==> without & 0o400000 == 0 && without | (flags
        & 0o400000) == flags) by (bit_vector);
}

/// Bytes with a NUL behind them lose it; an earlier NUL, or none, is an error.
pub proof fn law_only_last_nul_is_stripped(
    bytes: Vec<u8>,
    text: Seq<u8>,
    result: Result<Vec<u8>, IoError>,
    at: int,
)
    requires
        call_ensures(strip_nul, (bytes,), result),
        bytes@.len() <= usize::MAX,
    ensures
        bytes@ == text.push(0) && has_no_nul(text) ==> (result matches Ok(t) && t@ == text),
        first_nul_at(bytes@, at) && at + 1 < bytes@.len() ==> (result
            matches Err(IoError::BadTermination(Some(position))) && position == at),
        has_no_nul(bytes@) ==> result == Err::<Vec<u8>, IoError>(IoError::BadTermination(None)),
{
    lemma_first_nul(bytes@, at);
    if bytes@ == text.push(0) && has_no_nul(text) {
        crate::util::lemma_c_len_unique(bytes@, text.len());
        assert(bytes@.drop_last() =~= text);
    }
}

/// The text holds neither a colon nor a slash.
pub open spec fn is_plain(text: Seq<char>) -> bool {
    forall|i: int| 0 <= i < text.len() ==> text[i] != ':' && text[i] != '/'
}

/// Of colon and slash, what comes first decides: a text names no file if that is a colon.
pub proof fn law_first_mark_decides(text: &str, found: bool, before: Seq<char>, after: Seq<char>)
    requires
        call_ensures(names_no_file, (text,), found),
        is_plain(before),
    ensures
        text@ == before + seq![':'] + after ==> found,
        text@ == before + seq!['/'] + after ==> !found,
        text@ == before ==> !found,
{
    if text@ == before + seq![':'] + after {
        assert(text@[before.len() as int] == ':');
        assert forall|j: int| 0 <= j < before.len() implies text@[j] != '/' by {
            assert(text@[j] == before[j]);
        }
    }
    if text@ == before + seq!['/'] + after {
        assert(text@[before.len() as int] == '/');
        assert forall|j: int| 0 <= j < before.len() implies text@[j] != ':' by {
            assert(text@[j] == before[j]);
        }
    }
}

/// A link that names no file is an error that shows it whole; a path with the kernel's note that the
/// file was deleted, one that shows the path without it; and any other text is none.
pub proof fn law_links_of_deleted_files_are_errors(
    text: &str,
    no_file: bool,
    err: Option<FdPathError>,
    path: Seq<char>,
)
    requires
        call_ensures(names_no_file, (text,), no_file),
        call_ensures(check_link_text, (text,), err),
    ensures
        no_file ==> (err matches Some(FdPathError::NotAFile(t)) && t@ == text@),
        !no_file && text@ == path + " (deleted)"@ ==> (err matches Some(FdPathError::Deleted(p))
            && p@ == path),
        !no_file && err is Some ==> text@ == text@.take(text@.len() - 10) + " (deleted)"@,
{
    reveal_strlit(" (deleted)");
    if text@ == path + " (deleted)"@ {
        assert(text@.skip(text@.len() - 10) =~= " (deleted)"@);
        assert(text@.take(text@.len() - 10) =~= path);
    }
    if !no_file && err is Some {
        assert(text@ =~= text@.take(text@.len() - 10) + text@.skip(text@.len() - 10));
    }
}

/// The path that the OS wrote to a buffer, of which it says the length, is handed out whole if the
/// text that it makes passes the check of links, and else what is wrong with that text.  A path of
/// maximal length may be incomplete, and is an error.
pub proof fn law_link_gives_path(
    link_target: Vec<u8>,
    written: Seq<u8>,
    rest: Seq<u8>,
    text: &str,
    verdict: Option<FdPathError>,
    path: Result<Vec<u8>, FdPathError>,
)
    requires
        written.len() <= 4096,
        link_target@ == written.push(0) + rest,
        has_no_nul(written),
        text@ == crate::util::utf8_lossy(written),
        call_ensures(check_link_text, (text,), verdict),
        call_ensures(
            get_path_by_fd,
            (Ok::<usize, IoError>(written.len() as usize), link_target),
            path,
        ),
    ensures
        written.len() == 4096 ==> path == Err::<Vec<u8>, FdPathError>(FdPathError::TooLong),
        written.len() < 4096 ==> match verdict {
            Some(expected) => path matches Err(err) && err@ == expected@,
            None => path matches Ok(p) && p@ == written,
        },
        written.len() < 4096 && vstd::utf8::valid_utf8(written) ==> text@
            == vstd::utf8::decode_utf8(written),
{
    let bytes = crate::passthrough::util::link_bytes(written.len() as usize, link_target@);
    assert(bytes =~= written.push(0));
    crate::util::lemma_c_len_unique(bytes, written.len());
    assert(bytes.drop_last() =~= written);
}

/// An error of reading the link is handed on; a NUL in the path, or none behind it, is an error that
/// tells where it is.
pub proof fn law_broken_links_are_errors(
    read: usize,
    link_target: Vec<u8>,
    path: Result<Vec<u8>, FdPathError>,
    at: int,
    err: IoError,
    failed: Result<Vec<u8>, FdPathError>,
)
    requires
        read < 4096,
        read < link_target@.len(),
        call_ensures(get_path_by_fd, (Ok::<usize, IoError>(read), link_target), path),
        call_ensures(get_path_by_fd, (Err::<usize, IoError>(err), link_target), failed),
    ensures
        failed == Err::<Vec<u8>, FdPathError>(FdPathError::ReadLink(err)),
        first_nul_at(link_target@, at) && at < read ==> (path
            matches Err(FdPathError::InvalidCString(IoError::BadTermination(Some(position))))
            && position == at),
        has_no_nul(link_target@.take(read + 1)) ==> (path matches Err(
            FdPathError::InvalidCString(IoError::BadTermination(position)),
        ) && position is None),
{
    let bytes = crate::passthrough::util::link_bytes(read, link_target@);
    lemma_first_nul(bytes, at);
    if first_nul_at(link_target@, at) && at < read {
        assert forall|i: int| 0 <= i < at implies bytes[i] != 0 by {
            assert(bytes[i] == link_target@[i]);
        }
        assert(bytes[at] == 0);
    }
}

/// On macOS, the path in front of the first NUL of the buffer is handed out whole if the text that
/// it makes has no colon before its first slash.
pub proof fn law_buffer_gives_path(
    buf: Vec<u8>,
    written: Seq<u8>,
    rest: Seq<u8>,
    text: &str,
    no_file: bool,
    path: Result<Vec<u8>, FdPathError>,
)
    requires
        buf@ == written.push(0) + rest,
        has_no_nul(written),
        text@ == crate::util::utf8_lossy(written),
        call_ensures(names_no_file, (text,), no_file),
        call_ensures(macos::get_path_by_fd, (Ok::<(), IoError>(()), buf), path),
    ensures
        written.len() == 0 ==> (path matches Err(FdPathError::ReadLink(IoError::Other(t))) && t@
            == "F_GETPATH returned empty path"@),
        written.len() > 0 && no_file ==> (path matches Err(FdPathError::NotAFile(t)) && t@
            == text@),
        written.len() > 0 && !no_file ==> (path matches Ok(p) && p@ == written),
        written.len() > 0 && vstd::utf8::valid_utf8(written) ==> text@ == vstd::utf8::decode_utf8(
            written,
        ),
{
    crate::util::lemma_c_len_unique(buf@, written.len());
    assert(buf@.take(written.len() as int) =~= written);
}

/// On macOS, an error of asking for the path is handed on, and a buffer without a NUL is one.
pub proof fn law_broken_buffers_are_errors(
    buf: Vec<u8>,
    path: Result<Vec<u8>, FdPathError>,
    err: IoError,
    failed: Result<Vec<u8>, FdPathError>,
)
    requires
        buf@.len() > 0,
        call_ensures(macos::get_path_by_fd, (Ok::<(), IoError>(()), buf), path),
        call_ensures(macos::get_path_by_fd, (Err::<(), IoError>(err), buf), failed),
    ensures
        failed == Err::<Vec<u8>, FdPathError>(FdPathError::ReadLink(err)),
        has_no_nul(buf@) ==> (path matches Err(
            FdPathError::InvalidCString(IoError::BadTermination(position)),
        ) && position is None),
{
    lemma_first_nul(buf@, 0);
}

/// On macOS, what is opened in place of a descriptor is its path, with the flags but for the one
/// that forbids to follow links.
pub proof fn law_reopening_opens_path_again(
    buf: Vec<u8>,
    written: Seq<u8>,
    rest: Seq<u8>,
    flags: i32,
    target: Result<(Vec<u8>, i32), IoError>,
    err: IoError,
    failed: Result<(Vec<u8>, i32), IoError>,
)
    requires
        call_ensures(
            macos::reopen_fd_through_proc,
            (Ok::<(), IoError>(()), buf, flags),
            target,
        ),
        call_ensures(
            macos::reopen_fd_through_proc,
            (Err::<(), IoError>(err), buf, flags),
            failed,
        ),
    ensures
        failed == Err::<(Vec<u8>, i32), IoError>(err),
        buf@ == written.push(0) + rest && has_no_nul(written) ==> {
            &&& target matches Ok((path, new_flags))
            &&& path@ == written
            &&& new_flags & 0x100 == 0
            &&& new_flags | (flags & 0x100) == flags
        },
        has_no_nul(buf@) ==> (target matches Err(IoError::Other(t)) && t@
            == "F_GETPATH returned invalid path"@),
{
    lemma_first_nul(buf@, 0);
    if buf@ == written.push(0) + rest && has_no_nul(written) {
        crate::util::lemma_c_len_unique(buf@, written.len());
        assert(buf@.take(written.len() as int) =~= written);
        let new_flags = target->Ok_0.1;
        assert(new_flags & 0x100 == 0 && new_flags | (flags & 0x100) == flags) by (bit_vector)
            requires
                new_flags == flags & !0x100,
        ;
    }
}

/// Nothing but slashes is removed.
pub proof fn lemma_slashes_are_removed(n: nat, rest: Seq<u8>)
    requires
        rest.len() > 0 ==> rest[0] != 0x2f,
    ensures
        crate::passthrough::util::without_leading_slashes(
            Seq::new(n, |i: int| 0x2fu8) + rest,
        ) == rest,
    decreases n,
{
    let s = Seq::new(n, |i: int| 0x2fu8) + rest;
    if n > 0 {
        lemma_slashes_are_removed((n - 1) as nat, rest);
        assert(s.drop_first() =~= Seq::new((n - 1) as nat, |i: int| 0x2fu8) + rest);
    } else {
        assert(s =~= rest);
    }
}

/// Of a path that starts with a directory, what follows that and any number of slashes is handed
/// out; any other path is outside the directory.
pub proof fn law_relative_path_is_what_follows(
    path: &[u8],
    prefix: &[u8],
    n: nat,
    rest: Seq<u8>,
    result: Result<&[u8], IoError>,
)
    requires
        call_ensures(relative_path, (path, prefix), result),
        rest.len() > 0 ==> rest[0] != 0x2f,
    ensures
        path@ == prefix@ + Seq::new(n, |i: int| 0x2fu8) + rest ==> (result matches Ok(r) && r@
            == rest),
        !prefix@.is_prefix_of(path@) ==> (result matches Err(
            IoError::OutsideDirectory { path: p, prefix: d },
        ) && p@ == path@ && d@ == prefix@),
{
    if path@ == prefix@ + Seq::new(n, |i: int| 0x2fu8) + rest {
        lemma_slashes_are_removed(n, rest);
        assert(prefix@ =~= path@.subrange(0, prefix@.len() as int));
        assert(path@.skip(prefix@.len() as int) =~= Seq::new(n, |i: int| 0x2fu8) + rest);
    }
}

/// A descriptor is shown by its path, if that could be looked up, and else by its number.
pub proof fn law_descriptors_are_shown_by_path(
    fd: i32,
    path: Option<Result<Vec<u8>, FdPathError>>,
    text: String,
    name: String,
)
    requires
        call_ensures(printable_fd, (fd, path), text),
        call_ensures(proc_self_fd_name, (fd,), name),
    ensures
        path matches Some(Ok(p)) ==> text@ == crate::util::utf8_lossy(p@) && (
        vstd::utf8::valid_utf8(p@) ==> text@ == vstd::utf8::decode_utf8(p@)),
        !(path matches Some(Ok(_))) ==> text@ == "{fd:"@ + name@ + "}"@,
{
}

} // verus!
