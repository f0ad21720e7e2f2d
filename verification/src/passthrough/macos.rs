//! What a macOS host needs beside the shared logic: its own numbering of flags and modes, and an
//! emulation of Linux's `fallocate`.

use vstd::prelude::*;

use crate::passthrough::util::{
    einval, names_no_file, strip_nul, without_flag, FdPathError, FdPathErrorView, EINVAL,
    LINUX_SEEK_CUR, LINUX_SEEK_DATA, LINUX_SEEK_END, LINUX_SEEK_HOLE, LINUX_SEEK_SET,
};
use crate::util::{c_length, other_io_error, string_from_utf8_lossy, IoError, IoErrorView};

verus! {

/// Open flags as a FUSE client sends them: Linux numbering.
pub const LINUX_O_RDONLY: i32 = 0o0;
pub const LINUX_O_WRONLY: i32 = 0o1;
pub const LINUX_O_RDWR: i32 = 0o2;
pub const LINUX_O_ACCMODE: i32 = 0o3;
pub const LINUX_O_CREAT: i32 = 0o100;
pub const LINUX_O_EXCL: i32 = 0o200;
pub const LINUX_O_NOCTTY: i32 = 0o400;
pub const LINUX_O_TRUNC: i32 = 0o1000;
pub const LINUX_O_APPEND: i32 = 0o2000;
pub const LINUX_O_NONBLOCK: i32 = 0o4000;
pub const LINUX_O_DSYNC: i32 = 0o10000;
pub const LINUX_O_DIRECT: i32 = 0o40000;
pub const LINUX_O_LARGEFILE: i32 = 0o100000;
pub const LINUX_O_DIRECTORY: i32 = 0o200000;
pub const LINUX_O_NOFOLLOW: i32 = 0o400000;
pub const LINUX_O_NOATIME: i32 = 0o1000000;
pub const LINUX_O_CLOEXEC: i32 = 0o2000000;
/// Linux's `O_SYNC` contains the bit of `O_DSYNC`.
pub const LINUX_O_SYNC: i32 = 0o4010000;

/// Open flags as macOS numbers them.
pub const O_RDONLY: i32 = 0;
pub const O_WRONLY: i32 = 1;
pub const O_RDWR: i32 = 2;
pub const O_NONBLOCK: i32 = 0x4;
pub const O_APPEND: i32 = 0x8;
pub const O_SYNC: i32 = 0x80;
pub const O_NOFOLLOW: i32 = 0x100;
pub const O_CREAT: i32 = 0x200;
pub const O_TRUNC: i32 = 0x400;
pub const O_EXCL: i32 = 0x800;
pub const O_NOCTTY: i32 = 0x20000;
pub const O_DIRECTORY: i32 = 0x100000;
pub const O_DSYNC: i32 = 0x400000;
pub const O_CLOEXEC: i32 = 0x1000000;

/// Every bit that a translated set of flags can have.
pub const TRANSLATED_FLAGS: i32 = 0x1520f8f;

/// `native` is what the Linux open flags `wire` are on macOS: the same access mode (read-only for
/// the value that is none), each flag that macOS has if and only if one of the bits of the Linux
/// flag is set, and nothing else.
pub open spec fn is_native_open_flags(wire: i32, native: i32) -> bool {
    &&& native & 3 == (if wire & LINUX_O_ACCMODE == 3 {
        O_RDONLY
    } else {
        wire & LINUX_O_ACCMODE
    })
    &&& native & O_CREAT == (if wire & LINUX_O_CREAT != 0 { O_CREAT } else { 0 })
    &&& native & O_EXCL == (if wire & LINUX_O_EXCL != 0 { O_EXCL } else { 0 })
    &&& native & O_NOCTTY == (if wire & LINUX_O_NOCTTY != 0 { O_NOCTTY } else { 0 })
    &&& native & O_TRUNC == (if wire & LINUX_O_TRUNC != 0 { O_TRUNC } else { 0 })
    &&& native & O_APPEND == (if wire & LINUX_O_APPEND != 0 { O_APPEND } else { 0 })
    &&& native & O_NONBLOCK == (if wire & LINUX_O_NONBLOCK != 0 { O_NONBLOCK } else { 0 })
    &&& native & O_DIRECTORY == (if wire & LINUX_O_DIRECTORY != 0 { O_DIRECTORY } else { 0 })
    &&& native & O_NOFOLLOW == (if wire & LINUX_O_NOFOLLOW != 0 { O_NOFOLLOW } else { 0 })
    &&& native & O_CLOEXEC == (if wire & LINUX_O_CLOEXEC != 0 { O_CLOEXEC } else { 0 })
    &&& native & O_SYNC == (if wire & LINUX_O_SYNC != 0 { O_SYNC } else { 0 })
    &&& native & O_DSYNC == (if wire & LINUX_O_DSYNC != 0 { O_DSYNC } else { 0 })
    &&& native & !TRANSLATED_FLAGS == 0
}

/// Translates Linux open(2) flags to macOS open(2) flags.
///
/// The FUSE protocol sends open flags using Linux numeric values.  On macOS, some flags have
/// different numeric values, so they must be translated before they are passed to the kernel.
/// `O_DIRECT` and `O_NOATIME` have no equivalent and `O_LARGEFILE` no meaning there: they are
/// dropped.
pub fn translate_linux_open_flags(linux_flags: i32) -> (mac_flags: i32)
    ensures
        is_native_open_flags(linux_flags, mac_flags),
{
    let access: i32 = match linux_flags & LINUX_O_ACCMODE {
        LINUX_O_RDONLY => O_RDONLY,
        LINUX_O_WRONLY => O_WRONLY,
        LINUX_O_RDWR => O_RDWR,
        _ => O_RDONLY,
    };
    let creat: i32 = if linux_flags & LINUX_O_CREAT != 0 { O_CREAT } else { 0 };
    let excl: i32 = if linux_flags & LINUX_O_EXCL != 0 { O_EXCL } else { 0 };
    let noctty: i32 = if linux_flags & LINUX_O_NOCTTY != 0 { O_NOCTTY } else { 0 };
    let trunc: i32 = if linux_flags & LINUX_O_TRUNC != 0 { O_TRUNC } else { 0 };
    let append: i32 = if linux_flags & LINUX_O_APPEND != 0 { O_APPEND } else { 0 };
    let nonblock: i32 = if linux_flags & LINUX_O_NONBLOCK != 0 { O_NONBLOCK } else { 0 };
    let directory: i32 = if linux_flags & LINUX_O_DIRECTORY != 0 { O_DIRECTORY } else { 0 };
    let nofollow: i32 = if linux_flags & LINUX_O_NOFOLLOW != 0 { O_NOFOLLOW } else { 0 };
    let cloexec: i32 = if linux_flags & LINUX_O_CLOEXEC != 0 { O_CLOEXEC } else { 0 };
    let sync: i32 = if linux_flags & LINUX_O_SYNC != 0 { O_SYNC } else { 0 };
    let dsync: i32 = if linux_flags & LINUX_O_DSYNC != 0 { O_DSYNC } else { 0 };
    let mac_flags: i32 = access | creat | excl | noctty | trunc | append | nonblock | directory
        | nofollow | cloexec | sync | dsync;
    proof {
        assert(linux_flags & 3 == 0 || linux_flags & 3 == 1 || linux_flags & 3 == 2 || linux_flags
            & 3 == 3) by (bit_vector);
        assert({
            &&& mac_flags & 3 == access
            &&& mac_flags & 0x200 == creat
            &&& mac_flags & 0x800 == excl
            &&& mac_flags & 0x20000 == noctty
            &&& mac_flags & 0x400 == trunc
            &&& mac_flags & 0x8 == append
            &&& mac_flags & 0x4 == nonblock
            &&& mac_flags & 0x100000 == directory
            &&& mac_flags & 0x100 == nofollow
            &&& mac_flags & 0x1000000 == cloexec
            &&& mac_flags & 0x80 == sync
            &&& mac_flags & 0x400000 == dsync
            &&& mac_flags & !0x1520f8f == 0
        }) by (bit_vector)
            requires
                access == 0 || access == 1 || access == 2,
                creat == 0 || creat == 0x200,
                excl == 0 || excl == 0x800,
                noctty == 0 || noctty == 0x20000,
                trunc == 0 || trunc == 0x400,
                append == 0 || append == 0x8,
                nonblock == 0 || nonblock == 0x4,
                directory == 0 || directory == 0x100000,
                nofollow == 0 || nofollow == 0x100,
                cloexec == 0 || cloexec == 0x1000000,
                sync == 0 || sync == 0x80,
                dsync == 0 || dsync == 0x400000,
                mac_flags == access | creat | excl | noctty | trunc | append | nonblock | directory
                    | nofollow | cloexec | sync | dsync,
        ;
    }
    mac_flags
}

/// Linux open flags have one macOS equivalent only.
pub proof fn law_native_open_flags_unique(wire: i32, native1: i32, native2: i32)
    requires
        is_native_open_flags(wire, native1),
        is_native_open_flags(wire, native2),
    ensures
        native1 == native2,
{
    assert(native1 == native2) by (bit_vector)
        requires
            native1 & 3 == native2 & 3,
            native1 & 0x200 == native2 & 0x200,
            native1 & 0x800 == native2 & 0x800,
            native1 & 0x20000 == native2 & 0x20000,
            native1 & 0x400 == native2 & 0x400,
            native1 & 0x8 == native2 & 0x8,
            native1 & 0x4 == native2 & 0x4,
            native1 & 0x100000 == native2 & 0x100000,
            native1 & 0x100 == native2 & 0x100,
            native1 & 0x1000000 == native2 & 0x1000000,
            native1 & 0x80 == native2 & 0x80,
            native1 & 0x400000 == native2 & 0x400000,
            native1 & !0x1520f8f == 0,
            native2 & !0x1520f8f == 0,
    ;
}

/// `O_DIRECT`, `O_NOATIME` and `O_LARGEFILE` are dropped silently: whether they are set makes no
/// difference.
pub proof fn law_flags_without_equivalent_are_dropped(wire: i32, dropped: i32, native: i32)
    requires
        dropped & !(LINUX_O_DIRECT | LINUX_O_NOATIME | LINUX_O_LARGEFILE) == 0,
    ensures
        is_native_open_flags(wire | dropped, native) == is_native_open_flags(wire, native),
{
    let both = wire | dropped;
    assert({
        &&& both & 3 == wire & 3
        &&& both & 0o100 == wire & 0o100
        &&& both & 0o200 == wire & 0o200
        &&& both & 0o400 == wire & 0o400
        &&& both & 0o1000 == wire & 0o1000
        &&& both & 0o2000 == wire & 0o2000
        &&& both & 0o4000 == wire & 0o4000
        &&& both & 0o10000 == wire & 0o10000
        &&& both & 0o200000 == wire & 0o200000
        &&& both & 0o400000 == wire & 0o400000
        &&& both & 0o2000000 == wire & 0o2000000
        &&& both & 0o4010000 == wire & 0o4010000
    }) by (bit_vector)
        requires
            both == wire | dropped,
            dropped & !(0o40000i32 | 0o1000000i32 | 0o100000i32) == 0,
    ;
}

/// The access mode has the same number on both platforms.
pub proof fn law_access_mode_is_kept(wire: i32, native: i32)
    requires
        is_native_open_flags(wire, native),
        wire & LINUX_O_ACCMODE != 3,
    ensures
        native & LINUX_O_ACCMODE == wire & LINUX_O_ACCMODE,
{
}

/// `whence` of lseek(2) as macOS numbers it; `SEEK_DATA` and `SEEK_HOLE` are swapped against
/// Linux.
pub const SEEK_SET: i32 = 0;
pub const SEEK_CUR: i32 = 1;
pub const SEEK_END: i32 = 2;
pub const SEEK_HOLE: i32 = 3;
pub const SEEK_DATA: i32 = 4;

/// macOS's number for the lseek(2) mode that is `wire` on Linux; `None` if Linux has no such mode.
pub open spec fn native_whence(wire: i32) -> Option<i32> {
    if wire == LINUX_SEEK_SET {
        Some(SEEK_SET)
    } else if wire == LINUX_SEEK_CUR {
        Some(SEEK_CUR)
    } else if wire == LINUX_SEEK_END {
        Some(SEEK_END)
    } else if wire == LINUX_SEEK_DATA {
        Some(SEEK_DATA)
    } else if wire == LINUX_SEEK_HOLE {
        Some(SEEK_HOLE)
    } else {
        None
    }
}

/// Translates a FUSE-wire `whence` value (Linux numbering) to macOS's value for lseek(2).
///
/// Passing the wire value straight to the kernel would make it take "find next data" as "find next
/// hole" and vice versa.
pub fn translate_linux_seek_whence(linux_whence: i32) -> (whence: Result<i32, IoError>)
    ensures
        match native_whence(linux_whence) {
            Some(native) => whence == Ok::<i32, IoError>(native),
            None => whence matches Err(err) && err@ == IoErrorView::Os(EINVAL),
        },
{
    match linux_whence {
        LINUX_SEEK_SET => Ok(SEEK_SET),
        LINUX_SEEK_CUR => Ok(SEEK_CUR),
        LINUX_SEEK_END => Ok(SEEK_END),
        LINUX_SEEK_DATA => Ok(SEEK_DATA),
        LINUX_SEEK_HOLE => Ok(SEEK_HOLE),
        _ => Err(einval()),
    }
}

/// "Data" and "hole" swap their numbers; the other modes keep theirs.
pub proof fn law_data_and_hole_are_swapped(wire: i32)
    ensures
        native_whence(wire) == (if wire == LINUX_SEEK_DATA {
            Some(LINUX_SEEK_HOLE)
        } else if wire == LINUX_SEEK_HOLE {
            Some(LINUX_SEEK_DATA)
        } else if 0 <= wire <= 2 {
            Some(wire)
        } else {
            None
        }),
{
}

/// macOS's number of the error "operation not supported on socket".
pub const EOPNOTSUPP: i32 = 102;

/// Flag of fcntl `F_PREALLOCATE`: the bytes have to be contiguous.
pub const F_ALLOCATECONTIG: u32 = 0x2;

/// Flag of fcntl `F_PREALLOCATE`: the bytes have to be set aside all together, or not at all.
pub const F_ALLOCATEALL: u32 = 0x4;

/// Position mode of fcntl `F_PREALLOCATE`: the offset counts from the end of the file, and has to be
/// zero.
pub const F_PEOFPOSMODE: i32 = 3;

/// The emulation of `fallocate`, at the point where the host has to act.
#[derive(Debug)]
pub enum Fallocate {
    /// Ask for the size of the file (fstat), then go on with [`AwaitSize::resume`].
    Stat(AwaitSize),
    /// Ask for bytes to be set aside (fcntl `F_PREALLOCATE`, with an `fstore_t` of the fields that
    /// the step has), then go on with [`AwaitPreallocation::resume`].
    Preallocate(AwaitPreallocation),
    /// Set the size of the file (ftruncate), then go on with [`AwaitTruncate::resume`].
    Truncate(AwaitTruncate),
    /// There is nothing more to do.
    Done(Result<(), IoError>),
}

/// The file's size is not known yet.
#[derive(Debug)]
pub struct AwaitSize {
    /// Size that the file is to have at least.
    pub target_size: u64,
}

/// The file is smaller than the target.
#[derive(Debug)]
pub struct AwaitPreallocation {
    /// Size that the file is to have.
    pub target_size: u64,
    /// How the bytes are to be set aside: contiguously at first, and in any way after that failed.
    pub fst_flags: u32,
    /// What the offset counts from: the end of the file.
    pub fst_posmode: i32,
    /// Where the bytes start: right there.
    pub fst_offset: i64,
    /// How many bytes to set aside, as the OS takes it.
    pub fst_length: i64,
}

/// What could be set aside is.
#[derive(Debug)]
pub struct AwaitTruncate {
    /// Size to give the file, as the OS takes it.
    pub length: i64,
}

/// `offset + length`, or the largest number if that is larger.
pub open spec fn fallocate_target(offset: u64, length: u64) -> u64 {
    if offset + length > u64::MAX {
        u64::MAX
    } else {
        (offset + length) as u64
    }
}

/// Best-effort emulation of Linux `fallocate(fd, mode, offset, length)` on macOS.
///
/// Linux semantics for mode 0: set blocks aside for `[offset, offset + length)`, and grow the file
/// to at least `offset + length` bytes; a file that is that large keeps its size.  Every other
/// mode is rejected with `EOPNOTSUPP`, so that sparse-aware tools fall back to writes.
pub fn macos_emulate_fallocate(mode: u32, offset: u64, length: u64) -> (next: Fallocate)
    ensures
        mode != 0 ==> (next matches Fallocate::Done(Err(err)) && err@ == IoErrorView::Os(
            EOPNOTSUPP,
        )),
        mode == 0 ==> next == Fallocate::Stat(
            (AwaitSize { target_size: fallocate_target(offset, length) }),
        ),
{
    if mode != 0 {
        return Fallocate::Done(Err(IoError::Os(EOPNOTSUPP)));
    }
    Fallocate::Stat(AwaitSize { target_size: offset.saturating_add(length) })
}

/// What follows from the size of the file, or the error that asking for it gave.
pub open spec fn after_size(step: AwaitSize, current_size: Result<u64, IoError>) -> Fallocate {
    match current_size {
        Err(err) => Fallocate::Done(Err(err)),
        Ok(size) => if step.target_size <= size {
            Fallocate::Done(Ok(()))
        } else {
            Fallocate::Preallocate(
                AwaitPreallocation {
                    target_size: step.target_size,
                    fst_flags: F_ALLOCATECONTIG,
                    fst_posmode: F_PEOFPOSMODE,
                    fst_offset: 0,
                    fst_length: (step.target_size - size) as i64,
                },
            )
        },
    }
}

/// What follows from whether the bytes could be set aside.
pub open spec fn after_preallocation(step: AwaitPreallocation, succeeded: bool) -> Fallocate {
    if !succeeded && step.fst_flags == F_ALLOCATECONTIG {
        Fallocate::Preallocate(AwaitPreallocation { fst_flags: F_ALLOCATEALL, ..step })
    } else {
        Fallocate::Truncate(AwaitTruncate { length: step.target_size as i64 })
    }
}

/// What follows once the host has answered every request to set bytes aside: the first one with
/// `first`, the second one, if there is one, with `second`.
pub open spec fn after_all_preallocation(
    step: AwaitPreallocation,
    first: bool,
    second: bool,
) -> Fallocate {
    match after_preallocation(step, first) {
        Fallocate::Preallocate(again) => after_preallocation(again, second),
        next => next,
    }
}

/// The step asks for the bytes from the end of the file up to `target` to be set aside, in the way
/// that `flags` says: relative to the end of the file, with offset zero.
pub open spec fn asks_past_end(
    step: AwaitPreallocation,
    flags: u32,
    size: u64,
    target: u64,
) -> bool {
    &&& step.target_size == target
    &&& step.fst_flags == flags
    &&& step.fst_posmode == F_PEOFPOSMODE
    &&& step.fst_offset == 0
    &&& step.fst_length == (target - size) as i64
    &&& target - size <= i64::MAX ==> step.fst_length == target - size
}

/// The emulation leaves a file alone that is at least `offset + length` bytes large.  Any other
/// file it gives exactly that size, whether or not bytes could be set aside: it never shrinks one.
/// Every attempt to set bytes aside is for those past the end of the file: a contiguous range at
/// first, and any, if and only if that could not be had.
pub proof fn law_fallocate_only_grows(
    offset: u64,
    length: u64,
    size: u64,
    first: bool,
    second: bool,
)
    ensures
        ({
            let target = fallocate_target(offset, length);
            match after_size(AwaitSize { target_size: target }, Ok(size)) {
                Fallocate::Done(result) => target <= size && result == Ok::<(), IoError>(()),
                Fallocate::Preallocate(step) => {
                    &&& target > size
                    &&& asks_past_end(step, F_ALLOCATECONTIG, size, target)
                    &&& (after_preallocation(step, first) is Preallocate) == !first
                    &&& after_preallocation(step, first) matches Fallocate::Preallocate(again)
                        ==> asks_past_end(again, F_ALLOCATEALL, size, target)
                    &&& after_all_preallocation(step, first, second) matches Fallocate::Truncate(last)
                    &&& last.length == target as i64
                    &&& target <= i64::MAX ==> last.length == target
                },
                _ => false,
            }
        }),
{
}

impl AwaitSize {
    /// Goes on, given the size of the file or the error that asking for it gave.
    pub fn resume(self, current_size: Result<u64, IoError>) -> (next: Fallocate)
        ensures
            next == after_size(self, current_size),
    {
        match current_size {
            Err(err) => Fallocate::Done(Err(err)),
            Ok(size) => {
                if self.target_size <= size {
                    Fallocate::Done(Ok(()))
                } else {
                    Fallocate::Preallocate(
                        AwaitPreallocation {
                            target_size: self.target_size,
                            fst_flags: F_ALLOCATECONTIG,
                            fst_posmode: F_PEOFPOSMODE,
                            fst_offset: 0,
                            fst_length: #[verifier::truncate]
                            ((self.target_size - size) as i64),
                        },
                    )
                }
            },
        }
    }
}

impl AwaitPreallocation {
    /// Goes on, given whether the bytes could be set aside.
    ///
    /// If no contiguous range could be had, any is asked for; a failure then is ignored, as it is
    /// only a loss of performance, and the file is given its size in any case.
    pub fn resume(self, succeeded: bool) -> (next: Fallocate)
        ensures
            next == after_preallocation(self, succeeded),
    {
        if !succeeded && self.fst_flags == F_ALLOCATECONTIG {
            Fallocate::Preallocate(
                AwaitPreallocation {
                    target_size: self.target_size,
                    fst_flags: F_ALLOCATEALL,
                    fst_posmode: self.fst_posmode,
                    fst_offset: self.fst_offset,
                    fst_length: self.fst_length,
                },
            )
        } else {
            Fallocate::Truncate(
                AwaitTruncate {
                    length: #[verifier::truncate]
                    (self.target_size as i64),
                },
            )
        }
    }
}

impl AwaitTruncate {
    /// Finishes, given how setting the file's size went.
    pub fn resume(self, result: Result<(), IoError>) -> (next: Fallocate)
        ensures
            next == Fallocate::Done(result),
    {
        Fallocate::Done(result)
    }
}

/// The path to open, and with which flags, to duplicate a file descriptor with new flags: there is
/// no /proc/self/fd, so its path is opened again.
///
/// `getpath` is the outcome of fcntl `F_GETPATH` on the descriptor, `buf` the buffer that it wrote
/// the path and a NUL to.
pub fn reopen_fd_through_proc(
    getpath: Result<(), IoError>,
    buf: Vec<u8>,
    flags: i32,
) -> (target: Result<(Vec<u8>, i32), IoError>)
    ensures
        match getpath {
            Err(err) => target == Err::<(Vec<u8>, i32), IoError>(err),
            Ok(_) => if crate::util::c_len(buf@) < buf@.len() {
                target matches Ok((path, new_flags)) && path@ == buf@.take(
                    crate::util::c_len(buf@) as int,
                ) && new_flags == flags & !O_NOFOLLOW
            } else {
                target matches Err(err) && err@ == IoErrorView::Other(
                    "F_GETPATH returned invalid path"@,
                )
            },
        },
{
    if let Err(err) = getpath {
        return Err(err);
    }
    let len: usize = c_length(buf.as_slice());
    proof {
        crate::util::lemma_c_len(buf@);
    }
    if len == buf.len() {
        return Err(other_io_error("F_GETPATH returned invalid path"));
    }
    let mut path: Vec<u8> = buf;
    path.truncate(len);
    Ok((path, without_flag(flags, O_NOFOLLOW)))
}

/// What the path is that `F_GETPATH` wrote to the buffer `buf`.
pub open spec fn path_in_buffer(buf: Seq<u8>) -> Result<Seq<u8>, FdPathErrorView> {
    let len = crate::util::c_len(buf);
    if len == 0 {
        Err(FdPathErrorView::ReadLink(IoErrorView::Other("F_GETPATH returned empty path"@)))
    } else if len == buf.len() {
        Err(FdPathErrorView::InvalidCString(IoErrorView::BadTermination(None)))
    } else if crate::passthrough::util::has_colon_before_slash(
        crate::util::utf8_lossy(buf.take(len as int)),
    ) {
        Err(FdPathErrorView::NotAFile(crate::util::utf8_lossy(buf.take(len as int))))
    } else {
        Ok(buf.take(len as int))
    }
}

/// A path that the kernel wrote to the start of a buffer, and a NUL behind it, is read back
/// unchanged, if it names a file, whatever else the buffer holds.
pub proof fn law_path_is_read_back(path: Seq<u8>, rest: Seq<u8>)
    requires
        path.len() > 0,
        forall|i: int| 0 <= i < path.len() ==> path[i] != 0,
        !crate::passthrough::util::has_colon_before_slash(crate::util::utf8_lossy(path)),
    ensures
        path_in_buffer(path.push(0) + rest) == Ok::<Seq<u8>, FdPathErrorView>(path),
{
    let buf = path.push(0) + rest;
    crate::util::lemma_c_len_unique(buf, path.len());
    assert(buf.take(path.len() as int) =~= path);
}

/// The path of a file descriptor, given the outcome of fcntl `F_GETPATH` on it and the buffer that
/// it wrote the path and a NUL to.
pub fn get_path_by_fd(getpath: Result<(), IoError>, buf: Vec<u8>) -> (path: Result<
    Vec<u8>,
    FdPathError,
>)
    ensures
        match getpath {
            Err(err) => path == Err::<Vec<u8>, FdPathError>(FdPathError::ReadLink(err)),
            Ok(_) => match path_in_buffer(buf@) {
                Ok(expected) => path matches Ok(p) && p@ == expected,
                Err(expected) => path matches Err(err) && err@ == expected,
            },
        },
        getpath is Ok && 0 < crate::util::c_len(buf@) < buf@.len()
            ==> crate::util::lossy_keeps_utf8(buf@.take(crate::util::c_len(buf@) as int)),
{
    if let Err(err) = getpath {
        return Err(FdPathError::ReadLink(err));
    }
    let len: usize = c_length(buf.as_slice());
    proof {
        crate::util::lemma_c_len(buf@);
    }
    if len == 0 {
        return Err(FdPathError::ReadLink(other_io_error("F_GETPATH returned empty path")));
    }
    let mut bytes: Vec<u8> = buf;
    if len < bytes.len() {
        bytes.truncate(len + 1);
    }
    proof {
        crate::util::lemma_c_len_unique(bytes@, len as nat);
    }
    let path: Vec<u8> = match strip_nul(bytes) {
        Err(err) => return Err(FdPathError::InvalidCString(err)),
        Ok(path) => path,
    };
    assert(path@ =~= buf@.take(len as int));
    let text: String = string_from_utf8_lossy(path.as_slice());
    if names_no_file(text.as_str()) {
        return Err(FdPathError::NotAFile(text));
    }
    Ok(path)
}

} // verus!
