//! Flags, seek modes and file types, as numbers of both platforms.

use vstd::prelude::*;

use crate::passthrough::{macos, util};
use crate::util::IoError;

verus! {

/// On macOS, each flag is set if and only if the flag of the same name is set on the wire; the
/// access mode keeps its number, but for the one that is none; and nothing else is set.
pub proof fn law_open_flags_by_number(wire: i32, native: i32)
    requires
        call_ensures(macos::translate_linux_open_flags, (wire,), native),
    ensures
        // O_RDONLY, O_WRONLY, O_RDWR
        native & 3 == (if wire & 3 == 1 {
            1i32
        } else if wire & 3 == 2 {
            2i32
        } else {
            0i32
        }),
        // O_CREAT
        (native & 0x200 != 0) == (wire & 0o100 != 0),
        // O_EXCL
        (native & 0x800 != 0) == (wire & 0o200 != 0),
        // O_NOCTTY
        (native & 0x20000 != 0) == (wire & 0o400 != 0),
        // O_TRUNC
        (native & 0x400 != 0) == (wire & 0o1000 != 0),
        // O_APPEND
        (native & 0x8 != 0) == (wire & 0o2000 != 0),
        // O_NONBLOCK
        (native & 0x4 != 0) == (wire & 0o4000 != 0),
        // O_DIRECTORY
        (native & 0x100000 != 0) == (wire & 0o200000 != 0),
        // O_NOFOLLOW
        (native & 0x100 != 0) == (wire & 0o400000 != 0),
        // O_CLOEXEC
        (native & 0x1000000 != 0) == (wire & 0o2000000 != 0),
        // O_SYNC, whose number on Linux contains that of O_DSYNC
        (native & 0x80 != 0) == (wire & 0o4010000 != 0),
        // O_DSYNC
        (native & 0x400000 != 0) == (wire & 0o10000 != 0),
        native & !(0x3i32 | 0x200i32 | 0x800i32 | 0x20000i32 | 0x400i32 | 0x8i32 | 0x4i32
            | 0x100000i32 | 0x100i32 | 0x1000000i32 | 0x80i32 | 0x400000i32) == 0,
{
    assert(wire & 3 == 0 || wire & 3 == 1 || wire & 3 == 2 || wire & 3 == 3) by (bit_vector);
    assert((0x3i32 | 0x200i32 | 0x800i32 | 0x20000i32 | 0x400i32 | 0x8i32 | 0x4i32 | 0x100000i32
        | 0x100i32 | 0x1000000i32 | 0x80i32 | 0x400000i32) == 0x1520f8fi32) by (bit_vector);
}

/// The translation of a union of flags is the union of their translations.
pub proof fn law_open_flags_of_union(
    wire1: i32,
    native1: i32,
    wire2: i32,
    native2: i32,
    native: i32,
)
    requires
        call_ensures(macos::translate_linux_open_flags, (wire1,), native1),
        call_ensures(macos::translate_linux_open_flags, (wire2,), native2),
        call_ensures(macos::translate_linux_open_flags, (wire1 | wire2,), native),
        // Access modes are numbers, not flags: only one of the two has one.
        wire1 & 3 == 0,
    ensures
        native == native1 | native2,
{
    let both = wire1 | wire2;
    law_open_flags_by_number(wire1, native1);
    law_open_flags_by_number(wire2, native2);
    law_open_flags_by_number(both, native);
    assert({
        &&& both & 3 == wire2 & 3
        &&& (both & 0o100 != 0) == (wire1 & 0o100 != 0 || wire2 & 0o100 != 0)
        &&& (both & 0o200 != 0) == (wire1 & 0o200 != 0 || wire2 & 0o200 != 0)
        &&& (both & 0o400 != 0) == (wire1 & 0o400 != 0 || wire2 & 0o400 != 0)
        &&& (both & 0o1000 != 0) == (wire1 & 0o1000 != 0 || wire2 & 0o1000 != 0)
        &&& (both & 0o2000 != 0) == (wire1 & 0o2000 != 0 || wire2 & 0o2000 != 0)
        &&& (both & 0o4000 != 0) == (wire1 & 0o4000 != 0 || wire2 & 0o4000 != 0)
        &&& (both & 0o200000 != 0) == (wire1 & 0o200000 != 0 || wire2 & 0o200000 != 0)
        &&& (both & 0o400000 != 0) == (wire1 & 0o400000 != 0 || wire2 & 0o400000 != 0)
        &&& (both & 0o2000000 != 0) == (wire1 & 0o2000000 != 0 || wire2 & 0o2000000 != 0)
        &&& (both & 0o4010000 != 0) == (wire1 & 0o4010000 != 0 || wire2 & 0o4010000 != 0)
        &&& (both & 0o10000 != 0) == (wire1 & 0o10000 != 0 || wire2 & 0o10000 != 0)
    }) by (bit_vector)
        requires
            both == wire1 | wire2,
            wire1 & 3 == 0,
    ;
    assert(native == native1 | native2) by (bit_vector)
        requires
            native1 & 3 == 0,
            native & 3 == native2 & 3,
            (native & 0x200 != 0) == (native1 & 0x200 != 0 || native2 & 0x200 != 0),
            (native & 0x800 != 0) == (native1 & 0x800 != 0 || native2 & 0x800 != 0),
            (native & 0x20000 != 0) == (native1 & 0x20000 != 0 || native2 & 0x20000 != 0),
            (native & 0x400 != 0) == (native1 & 0x400 != 0 || native2 & 0x400 != 0),
            (native & 0x8 != 0) == (native1 & 0x8 != 0 || native2 & 0x8 != 0),
            (native & 0x4 != 0) == (native1 & 0x4 != 0 || native2 & 0x4 != 0),
            (native & 0x100000 != 0) == (native1 & 0x100000 != 0 || native2 & 0x100000 != 0),
            (native & 0x100 != 0) == (native1 & 0x100 != 0 || native2 & 0x100 != 0),
            (native & 0x1000000 != 0) == (native1 & 0x1000000 != 0 || native2 & 0x1000000 != 0),
            (native & 0x80 != 0) == (native1 & 0x80 != 0 || native2 & 0x80 != 0),
            (native & 0x400000 != 0) == (native1 & 0x400000 != 0 || native2 & 0x400000 != 0),
            native & !(0x3i32 | 0x200i32 | 0x800i32 | 0x20000i32 | 0x400i32 | 0x8i32 | 0x4i32
                | 0x100000i32 | 0x100i32 | 0x1000000i32 | 0x80i32 | 0x400000i32) == 0,
            native1 & !(0x3i32 | 0x200i32 | 0x800i32 | 0x20000i32 | 0x400i32 | 0x8i32 | 0x4i32
                | 0x100000i32 | 0x100i32 | 0x1000000i32 | 0x80i32 | 0x400000i32) == 0,
            native2 & !(0x3i32 | 0x200i32 | 0x800i32 | 0x20000i32 | 0x400i32 | 0x8i32 | 0x4i32
                | 0x100000i32 | 0x100i32 | 0x1000000i32 | 0x80i32 | 0x400000i32) == 0,
    ;
}

/// On Linux, no flag changes.
pub proof fn law_open_flags_are_native_on_linux(wire: i32, native: i32)
    requires
        call_ensures(util::translate_linux_open_flags, (wire,), native),
    ensures
        native == wire,
{
}

/// On macOS, modes 3 and 4 ("data" and "hole") are swapped, 0 to 2 keep their numbers, and there
/// are no others.
pub proof fn law_seek_whence_by_number(wire: i32, native: Result<i32, IoError>)
    requires
        call_ensures(macos::translate_linux_seek_whence, (wire,), native),
    ensures
        0 <= wire <= 2 ==> native == Ok::<i32, IoError>(wire),
        wire == 3 ==> native == Ok::<i32, IoError>(4),
        wire == 4 ==> native == Ok::<i32, IoError>(3),
        wire < 0 || wire > 4 ==> native == Err::<i32, IoError>(IoError::Os(22)),
{
}

/// On Linux, the five modes keep their numbers, and there are no others.
pub proof fn law_seek_whence_is_native_on_linux(wire: i32, native: Result<i32, IoError>)
    requires
        call_ensures(util::translate_linux_seek_whence, (wire,), native),
    ensures
        0 <= wire <= 4 ==> native == Ok::<i32, IoError>(wire),
        wire < 0 || wire > 4 ==> native == Err::<i32, IoError>(IoError::Os(22)),
{
}

/// Whether an inode is safe depends on its type alone, whatever its permissions: regular files and
/// directories are, and nothing else.
pub proof fn law_safety_depends_on_file_type(kind: u32, permissions: u32, safe: bool)
    requires
        kind & 0o170000 == kind,
        permissions & 0o170000 == 0,
        call_ensures(util::is_safe_inode, (kind | permissions,), safe),
    ensures
        safe == (kind == 0o100000 || kind == 0o040000),
{
    assert((kind | permissions) & 0o170000 == kind) by (bit_vector)
        requires
            kind & 0o170000 == kind,
            permissions & 0o170000 == 0,
    ;
}

/// Removing a flag leaves no bit of it, and every other bit as it was.
pub proof fn law_removing_a_flag_leaves_the_others(flags: i32, flag: i32, rest: i32)
    requires
        call_ensures(util::without_flag, (flags, flag), rest),
    ensures
        rest & flag == 0,
        rest | (flags & flag) == flags,
{
    assert(rest & flag == 0 && rest | (flags & flag) == flags) by (bit_vector)
        requires
            rest == flags & !flag,
    ;
}

/// The error numbers, as the OS has them.
pub proof fn law_error_numbers(bad: IoError, invalid: IoError, read_only: IoError)
    requires
        call_ensures(util::ebadf, (), bad),
        call_ensures(util::einval, (), invalid),
        call_ensures(util::erofs, (), read_only),
    ensures
        bad == IoError::Os(9),
        invalid == IoError::Os(22),
        read_only == IoError::Os(30),
{
}

} // verus!
