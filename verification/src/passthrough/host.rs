//! Numbers that the C library of a Linux host defines.
//!
//! What is claimed of `O_NOFOLLOW` and `PATH_MAX` holds on Linux targets only.  Nothing but the
//! functions for a Linux host uses them; those for a macOS host have numbers of their own.

use vstd::prelude::*;

verus! {

/// `libc::EBADF`.  The contract claims the number that the constant has on every Linux target.
#[verifier::external_body]
pub(crate) fn libc_ebadf() -> (code: i32)
    ensures
        code == 9,
{
    libc::EBADF
}

/// `libc::EINVAL`.  The contract claims the number that the constant has on every Linux target.
#[verifier::external_body]
pub(crate) fn libc_einval() -> (code: i32)
    ensures
        code == 22,
{
    libc::EINVAL
}

/// `libc::EROFS`.  The contract claims the number that the constant has on every Linux target.
#[verifier::external_body]
pub(crate) fn libc_erofs() -> (code: i32)
    ensures
        code == 30,
{
    libc::EROFS
}

/// `libc::S_IFMT`, the bits of a file's mode that give its type.  The contract claims the number
/// that the constant has on every Linux target.
#[verifier::external_body]
pub(crate) fn libc_s_ifmt() -> (bits: u32)
    ensures
        bits == 0o170000,
{
    libc::S_IFMT as u32
}

/// `libc::S_IFREG`, the type of a regular file.  The contract claims the number that the constant
/// has on every Linux target.
#[verifier::external_body]
pub(crate) fn libc_s_ifreg() -> (bits: u32)
    ensures
        bits == 0o100000,
{
    libc::S_IFREG as u32
}

/// `libc::S_IFDIR`, the type of a directory.  The contract claims the number that the constant has
/// on every Linux target.
#[verifier::external_body]
pub(crate) fn libc_s_ifdir() -> (bits: u32)
    ensures
        bits == 0o040000,
{
    libc::S_IFDIR as u32
}

/// `libc::O_NOFOLLOW`.  Linux numbers it in two ways, depending on the processor; the contract
/// claims that it is one of them, and leaves open which.
#[verifier::external_body]
pub(crate) fn libc_o_nofollow() -> (flag: i32)
    ensures
        flag == 0o100000 || flag == 0o400000,
{
    libc::O_NOFOLLOW
}

/// `libc::PATH_MAX`.  The contract claims the number that the constant has on every Linux target.
#[verifier::external_body]
pub(crate) fn libc_path_max() -> (len: usize)
    ensures
        len == 4096,
{
    libc::PATH_MAX as usize
}

} // verus!
