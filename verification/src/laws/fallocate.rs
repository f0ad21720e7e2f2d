//! The emulation of `fallocate`, from the request to the size that the file gets.

use vstd::prelude::*;

use crate::passthrough::macos::{
    macos_emulate_fallocate, AwaitPreallocation, AwaitSize, AwaitTruncate, Fallocate,
};
use crate::util::IoError;

verus! {

/// A number of 64 bits, read as one with a sign.
proof fn lemma_as_signed(n: u64)
    ensures
        n <= i64::MAX ==> n as i64 == n,
        n > i64::MAX ==> n as i64 == n - 0x1_0000_0000_0000_0000,
{
    assert(n <= 0x7fff_ffff_ffff_ffff ==> n as i64 == n) by (bit_vector);
    assert(n > 0x7fff_ffff_ffff_ffff ==> n as i64 == n - 0x1_0000_0000_0000_0000) by (bit_vector);
}

/// `next` asks for `length` bytes to be set aside from the end of the file on.
pub open spec fn asks_for(next: Fallocate, flags: u32, length: int) -> bool {
    next matches Fallocate::Preallocate(step) && step.fst_flags == flags && step.fst_posmode == 3
        && step.fst_offset == 0 && step.fst_length == length
}

/// `next` asks for the file to get the size `length`.
pub open spec fn sets_size(next: Fallocate, length: int) -> bool {
    next matches Fallocate::Truncate(step) && step.length == length
}

/// `n` as the OS reads a number of 64 bits that has a sign.
pub open spec fn signed(n: int) -> int {
    if n <= i64::MAX {
        n
    } else {
        n - 0x1_0000_0000_0000_0000
    }
}

/// In mode 0, a file that has `offset + length` bytes or more is left alone.  To any other, exactly
/// `offset + length` bytes are given in the end, whether or not bytes could be set aside before
/// that: those that are missing, past the end of the file, contiguously (2) at first, and in any
/// way (4) if that failed.  A sum of more than 64 bits counts as the largest number of 64 bits.
pub proof fn law_fallocate_grows_to_end_of_range(
    offset: u64,
    length: u64,
    size: u64,
    start: Fallocate,
    sized: Fallocate,
    first: bool,
    tried: Fallocate,
    second: bool,
    retried: Fallocate,
)
    requires
        call_ensures(macos_emulate_fallocate, (0u32, offset, length), start),
        start matches Fallocate::Stat(step) ==> call_ensures(
            AwaitSize::resume,
            (step, Ok::<u64, IoError>(size)),
            sized,
        ),
        sized matches Fallocate::Preallocate(step) ==> call_ensures(
            AwaitPreallocation::resume,
            (step, first),
            tried,
        ),
        tried matches Fallocate::Preallocate(step) ==> call_ensures(
            AwaitPreallocation::resume,
            (step, second),
            retried,
        ),
    ensures
        ({
            let end = if offset + length <= u64::MAX {
                offset + length
            } else {
                u64::MAX as int
            };
            &&& start is Stat
            &&& end <= size ==> sized == Fallocate::Done(Ok(()))
            &&& end > size ==> {
                &&& asks_for(sized, 2, signed(end - size))
                &&& first ==> sets_size(tried, signed(end))
                &&& !first ==> asks_for(tried, 4, signed(end - size)) && sets_size(
                    retried,
                    signed(end),
                )
            }
        }),
{
    if offset + length <= u64::MAX {
        lemma_as_signed((offset + length) as u64);
        if offset + length > size {
            lemma_as_signed((offset + length - size) as u64);
        }
    } else {
        lemma_as_signed(u64::MAX);
        lemma_as_signed((u64::MAX - size) as u64);
    }
}

/// Every mode but 0 is rejected with the error number 102, and the file not touched.
pub proof fn law_fallocate_rejects_other_modes(
    mode: u32,
    offset: u64,
    length: u64,
    start: Fallocate,
)
    requires
        mode != 0,
        call_ensures(macos_emulate_fallocate, (mode, offset, length), start),
    ensures
        start == Fallocate::Done(Err(IoError::Os(102))),
{
}

/// What the host reports of asking for the size, if that fails, and of setting it, is the outcome.
pub proof fn law_fallocate_reports_what_the_host_does(
    sizing: AwaitSize,
    err: IoError,
    unsized_file: Fallocate,
    truncating: AwaitTruncate,
    result: Result<(), IoError>,
    truncated: Fallocate,
)
    requires
        call_ensures(AwaitSize::resume, (sizing, Err::<u64, IoError>(err)), unsized_file),
        call_ensures(AwaitTruncate::resume, (truncating, result), truncated),
    ensures
        unsized_file == Fallocate::Done(Err(err)),
        truncated == Fallocate::Done(result),
{
}

} // verus!
