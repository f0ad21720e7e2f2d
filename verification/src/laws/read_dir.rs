//! Reading directories: what is handed out of the bytes that the kernel wrote.

use vstd::prelude::*;

use crate::read_dir::macos;
use crate::read_dir::{
    order_of_reading, strip_padding, ByteOrder, DirEntry, PaddedEntry, ReadDir,
};
use crate::util::IoError;

verus! {

/// Numbers are read from their bytes by position: the byte that comes first counts least in one
/// order, and most in the other.
pub proof fn law_numbers_are_positional(s: Seq<u8>)
    ensures
        s.len() == 2 ==> crate::read_dir::uint(ByteOrder::Little, s) == s[0] + 0x100 * s[1],
        s.len() == 2 ==> crate::read_dir::uint(ByteOrder::Big, s) == 0x100 * s[0] + s[1],
        s.len() == 8 ==> crate::read_dir::uint(ByteOrder::Little, s) == s[0] + 0x100 * s[1]
            + 0x1_0000 * s[2] + 0x100_0000 * s[3] + 0x1_0000_0000 * s[4] + 0x100_0000_0000 * s[5]
            + 0x1_0000_0000_0000 * s[6] + 0x100_0000_0000_0000 * s[7],
        s.len() == 8 ==> crate::read_dir::uint(ByteOrder::Big, s) == s[7] + 0x100 * s[6] + 0x1_0000
            * s[5] + 0x100_0000 * s[4] + 0x1_0000_0000 * s[3] + 0x100_0000_0000 * s[2]
            + 0x1_0000_0000_0000 * s[1] + 0x100_0000_0000_0000 * s[0],
{
    reveal_with_fuel(crate::read_dir::le_uint, 9);
}

/// A machine that reads the bytes 1 and 0 as 1 has the least significant byte first, and one that
/// reads them as 256 the most significant one.
pub proof fn law_reading_tells_order(reading: u16, order: ByteOrder)
    requires
        call_ensures(order_of_reading, (reading,), order),
    ensures
        reading == 1 ==> order == ByteOrder::Little,
        reading == 256 ==> order == ByteOrder::Big,
{
}

/// Of padded bytes, those before the first NUL are left.
pub proof fn law_padding_starts_at_first_nul(b: &[u8], name: &[u8], at: int)
    requires
        call_ensures(strip_padding, (b,), name),
        crate::laws::paths::first_nul_at(b@, at),
    ensures
        name@ == b@.take(at),
{
    crate::util::lemma_c_len_unique(b@, at as nat);
}

/// A reader starts with the bytes that were written to the buffer, and says how many are left.
pub proof fn law_reader_starts_with_what_was_written(
    buf: Vec<u8>,
    end: usize,
    order: ByteOrder,
    ordered: ReadDir,
    native: Result<ReadDir, IoError>,
    n: usize,
    err: IoError,
    failed: Result<ReadDir, IoError>,
    nothing: ReadDir,
)
    requires
        end <= buf@.len(),
        call_ensures(ReadDir::with_order, (buf, end, order), ordered),
        call_ensures(ReadDir::new_no_seek, (buf, Ok::<usize, IoError>(end)), native),
        call_ensures(ReadDir::new_no_seek, (buf, Err::<usize, IoError>(err)), failed),
        call_ensures(ReadDir::remaining, (&ordered,), n),
        call_ensures(<ReadDir as Default>::default, (), nothing),
    ensures
        ordered.wf() && ordered.rest() == buf@.take(end as int) && ordered.order() == order,
        native matches Ok(dir) && dir.wf() && dir.rest() == buf@.take(end as int),
        failed == Err::<ReadDir, IoError>(err),
        n == end,
        nothing.wf() && nothing.rest().len() == 0,
{
}

/// The entry that comes next is in the first record of the bytes that are left: inode number (eight
/// bytes), offset (eight), length of the record (two), type (one) and name (up to the first NUL).
/// That record is consumed, and nothing else.
pub proof fn law_next_consumes_first_record(dir: &mut ReadDir, entry: Option<DirEntry>, at: int)
    requires
        old(dir).wf(),
        call_ensures(ReadDir::next, (dir,), entry),
    ensures
        final(dir).wf(),
        final(dir).order() == old(dir).order(),
        ({
            let bytes = old(dir).rest();
            let order = old(dir).order();
            let len = crate::read_dir::uint(order, bytes.subrange(16, 18)) as int;
            bytes.len() >= 19 && 19 <= len <= bytes.len() && crate::laws::paths::first_nul_at(
                bytes.subrange(19, len),
                at,
            ) ==> {
                &&& entry matches Some(e)
                &&& e.ino == crate::read_dir::uint(order, bytes.subrange(0, 8))
                &&& e.offset == crate::read_dir::uint(order, bytes.subrange(8, 16))
                &&& e.type_ == bytes[18]
                &&& e.name@ == bytes.subrange(19, 19 + at)
                &&& final(dir).rest() == bytes.skip(len)
            }
        }),
        old(dir).rest().len() == 0 ==> entry is None && final(dir).rest().len() == 0,
{
    let bytes = old(dir).rest();
    let order = old(dir).order();
    let len = crate::read_dir::uint(order, bytes.subrange(16, 18)) as int;
    if bytes.len() >= 19 && 19 <= len <= bytes.len() && crate::laws::paths::first_nul_at(
        bytes.subrange(19, len),
        at,
    ) {
        crate::util::lemma_c_len_unique(bytes.subrange(19, len), at as nat);
        assert(bytes.subrange(19, len).take(at) =~= bytes.subrange(19, 19 + at));
        lemma_eight_bytes_fit(order, bytes.subrange(0, 8));
        lemma_eight_bytes_fit(order, bytes.subrange(8, 16));
    }
}

/// A number of eight bytes fits into 64 bits.
proof fn lemma_eight_bytes_fit(order: ByteOrder, s: Seq<u8>)
    requires
        s.len() == 8,
    ensures
        crate::read_dir::uint(order, s) <= u64::MAX,
{
    law_numbers_are_positional(s);
}

/// A number of two bytes fits into 16 bits.
proof fn lemma_two_bytes_fit(order: ByteOrder, s: Seq<u8>)
    requires
        s.len() == 2,
    ensures
        crate::read_dir::uint(order, s) <= u16::MAX,
{
    law_numbers_are_positional(s);
}

/// Reading a listing that the kernel wrote hands out its first entry and leaves the listing of the
/// others; so all entries are handed out in order, one by one, and then none.
pub proof fn law_next_reads_listing(
    dir: &mut ReadDir,
    entry: Option<DirEntry>,
    listing: Seq<PaddedEntry>,
)
    requires
        old(dir).wf(),
        forall|i: int|
            0 <= i < listing.len() ==> crate::read_dir::fits_in_record(#[trigger] listing[i]),
        old(dir).rest() == crate::read_dir::listing_bytes(old(dir).order(), listing),
        call_ensures(ReadDir::next, (dir,), entry),
    ensures
        final(dir).wf(),
        final(dir).order() == old(dir).order(),
        listing.len() == 0 ==> entry is None && final(dir).rest() == old(dir).rest(),
        listing.len() > 0 ==> {
            &&& entry matches Some(e)
            &&& e.ino == listing[0].entry.ino
            &&& e.offset == listing[0].entry.offset
            &&& e.type_ == listing[0].entry.type_
            &&& e.name@ == listing[0].entry.name
            &&& final(dir).rest() == crate::read_dir::listing_bytes(
                old(dir).order(),
                listing.drop_first(),
            )
        },
{
    if listing.len() > 0 {
        assert(crate::read_dir::fits_in_record(listing[0]));
        crate::read_dir::lemma_record_round_trip(
            old(dir).order(),
            listing[0],
            crate::read_dir::listing_bytes(old(dir).order(), listing.drop_first()),
        );
    }
}

/// A reader can go on exactly if nothing is left, or what is left starts with a record of at least
/// its fixed part and at most all of it, with a NUL behind the fixed part.
pub proof fn law_complete_records_are_readable(dir: &ReadDir, readable: bool)
    requires
        dir.wf(),
        call_ensures(ReadDir::is_readable, (dir,), readable),
    ensures
        ({
            let bytes = dir.rest();
            let len = crate::read_dir::uint(dir.order(), bytes.subrange(16, 18)) as int;
            readable == (bytes.len() == 0 || bytes.len() >= 19 && 19 <= len <= bytes.len() && exists|i: int|
                19 <= i < len && #[trigger] bytes[i] == 0)
        }),
{
    let bytes = dir.rest();
    let len = crate::read_dir::uint(dir.order(), bytes.subrange(16, 18)) as int;
    if bytes.len() >= 19 && 19 <= len <= bytes.len() {
        let name = bytes.subrange(19, len);
        crate::util::lemma_c_len(name);
        let at = crate::util::c_len(name) as int;
        if at < name.len() {
            assert(bytes[19 + at] == 0);
        } else {
            assert forall|i: int| 19 <= i < len implies #[trigger] bytes[i] != 0 by {
                assert(name[i - 19] == bytes[i]);
            }
        }
    }
}

/// On macOS, the fixed part of a record: inode number, position, length of the record and of the
/// name, and type.
pub proof fn law_mac_header_fields(
    order: ByteOrder,
    bytes: &[u8],
    header: macos::MacDirent,
    zero: macos::MacDirent,
)
    requires
        bytes@.len() >= 21,
        call_ensures(macos::MacDirent::parse, (order, bytes), header),
        call_ensures(<macos::MacDirent as Default>::default, (), zero),
    ensures
        header.d_ino == crate::read_dir::uint(order, bytes@.subrange(0, 8)),
        header.d_seekoff == crate::read_dir::uint(order, bytes@.subrange(8, 16)),
        header.d_reclen == crate::read_dir::uint(order, bytes@.subrange(16, 18)),
        header.d_namlen == crate::read_dir::uint(order, bytes@.subrange(18, 20)),
        header.d_type == bytes@[20],
        zero.d_ino == 0 && zero.d_seekoff == 0 && zero.d_reclen == 0 && zero.d_namlen == 0
            && zero.d_type == 0,
{
    lemma_eight_bytes_fit(order, bytes@.subrange(0, 8));
    lemma_eight_bytes_fit(order, bytes@.subrange(8, 16));
    lemma_two_bytes_fit(order, bytes@.subrange(16, 18));
    lemma_two_bytes_fit(order, bytes@.subrange(18, 20));
}

/// On macOS, reading goes on in chunks until one is empty, and the reader then has all of them, one
/// behind the other, and starts with the first.
pub proof fn law_mac_chunks_are_joined(
    order: ByteOrder,
    fresh: macos::AwaitChunk,
    native: macos::AwaitChunk,
    step: macos::AwaitChunk,
    chunk: Vec<u8>,
    next: macos::ReadStep,
    err: IoError,
    failed: macos::ReadStep,
)
    requires
        call_ensures(macos::AwaitChunk::new, (order,), fresh),
        call_ensures(macos::ReadDir::new_no_seek, (), native),
        call_ensures(macos::AwaitChunk::resume, (step, Ok::<Vec<u8>, IoError>(chunk)), next),
        call_ensures(macos::AwaitChunk::resume, (step, Err::<Vec<u8>, IoError>(err)), failed),
    ensures
        fresh.collected().len() == 0 && fresh.order() == order,
        native.collected().len() == 0,
        chunk@.len() > 0 ==> (next matches macos::ReadStep::Read(more) && more.collected()
            == step.collected() + chunk@ && more.order() == step.order()),
        chunk@.len() == 0 ==> {
            &&& next matches macos::ReadStep::Done(Ok(dir))
            &&& dir.wf()
            &&& dir.directory() == step.collected()
            &&& dir.rest() == step.collected()
            &&& dir.order() == step.order()
            &&& dir.skip() == 0
            &&& dir.seen() == 0
        },
        failed == macos::ReadStep::Done(Err(err)),
{
}

/// On macOS, a reader of given contents starts at their beginning, and resuming behind an offset is
/// to skip that many entries of the same contents.
pub proof fn law_mac_offset_is_number_to_skip(
    contents: Vec<u8>,
    order: ByteOrder,
    dir: macos::ReadDir,
    offset: i64,
    resumed: macos::ReadDir,
    n: usize,
    nothing: macos::ReadDir,
)
    requires
        call_ensures(macos::ReadDir::with_order, (contents, order), dir),
        0 <= offset <= usize::MAX,
        call_ensures(macos::ReadDir::new, (dir, offset), resumed),
        call_ensures(macos::ReadDir::remaining, (&resumed,), n),
        call_ensures(<macos::ReadDir as Default>::default, (), nothing),
    ensures
        dir.wf() && dir.directory() == contents@ && dir.rest() == contents@ && dir.order() == order,
        dir.skip() == 0 && dir.seen() == 0,
        resumed.wf() && resumed.directory() == contents@ && resumed.rest() == contents@,
        resumed.order() == order,
        resumed.skip() == offset && resumed.seen() == 0,
        n == contents@.len(),
        nothing.wf() && nothing.directory().len() == 0 && nothing.rest().len() == 0,
        nothing.skip() == 0 && nothing.seen() == 0,
{
}

/// The length that the record at the start of `bytes` says that it has.
pub open spec fn mac_record_len(order: ByteOrder, bytes: Seq<u8>) -> int {
    crate::read_dir::uint(order, bytes.subrange(16, 18)) as int
}

/// `bytes` start with a record that they hold whole.
pub open spec fn mac_has_record(order: ByteOrder, bytes: Seq<u8>) -> bool {
    bytes.len() >= 21 && 0 < mac_record_len(order, bytes) <= bytes.len()
}

/// On macOS, where nothing is to be skipped, the entry that comes next is in the first record of the
/// bytes that are left; its offset is how many have been seen, itself included.  That record is
/// consumed, and nothing else.  The name has the length that the record says, if a NUL follows it,
/// and else ends at its first NUL; one that reaches beyond the bytes is not handed out.
pub proof fn law_mac_next_consumes_first_record(
    dir: &mut macos::ReadDir,
    entry: Option<DirEntry>,
    at: int,
)
    requires
        old(dir).wf(),
        old(dir).skip() == 0,
        mac_has_record(old(dir).order(), old(dir).rest()),
        call_ensures(macos::ReadDir::next, (dir,), entry),
    ensures
        final(dir).wf(),
        final(dir).directory() == old(dir).directory(),
        final(dir).order() == old(dir).order(),
        final(dir).rest() == old(dir).rest().skip(
            mac_record_len(old(dir).order(), old(dir).rest()),
        ),
        final(dir).skip() == 0,
        final(dir).seen() == old(dir).seen() + 1,
        ({
            let bytes = old(dir).rest();
            let order = old(dir).order();
            let end = 21 + crate::read_dir::uint(order, bytes.subrange(18, 20)) as int;
            &&& end > bytes.len() ==> entry is None
            &&& end <= bytes.len() ==> {
                &&& entry matches Some(e)
                &&& e.ino == crate::read_dir::uint(order, bytes.subrange(0, 8))
                &&& e.offset == old(dir).seen() + 1
                &&& e.type_ == bytes[20]
                &&& end < bytes.len() && bytes[end] == 0 ==> e.name@ == bytes.subrange(21, end)
                &&& !(end < bytes.len() && bytes[end] == 0) && crate::laws::paths::first_nul_at(
                    bytes.subrange(21, end),
                    at,
                ) ==> e.name@ == bytes.subrange(21, 21 + at)
            }
        }),
{
    let bytes = old(dir).rest();
    let order = old(dir).order();
    let end = 21 + crate::read_dir::uint(order, bytes.subrange(18, 20)) as int;
    lemma_eight_bytes_fit(order, bytes.subrange(0, 8));
    lemma_two_bytes_fit(order, bytes.subrange(16, 18));
    lemma_two_bytes_fit(order, bytes.subrange(18, 20));
    reveal_with_fuel(macos::behind_records, 2);
    reveal_with_fuel(macos::record_count, 2);
    assert(macos::starts_with_record(order, bytes));
    final(dir).lemma_fits();
    if end <= bytes.len() {
        assert(macos::declared_name(order, bytes) =~= bytes.subrange(21, end));
        if crate::laws::paths::first_nul_at(bytes.subrange(21, end), at) {
            crate::util::lemma_c_len_unique(bytes.subrange(21, end), at as nat);
            assert(bytes.subrange(21, end).take(at) =~= bytes.subrange(21, 21 + at));
        }
    }
}

/// On macOS, skipping an entry is to move past its record: a reader that is to skip one more entry,
/// and one that has already seen it, hand out the same and go on in the same way.
pub proof fn law_mac_skipping_moves_past_record(
    dir: &mut macos::ReadDir,
    entry: Option<DirEntry>,
    ahead: &mut macos::ReadDir,
    ahead_entry: Option<DirEntry>,
)
    requires
        old(dir).wf(),
        old(ahead).wf(),
        old(dir).skip() > 0,
        mac_has_record(old(dir).order(), old(dir).rest()),
        old(ahead).order() == old(dir).order(),
        old(ahead).rest() == old(dir).rest().skip(
            mac_record_len(old(dir).order(), old(dir).rest()),
        ),
        old(ahead).skip() == old(dir).skip() - 1,
        old(ahead).seen() == old(dir).seen() + 1,
        call_ensures(macos::ReadDir::next, (dir,), entry),
        call_ensures(macos::ReadDir::next, (ahead,), ahead_entry),
    ensures
        (entry is Some) == (ahead_entry is Some),
        entry matches Some(e) ==> e@ == ahead_entry->0@,
        final(dir).rest() == final(ahead).rest(),
        final(dir).skip() == final(ahead).skip(),
        final(dir).seen() == final(ahead).seen(),
        final(dir).directory() == old(dir).directory(),
        final(dir).order() == old(dir).order(),
        final(dir).wf(),
{
    let bytes = old(dir).rest();
    let order = old(dir).order();
    lemma_two_bytes_fit(order, bytes.subrange(16, 18));
    assert(macos::starts_with_record(order, bytes));
    assert(macos::behind_record(order, bytes) == old(ahead).rest());
}

/// On macOS, a listing ends where no record starts: with too few bytes for its fixed part, or a
/// length of zero, or one of more than there is.  Nothing is consumed there.
pub proof fn law_mac_listing_ends_at_broken_record(
    dir: &mut macos::ReadDir,
    entry: Option<DirEntry>,
)
    requires
        old(dir).wf(),
        !mac_has_record(old(dir).order(), old(dir).rest()),
        call_ensures(macos::ReadDir::next, (dir,), entry),
    ensures
        entry is None,
        final(dir).wf(),
        final(dir).rest() == old(dir).rest(),
        final(dir).skip() == old(dir).skip(),
        final(dir).seen() == old(dir).seen(),
        final(dir).directory() == old(dir).directory(),
        final(dir).order() == old(dir).order(),
{
    if old(dir).rest().len() >= 21 {
        lemma_two_bytes_fit(old(dir).order(), old(dir).rest().subrange(16, 18));
    }
    assert(!macos::starts_with_record(old(dir).order(), old(dir).rest()));
}

/// On macOS, once an entry is handed out, its offset is how many have been seen, and what is left is
/// what lies behind that many records of the directory.
pub proof fn law_mac_offset_is_number_seen(dir: &mut macos::ReadDir, entry: Option<DirEntry>)
    requires
        old(dir).wf(),
        call_ensures(macos::ReadDir::next, (dir,), entry),
    ensures
        entry matches Some(e) ==> e.offset == final(dir).seen() && final(dir).seen() == old(
            dir,
        ).seen() + old(dir).skip() + 1 && final(dir).skip() == 0,
        final(dir).rest() == macos::behind_records(
            final(dir).order(),
            final(dir).directory(),
            final(dir).seen(),
        ),
        final(dir).directory() == old(dir).directory(),
{
    final(dir).lemma_rest();
    final(dir).lemma_fits();
}

/// On macOS, a listing of `n` entries is handed out whole, in order, each entry with its number as
/// offset, but for those to be skipped, and then nothing: where `k` entries have been seen and `s`
/// are to be skipped, the one with the number `k + s + 1` comes next.
pub proof fn law_mac_next_reads_listing(
    dir: &mut macos::ReadDir,
    entry: Option<DirEntry>,
    listing: Seq<macos::RecordedEntry>,
)
    requires
        old(dir).wf(),
        forall|i: int| 0 <= i < listing.len() ==> macos::fits_in_record(#[trigger] listing[i]),
        old(dir).directory() == macos::listing_bytes(old(dir).order(), listing),
        call_ensures(macos::ReadDir::next, (dir,), entry),
    ensures
        final(dir).wf(),
        final(dir).directory() == old(dir).directory(),
        final(dir).order() == old(dir).order(),
        old(dir).seen() <= listing.len(),
        ({
            let k = old(dir).seen();
            let s = old(dir).skip();
            let n = listing.len();
            &&& k + s < n ==> {
                &&& entry matches Some(e)
                &&& e.ino == listing[(k + s) as int].ino
                &&& e.offset == k + s + 1
                &&& e.type_ == listing[(k + s) as int].type_
                &&& e.name@ == listing[(k + s) as int].name
                &&& final(dir).seen() == k + s + 1
                &&& final(dir).skip() == 0
            }
            &&& k + s >= n ==> {
                &&& entry is None
                &&& final(dir).seen() == n
                &&& final(dir).skip() == s - (n - k)
            }
        }),
{
    let order = old(dir).order();
    let k = old(dir).seen();
    let s = old(dir).skip();
    old(dir).lemma_rest();
    final(dir).lemma_fits();
    macos::lemma_behind_listing(order, listing, 0);
    macos::lemma_behind_listing(order, listing, k);
    let left = listing.skip(k as int);
    assert forall|i: int| 0 <= i < left.len() implies macos::fits_in_record(#[trigger] left[i]) by {
        assert(left[i] == listing[i + k]);
    }
    if k + s < listing.len() {
        macos::lemma_behind_listing(order, left, s);
        let rest = left.skip(s as int);
        assert(rest[0] == listing[(k + s) as int]);
        macos::lemma_record_round_trip(
            order,
            rest[0],
            macos::listing_bytes(order, rest.drop_first()),
            k + s + 1,
        );
    } else {
        macos::lemma_behind_listing(order, left, left.len());
    }
}

/// On macOS, a reader can go on exactly if the name that it would hand out, if any, has an end: where
/// nothing is to be skipped, a NUL behind it, or one in it.
pub proof fn law_mac_terminated_names_are_readable(dir: &macos::ReadDir, readable: bool)
    requires
        dir.wf(),
        dir.skip() == 0,
        call_ensures(macos::ReadDir::is_readable, (dir,), readable),
    ensures
        ({
            let bytes = dir.rest();
            let end = 21 + crate::read_dir::uint(dir.order(), bytes.subrange(18, 20)) as int;
            readable == (!mac_has_record(dir.order(), bytes) || end > bytes.len() || (end
                < bytes.len() && bytes[end] == 0) || exists|i: int|
                21 <= i < end && #[trigger] bytes[i] == 0)
        }),
{
    let bytes = dir.rest();
    let order = dir.order();
    reveal_with_fuel(macos::behind_records, 2);
    reveal_with_fuel(macos::record_count, 2);
    if bytes.len() >= 21 {
        lemma_two_bytes_fit(order, bytes.subrange(16, 18));
        lemma_two_bytes_fit(order, bytes.subrange(18, 20));
        let end = 21 + crate::read_dir::uint(order, bytes.subrange(18, 20)) as int;
        if end <= bytes.len() {
            let name = macos::declared_name(order, bytes);
            assert(name =~= bytes.subrange(21, end));
            crate::util::lemma_c_len(name);
            let at = crate::util::c_len(name) as int;
            if at < name.len() {
                assert(bytes[21 + at] == 0);
            } else {
                assert forall|i: int| 21 <= i < end implies #[trigger] bytes[i] != 0 by {
                    assert(name[i - 21] == bytes[i]);
                }
            }
        }
    }
}

/// On macOS, whether a reader can go on does not change by moving past a record that is to be
/// skipped.
pub proof fn law_mac_skipped_names_do_not_matter(
    dir: &macos::ReadDir,
    readable: bool,
    ahead: &macos::ReadDir,
    ahead_readable: bool,
)
    requires
        dir.wf(),
        ahead.wf(),
        dir.skip() > 0,
        mac_has_record(dir.order(), dir.rest()),
        ahead.order() == dir.order(),
        ahead.rest() == dir.rest().skip(mac_record_len(dir.order(), dir.rest())),
        ahead.skip() == dir.skip() - 1,
        call_ensures(macos::ReadDir::is_readable, (dir,), readable),
        call_ensures(macos::ReadDir::is_readable, (ahead,), ahead_readable),
    ensures
        readable == ahead_readable,
{
    lemma_two_bytes_fit(dir.order(), dir.rest().subrange(16, 18));
    assert(macos::starts_with_record(dir.order(), dir.rest()));
    assert(macos::behind_record(dir.order(), dir.rest()) == ahead.rest());
}

/// On macOS, a reader can go on where no record starts: it then finds the end.
pub proof fn law_mac_end_is_readable(dir: &macos::ReadDir, readable: bool)
    requires
        dir.wf(),
        !mac_has_record(dir.order(), dir.rest()),
        call_ensures(macos::ReadDir::is_readable, (dir,), readable),
    ensures
        readable,
{
    if dir.rest().len() >= 21 {
        lemma_two_bytes_fit(dir.order(), dir.rest().subrange(16, 18));
    }
    assert(!macos::starts_with_record(dir.order(), dir.rest()));
}

} // verus!
