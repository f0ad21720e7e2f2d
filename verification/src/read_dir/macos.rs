//! Reading a directory on macOS.
//!
//! Positions in a directory are unreliable there, so a directory is always read as a whole, and an
//! entry's offset is its number: resuming at an offset means skipping that many entries.

use vstd::prelude::*;

use crate::read_dir::{
    native_order, read_u16, read_uint, strip_padding, ByteOrder, DirEntry, DirEntryView,
};
use crate::util::{c_length, IoError};

verus! {

/// Where the name starts in a record.
pub const NAME_OFFSET: usize = 21;

/// How many bytes to ask for at a time when reading a directory.
pub const CHUNK_SIZE: usize = 32768;

/// The fixed part of a record: inode number and position of eight bytes each, lengths of the record
/// and of the name of two bytes each, file type of one.
#[derive(Debug)]
pub struct MacDirent {
    pub d_ino: u64,
    pub d_seekoff: u64,
    pub d_reclen: u16,
    pub d_namlen: u16,
    pub d_type: u8,
}

impl Default for MacDirent {
    /// All fields are zero.
    fn default() -> (dirent: MacDirent)
        ensures
            dirent == (MacDirent {
                d_ino: 0,
                d_seekoff: 0,
                d_reclen: 0,
                d_namlen: 0,
                d_type: 0,
            }),
    {
        MacDirent { d_ino: 0, d_seekoff: 0, d_reclen: 0, d_namlen: 0, d_type: 0 }
    }
}

/// The fixed part of the record at the start of `bytes`.
pub open spec fn dirent(order: ByteOrder, bytes: Seq<u8>) -> MacDirent {
    MacDirent {
        d_ino: crate::read_dir::uint(order, bytes.subrange(0, 8)) as u64,
        d_seekoff: crate::read_dir::uint(order, bytes.subrange(8, 16)) as u64,
        d_reclen: crate::read_dir::uint(order, bytes.subrange(16, 18)) as u16,
        d_namlen: crate::read_dir::uint(order, bytes.subrange(18, 20)) as u16,
        d_type: bytes[20],
    }
}

impl MacDirent {
    /// Reads the fixed part of the record at the start of `bytes`.
    pub fn parse(order: ByteOrder, bytes: &[u8]) -> (header: MacDirent)
        requires
            bytes@.len() >= NAME_OFFSET,
        ensures
            header == dirent(order, bytes@),
    {
        MacDirent {
            d_ino: read_uint(order, vstd::slice::slice_subrange(bytes, 0, 8)),
            d_seekoff: read_uint(order, vstd::slice::slice_subrange(bytes, 8, 16)),
            d_reclen: read_u16(order, vstd::slice::slice_subrange(bytes, 16, 18)) as u16,
            d_namlen: read_u16(order, vstd::slice::slice_subrange(bytes, 18, 20)) as u16,
            d_type: bytes[20],
        }
    }
}

/// `bytes` start with a record: the fixed part is there, and the length that it gives is neither
/// zero nor more than there is.
pub open spec fn starts_with_record(order: ByteOrder, bytes: Seq<u8>) -> bool {
    bytes.len() >= NAME_OFFSET && 0 < dirent(order, bytes).d_reclen <= bytes.len()
}

/// What follows the first record of `bytes`.
pub open spec fn behind_record(order: ByteOrder, bytes: Seq<u8>) -> Seq<u8> {
    bytes.skip(dirent(order, bytes).d_reclen as int)
}

/// How many records `bytes` start with.
pub open spec fn record_count(order: ByteOrder, bytes: Seq<u8>) -> nat
    decreases bytes.len(),
{
    if starts_with_record(order, bytes) {
        1 + record_count(order, behind_record(order, bytes))
    } else {
        0
    }
}

/// What follows the first `n` records of `bytes`, or all of them if there are fewer.
pub open spec fn behind_records(order: ByteOrder, bytes: Seq<u8>, n: nat) -> Seq<u8>
    decreases n,
{
    if n == 0 || !starts_with_record(order, bytes) {
        bytes
    } else {
        behind_records(order, behind_record(order, bytes), (n - 1) as nat)
    }
}

/// The name in the record at the start of `bytes` lies inside them.
pub open spec fn holds_name(order: ByteOrder, bytes: Seq<u8>) -> bool {
    NAME_OFFSET + dirent(order, bytes).d_namlen <= bytes.len()
}

/// The bytes that the record at the start of `bytes` declares to be its name.
pub open spec fn declared_name(order: ByteOrder, bytes: Seq<u8>) -> Seq<u8> {
    bytes.subrange(21, NAME_OFFSET + dirent(order, bytes).d_namlen)
}

/// A NUL follows the name in the record at the start of `bytes`.
pub open spec fn nul_follows_name(order: ByteOrder, bytes: Seq<u8>) -> bool {
    let end = NAME_OFFSET + dirent(order, bytes).d_namlen;
    end < bytes.len() && bytes[end] == 0
}

/// The entry in the record at the start of `bytes`, with the given offset.  The name ends where the
/// record says, if a NUL follows there, and else at the first NUL in it.
pub open spec fn record_entry(order: ByteOrder, bytes: Seq<u8>, offset: nat) -> DirEntryView {
    let name = declared_name(order, bytes);
    DirEntryView {
        ino: dirent(order, bytes).d_ino,
        offset: offset as u64,
        type_: bytes[20] as u32,
        name: if nul_follows_name(order, bytes) {
            name
        } else {
            name.take(crate::util::c_len(name) as int)
        },
    }
}

/// The name in the record at the start of `bytes`, if it lies inside them, is terminated by a NUL.
pub open spec fn name_is_terminated(order: ByteOrder, bytes: Seq<u8>) -> bool {
    holds_name(order, bytes) ==> nul_follows_name(order, bytes) || crate::util::c_len(
        declared_name(order, bytes),
    ) < declared_name(order, bytes).len()
}

/// What asking for the next entry does.
pub ghost struct Outcome {
    /// The entry that is handed out.
    pub entry: Option<DirEntryView>,
    /// The bytes that are left.
    pub rest: Seq<u8>,
    /// How many entries are still to be skipped.
    pub skip: nat,
    /// How many entries have been seen.
    pub index: nat,
}

/// What asking for the next entry does where `bytes` are left, `skip` entries are still to be
/// skipped and `index` have been seen.
pub open spec fn outcome(order: ByteOrder, bytes: Seq<u8>, skip: nat, index: nat) -> Outcome {
    let count = record_count(order, bytes);
    if count <= skip {
        // There is no entry behind those to be skipped.
        Outcome {
            entry: None,
            rest: behind_records(order, bytes, count),
            skip: (skip - count) as nat,
            index: index + count,
        }
    } else {
        let record = behind_records(order, bytes, skip);
        Outcome {
            entry: if holds_name(order, record) {
                Some(record_entry(order, record, index + skip + 1))
            } else {
                None
            },
            rest: behind_record(order, record),
            skip: 0,
            index: index + skip + 1,
        }
    }
}

/// Skipping records one by one is skipping them at once.
proof fn lemma_behind_one_more(order: ByteOrder, bytes: Seq<u8>, n: nat)
    requires
        n <= record_count(order, bytes),
    ensures
        record_count(order, behind_records(order, bytes, n)) == record_count(order, bytes) - n,
        starts_with_record(order, behind_records(order, bytes, n)) == (n < record_count(
            order,
            bytes,
        )),
        n < record_count(order, bytes) ==> behind_records(order, bytes, n + 1) == behind_record(
            order,
            behind_records(order, bytes, n),
        ),
        behind_records(order, bytes, n).len() + n <= bytes.len(),
        behind_records(order, bytes, n) == bytes.skip(
            bytes.len() - behind_records(order, bytes, n).len(),
        ),
    decreases n,
{
    if n > 0 {
        let next = behind_record(order, bytes);
        lemma_behind_one_more(order, next, (n - 1) as nat);
        let rest = behind_records(order, bytes, n);
        assert(rest =~= bytes.skip(bytes.len() - rest.len()));
    } else {
        reveal_with_fuel(behind_records, 2);
        assert(bytes =~= bytes.skip(0));
    }
}

/// Resuming works: a reader that has seen `seen` entries of a directory, and one that reads the
/// directory from the start and is told to skip that many, hand out the same entry, with the same
/// offset, and go on in the same way.
pub proof fn law_offset_resumes_reading(order: ByteOrder, directory: Seq<u8>, seen: nat)
    requires
        seen <= record_count(order, directory),
    ensures
        outcome(order, directory, seen, 0) == outcome(
            order,
            behind_records(order, directory, seen),
            0,
            seen,
        ),
{
    let rest = behind_records(order, directory, seen);
    lemma_behind_one_more(order, directory, seen);
    assert(outcome(order, directory, seen, 0) =~= outcome(order, rest, 0, seen));
}

/// What the kernel writes for an entry.
pub ghost struct RecordedEntry {
    pub ino: u64,
    pub seekoff: u64,
    pub type_: u8,
    pub name: Seq<u8>,
    /// How many NULs follow the name.
    pub padding: nat,
}

/// A record can hold the entry: at least one NUL follows the name, and the lengths fit.
pub open spec fn fits_in_record(entry: RecordedEntry) -> bool {
    entry.padding >= 1 && NAME_OFFSET + entry.name.len() + entry.padding <= u16::MAX
}

/// The record that holds the entry.
pub open spec fn record_bytes(order: ByteOrder, entry: RecordedEntry) -> Seq<u8> {
    crate::read_dir::uint_bytes(order, entry.ino as nat, 8) + crate::read_dir::uint_bytes(
        order,
        entry.seekoff as nat,
        8,
    ) + crate::read_dir::uint_bytes(
        order,
        (NAME_OFFSET + entry.name.len() + entry.padding) as nat,
        2,
    ) + crate::read_dir::uint_bytes(order, entry.name.len(), 2) + seq![entry.type_] + entry.name
        + Seq::new(entry.padding, |i: int| 0u8)
}

/// The records that hold the entries, one behind the other.
pub open spec fn listing_bytes(order: ByteOrder, listing: Seq<RecordedEntry>) -> Seq<u8>
    decreases listing.len(),
{
    if listing.len() == 0 {
        seq![]
    } else {
        record_bytes(order, listing[0]) + listing_bytes(order, listing.drop_first())
    }
}

/// What was written as a record is read back from it, whatever follows.
pub proof fn lemma_record_round_trip(order: ByteOrder, entry: RecordedEntry, rest: Seq<u8>, offset: nat)
    requires
        fits_in_record(entry),
    ensures
        ({
            let bytes = record_bytes(order, entry) + rest;
            &&& starts_with_record(order, bytes)
            &&& holds_name(order, bytes)
            &&& behind_record(order, bytes) == rest
            &&& record_entry(order, bytes, offset) == (DirEntryView {
                ino: entry.ino,
                offset: offset as u64,
                type_: entry.type_ as u32,
                name: entry.name,
            })
        }),
{
    let len = (NAME_OFFSET + entry.name.len() + entry.padding) as nat;
    reveal_with_fuel(crate::read_dir::pow256, 9);
    crate::read_dir::law_uint_round_trip(order, entry.ino as nat, 8);
    crate::read_dir::law_uint_round_trip(order, entry.seekoff as nat, 8);
    crate::read_dir::law_uint_round_trip(order, len, 2);
    crate::read_dir::law_uint_round_trip(order, entry.name.len(), 2);
    let record = record_bytes(order, entry);
    let bytes = record + rest;
    assert(record.len() == len);
    assert(bytes.subrange(0, 8) =~= crate::read_dir::uint_bytes(order, entry.ino as nat, 8));
    assert(bytes.subrange(16, 18) =~= crate::read_dir::uint_bytes(order, len, 2));
    assert(bytes.subrange(18, 20) =~= crate::read_dir::uint_bytes(order, entry.name.len(), 2));
    assert(bytes[20] == entry.type_);
    assert(bytes[(NAME_OFFSET + entry.name.len()) as int] == 0);
    assert(declared_name(order, bytes) =~= entry.name);
    assert(behind_record(order, bytes) =~= rest);
}

/// Behind the first `n` records of a listing are the others.
pub proof fn lemma_behind_listing(order: ByteOrder, listing: Seq<RecordedEntry>, n: nat)
    requires
        n <= listing.len(),
        forall|i: int| 0 <= i < listing.len() ==> fits_in_record(#[trigger] listing[i]),
    ensures
        record_count(order, listing_bytes(order, listing)) == listing.len(),
        behind_records(order, listing_bytes(order, listing), n) == listing_bytes(
            order,
            listing.skip(n as int),
        ),
    decreases listing.len(),
{
    if listing.len() == 0 {
        assert(listing.skip(0) =~= listing);
    } else {
        let rest = listing.drop_first();
        assert forall|i: int| 0 <= i < rest.len() implies fits_in_record(#[trigger] rest[i]) by {
            assert(rest[i] == listing[i + 1]);
        }
        assert(fits_in_record(listing[0]));
        lemma_record_round_trip(order, listing[0], listing_bytes(order, rest), 0);
        if n == 0 {
            lemma_behind_listing(order, rest, 0);
            assert(listing.skip(0) =~= listing);
        } else {
            lemma_behind_listing(order, rest, (n - 1) as nat);
            assert(rest.skip(n - 1) =~= listing.skip(n as int));
        }
    }
}

/// Reading a listing that the kernel wrote gives back its entries: the one that follows `seen`
/// others is handed out behind them, with its number as the offset, and behind the last one there
/// is none.
pub proof fn law_listing_round_trip(order: ByteOrder, listing: Seq<RecordedEntry>, seen: nat)
    requires
        forall|i: int| 0 <= i < listing.len() ==> fits_in_record(#[trigger] listing[i]),
        seen <= listing.len(),
    ensures
        outcome(order, listing_bytes(order, listing), seen, 0).entry == (if seen < listing.len() {
            Some(
                DirEntryView {
                    ino: listing[seen as int].ino,
                    offset: (seen + 1) as u64,
                    type_: listing[seen as int].type_ as u32,
                    name: listing[seen as int].name,
                },
            )
        } else {
            None
        }),
{
    lemma_behind_listing(order, listing, seen);
    if seen < listing.len() {
        let rest = listing.skip(seen as int);
        assert(rest[0] == listing[seen as int]);
        lemma_record_round_trip(
            order,
            rest[0],
            listing_bytes(order, rest.drop_first()),
            seen + 1,
        );
    }
}

/// Hands out the entries of a directory that was read as a whole.
#[derive(Debug)]
pub struct ReadDir {
    dir_buf: Vec<u8>,
    current: usize,
    end: usize,
    skip_remaining: usize,
    entry_index: u64,
    order: ByteOrder,
}

impl ReadDir {
    /// The position is the one behind as many records as have been seen.
    pub closed spec fn wf(&self) -> bool {
        &&& self.current <= self.end <= self.dir_buf@.len()
        &&& self.entry_index <= record_count(self.order, self.directory())
        &&& self.rest() == behind_records(self.order, self.directory(), self.entry_index as nat)
    }

    /// All that was read of the directory.
    pub closed spec fn directory(&self) -> Seq<u8> {
        self.dir_buf@.take(self.end as int)
    }

    /// The bytes that have not been consumed yet.
    pub closed spec fn rest(&self) -> Seq<u8> {
        self.dir_buf@.subrange(self.current as int, self.end as int)
    }

    /// The order of the bytes of a number in the buffer.
    pub closed spec fn order(&self) -> ByteOrder {
        self.order
    }

    /// How many entries are still to be skipped.
    pub closed spec fn skip(&self) -> nat {
        self.skip_remaining as nat
    }

    /// How many entries have been seen, those that were skipped included.
    pub closed spec fn seen(&self) -> nat {
        self.entry_index as nat
    }

    /// The bytes left are those behind the entries that have been seen.
    pub proof fn lemma_rest(&self)
        requires
            self.wf(),
        ensures
            self.seen() <= record_count(self.order(), self.directory()),
            self.rest() == behind_records(self.order(), self.directory(), self.seen()),
    {
    }

    /// The number of entries that have been seen fits into an offset.
    pub proof fn lemma_fits(&self)
        ensures
            self.seen() <= u64::MAX,
    {
    }

    /// A reader of the directory `contents`, which holds numbers in the order `order`.
    pub fn with_order(contents: Vec<u8>, order: ByteOrder) -> (dir: ReadDir)
        ensures
            dir.wf(),
            dir.directory() == contents@,
            dir.rest() == contents@,
            dir.order() == order,
            dir.skip() == 0,
            dir.seen() == 0,
    {
        let end: usize = contents.len();
        assert(contents@.take(end as int) =~= contents@);
        assert(contents@.subrange(0, end as int) =~= contents@);
        ReadDir {
            dir_buf: contents,
            current: 0,
            end,
            skip_remaining: 0,
            entry_index: 0,
            order,
        }
    }

    /// Starts to read a directory; the numbers in it are in the order of this machine, of which
    /// nothing is claimed.
    pub fn new_no_seek() -> (step: AwaitChunk)
        ensures
            step.collected() == Seq::<u8>::empty(),
    {
        AwaitChunk::new(native_order())
    }

    /// A reader of the directory that `dir` reads from the start, which begins behind the entry
    /// with the given offset.
    pub fn new(dir: ReadDir, offset: i64) -> (resumed: ReadDir)
        requires
            dir.wf(),
        ensures
            resumed.wf(),
            resumed.directory() == dir.directory(),
            resumed.rest() == dir.rest(),
            resumed.order() == dir.order(),
            resumed.seen() == dir.seen(),
            resumed.skip() == offset as usize,
    {
        let mut resumed: ReadDir = dir;
        resumed.skip_remaining = #[verifier::truncate]
        (offset as usize);
        resumed
    }

    /// Returns the number of bytes from the internal buffer that have not yet been consumed.
    pub fn remaining(&self) -> (n: usize)
        requires
            self.wf(),
        ensures
            n == self.rest().len(),
    {
        self.end.saturating_sub(self.current)
    }

    /// The bytes that have not been consumed yet.
    fn unread(&self) -> (bytes: &[u8])
        requires
            self.wf(),
        ensures
            bytes@ == self.rest(),
    {
        vstd::slice::slice_subrange(self.dir_buf.as_slice(), self.current, self.end)
    }
}

impl Default for ReadDir {
    /// A reader of nothing.
    fn default() -> (dir: ReadDir)
        ensures
            dir.wf(),
            dir.directory() == Seq::<u8>::empty(),
            dir.rest() == Seq::<u8>::empty(),
            dir.skip() == 0,
            dir.seen() == 0,
    {
        ReadDir::with_order(Vec::new(), ByteOrder::Little)
    }
}

/// The name in the record at the start of `rem`.
fn read_name(order: ByteOrder, rem: &[u8], d_namlen: usize) -> (name: Option<Vec<u8>>)
    requires
        rem@.len() >= NAME_OFFSET,
        d_namlen == dirent(order, rem@).d_namlen,
        name_is_terminated(order, rem@),
    ensures
        holds_name(order, rem@) ==> (name matches Some(n) && n@ == record_entry(
            order,
            rem@,
            0,
        ).name),
        !holds_name(order, rem@) ==> name is None,
{
    let name_end: usize = NAME_OFFSET + d_namlen;
    if name_end > rem.len() {
        return None;
    }
    let name: &[u8] = vstd::slice::slice_subrange(rem, NAME_OFFSET, name_end);
    if name_end < rem.len() && rem[name_end] == 0 {
        Some(vstd::slice::slice_to_vec(name))
    } else {
        Some(vstd::slice::slice_to_vec(strip_padding(name)))
    }
}

impl ReadDir {
    /// Moves past the record at the current position.
    fn advance(&mut self, d_reclen: usize)
        requires
            old(self).wf(),
            starts_with_record(old(self).order(), old(self).rest()),
            d_reclen == dirent(old(self).order(), old(self).rest()).d_reclen,
        ensures
            final(self).wf(),
            final(self).directory() == old(self).directory(),
            final(self).order() == old(self).order(),
            final(self).rest() == behind_record(old(self).order(), old(self).rest()),
            final(self).seen() == old(self).seen() + 1,
            final(self).skip() == old(self).skip(),
    {
        proof {
            lemma_behind_one_more(self.order, self.directory(), self.seen());
        }
        let ghost before = self.rest();
        self.current = self.current + d_reclen;
        self.entry_index = self.entry_index + 1;
        assert(self.rest() =~= before.skip(d_reclen as int));
    }

    /// Whether [`Self::next`] can be called: the name that it would hand out, if there is one, is
    /// terminated by a NUL.
    pub fn is_readable(&self) -> (readable: bool)
        requires
            self.wf(),
        ensures
            readable == (record_count(self.order(), self.rest()) > self.skip() ==> name_is_terminated(
                self.order(),
                behind_records(self.order(), self.rest(), self.skip()),
            )),
    {
        let order: ByteOrder = self.order;
        let rest: &[u8] = self.unread();
        let mut at: usize = 0;
        let mut skipped: usize = 0;
        assert(rest@.skip(0) =~= rest@);
        loop
            invariant
                order == self.order(),
                rest@ == self.rest(),
                at <= rest@.len(),
                skipped <= self.skip_remaining,
                skipped <= record_count(order, rest@),
                rest@.skip(at as int) == behind_records(order, rest@, skipped as nat),
            decreases rest@.len() - at,
        {
            let rem: &[u8] = vstd::slice::slice_subrange(rest, at, rest.len());
            assert(rem@ =~= rest@.skip(at as int));
            proof {
                lemma_behind_one_more(order, rest@, skipped as nat);
            }
            if rem.len() < NAME_OFFSET {
                return true;
            }
            let header: MacDirent = MacDirent::parse(order, rem);
            let d_reclen: usize = header.d_reclen as usize;
            if d_reclen == 0 || d_reclen > rem.len() {
                return true;
            }
            if skipped == self.skip_remaining {
                let name_end: usize = NAME_OFFSET + header.d_namlen as usize;
                if name_end > rem.len() {
                    return true;
                }
                if name_end < rem.len() && rem[name_end] == 0 {
                    return true;
                }
                let name: &[u8] = vstd::slice::slice_subrange(rem, NAME_OFFSET, name_end);
                return c_length(name) < name.len();
            }
            assert(rest@.skip(at + d_reclen) =~= behind_record(order, rem@));
            at += d_reclen;
            skipped += 1;
        }
    }

    /// Takes the next entry that is not to be skipped from the buffer.
    pub fn next(&mut self) -> (entry: Option<DirEntry>)
        requires
            old(self).wf(),
            record_count(old(self).order(), old(self).rest()) > old(self).skip()
                ==> name_is_terminated(
                old(self).order(),
                behind_records(old(self).order(), old(self).rest(), old(self).skip()),
            ),
        ensures
            final(self).wf(),
            final(self).directory() == old(self).directory(),
            final(self).order() == old(self).order(),
            ({
                let expected = outcome(
                    old(self).order(),
                    old(self).rest(),
                    old(self).skip(),
                    old(self).seen(),
                );
                &&& final(self).rest() == expected.rest
                &&& final(self).skip() == expected.skip
                &&& final(self).seen() == expected.index
                &&& match expected.entry {
                    Some(e) => entry matches Some(found) && found@ == e,
                    None => entry is None,
                }
            }),
    {
        let order: ByteOrder = self.order;
        let ghost start = self.rest();
        let ghost mut passed: nat = 0;
        loop
            invariant
                self.wf(),
                self.order() == order,
                order == old(self).order(),
                self.directory() == old(self).directory(),
                start == old(self).rest(),
                passed <= record_count(order, start),
                passed <= old(self).skip(),
                self.rest() == behind_records(order, start, passed),
                self.skip() == old(self).skip() - passed,
                self.seen() == old(self).seen() + passed,
                record_count(order, start) > old(self).skip() ==> name_is_terminated(
                    order,
                    behind_records(order, start, old(self).skip()),
                ),
            decreases self.rest().len(),
        {
            let rem: &[u8] = self.unread();
            let ghost record = rem@;
            proof {
                lemma_behind_one_more(order, start, passed);
                self.lemma_rest();
            }
            if rem.len() < NAME_OFFSET {
                return None;
            }
            let header: MacDirent = MacDirent::parse(order, rem);
            let d_reclen: usize = header.d_reclen as usize;
            if d_reclen == 0 || d_reclen > rem.len() {
                return None;
            }
            if self.skip_remaining > 0 {
                self.advance(d_reclen);
                self.skip_remaining = self.skip_remaining - 1;
                proof {
                    passed = passed + 1;
                }
                continue;
            }
            let name: Option<Vec<u8>> = read_name(order, rem, header.d_namlen as usize);
            self.advance(d_reclen);
            return match name {
                None => None,
                Some(name) => Some(
                    DirEntry {
                        ino: header.d_ino,
                        offset: self.entry_index,
                        type_: header.d_type as u32,
                        name,
                    },
                ),
            };
        }
    }
}

/// A directory is being read: ask the kernel for up to [`CHUNK_SIZE`] further bytes, then go on with
/// [`Self::resume`].
#[derive(Debug)]
pub struct AwaitChunk {
    dir_buf: Vec<u8>,
    order: ByteOrder,
}

/// How reading a directory goes on.
#[derive(Debug)]
pub enum ReadStep {
    /// There may be more.
    Read(AwaitChunk),
    /// The directory was read to its end, or that failed.
    Done(Result<ReadDir, IoError>),
}

impl AwaitChunk {
    /// What has been read so far.
    pub closed spec fn collected(&self) -> Seq<u8> {
        self.dir_buf@
    }

    /// The order of the bytes of a number in what is read.
    pub closed spec fn order(&self) -> ByteOrder {
        self.order
    }

    /// Nothing has been read yet of a directory that holds numbers in the order `order`.
    pub fn new(order: ByteOrder) -> (step: AwaitChunk)
        ensures
            step.collected() == Seq::<u8>::empty(),
            step.order() == order,
    {
        AwaitChunk { dir_buf: Vec::new(), order }
    }

    /// Goes on, given what the kernel wrote, which is nothing at the end of the directory, or the
    /// error that it reported.
    pub fn resume(self, chunk: Result<Vec<u8>, IoError>) -> (step: ReadStep)
        ensures
            match chunk {
                Err(err) => step == ReadStep::Done(Err(err)),
                Ok(bytes) => if bytes@.len() == 0 {
                    step matches ReadStep::Done(Ok(dir)) && dir.wf() && dir.directory()
                        == self.collected() && dir.rest() == self.collected() && dir.order()
                        == self.order() && dir.skip() == 0 && dir.seen() == 0
                } else {
                    step matches ReadStep::Read(next) && next.collected() == self.collected()
                        + bytes@ && next.order() == self.order()
                },
            },
    {
        let mut bytes: Vec<u8> = match chunk {
            Err(err) => return ReadStep::Done(Err(err)),
            Ok(bytes) => bytes,
        };
        if bytes.len() == 0 {
            return ReadStep::Done(Ok(ReadDir::with_order(self.dir_buf, self.order)));
        }
        let mut next: AwaitChunk = self;
        next.dir_buf.append(&mut bytes);
        ReadStep::Read(next)
    }
}

} // verus!
