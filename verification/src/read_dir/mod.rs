//! Reading what the kernel reports of a directory.

pub mod macos;

use vstd::prelude::*;

use crate::util::{c_length, IoError};

verus! {

/// The order in which the bytes of a number are laid out in memory.
#[derive(Clone, Copy, Debug, PartialEq, Eq, Structural)]
pub enum ByteOrder {
    /// The least significant byte comes first.
    Little,
    /// The most significant byte comes first.
    Big,
}

/// The number whose bytes are `s`, the least significant one first.
pub open spec fn le_uint(s: Seq<u8>) -> nat
    decreases s.len(),
{
    if s.len() == 0 {
        0
    } else {
        s[0] as nat + 256 * le_uint(s.drop_first())
    }
}

/// The number whose bytes are `s`.
pub open spec fn uint(order: ByteOrder, s: Seq<u8>) -> nat {
    match order {
        ByteOrder::Little => le_uint(s),
        ByteOrder::Big => le_uint(s.reverse()),
    }
}

/// The `len` least significant bytes of `n`, the least significant one first.
pub open spec fn le_bytes(n: nat, len: nat) -> Seq<u8>
    decreases len,
{
    if len == 0 {
        seq![]
    } else {
        seq![(n % 256) as u8] + le_bytes(n / 256, (len - 1) as nat)
    }
}

/// The `len` least significant bytes of `n`.
pub open spec fn uint_bytes(order: ByteOrder, n: nat, len: nat) -> Seq<u8> {
    match order {
        ByteOrder::Little => le_bytes(n, len),
        ByteOrder::Big => le_bytes(n, len).reverse(),
    }
}

/// 256 to the power of `n`.
pub open spec fn pow256(n: nat) -> nat
    decreases n,
{
    if n == 0 {
        1
    } else {
        256 * pow256((n - 1) as nat)
    }
}

/// A number of at most eight bytes fits into 64 bits.
proof fn lemma_pow256_fits(n: nat)
    requires
        n <= 8,
    ensures
        pow256(n) <= 0x1_0000_0000_0000_0000,
{
    reveal_with_fuel(pow256, 9);
}

/// A number is smaller than its number of bytes allows.
proof fn lemma_le_uint_bound(s: Seq<u8>)
    ensures
        le_uint(s) < pow256(s.len()),
    decreases s.len(),
{
    if s.len() > 0 {
        lemma_le_uint_bound(s.drop_first());
    }
}

/// Reads the number whose bytes are `b`.
fn read_uint(order: ByteOrder, b: &[u8]) -> (n: u64)
    requires
        b@.len() <= 8,
    ensures
        n == uint(order, b@),
        n < pow256(b@.len()),
{
    let ghost s = match order {
        ByteOrder::Little => b@,
        ByteOrder::Big => b@.reverse(),
    };
    let len: usize = b.len();
    let mut i: usize = len;
    let mut n: u64 = 0;
    assert(s.skip(len as int).len() == 0);
    while i > 0
        invariant
            i <= len,
            len == b@.len(),
            len <= 8,
            s == (match order {
                ByteOrder::Little => b@,
                ByteOrder::Big => b@.reverse(),
            }),
            n == le_uint(s.skip(i as int)),
        decreases i,
    {
        i -= 1;
        let byte: u8 = match order {
            ByteOrder::Little => b[i],
            ByteOrder::Big => b[len - 1 - i],
        };
        proof {
            let tail = s.skip(i as int);
            assert(tail.drop_first() =~= s.skip(i + 1));
            assert(tail[0] == byte);
            lemma_le_uint_bound(tail);
            lemma_pow256_fits(tail.len());
        }
        n = n * 256 + byte as u64;
    }
    proof {
        assert(s.skip(0) =~= s);
        lemma_le_uint_bound(s);
    }
    n
}

/// Reads the number whose two bytes are `b`.
fn read_u16(order: ByteOrder, b: &[u8]) -> (n: usize)
    requires
        b@.len() == 2,
    ensures
        n == uint(order, b@),
        n <= u16::MAX,
{
    let n: u64 = read_uint(order, b);
    proof {
        reveal_with_fuel(pow256, 3);
    }
    n as usize
}

/// Writing a number and reading it back gives the number, if it fits.
pub proof fn law_uint_round_trip(order: ByteOrder, n: nat, len: nat)
    requires
        n < pow256(len),
    ensures
        uint_bytes(order, n, len).len() == len,
        uint(order, uint_bytes(order, n, len)) == n,
{
    lemma_le_round_trip(n, len);
    assert(le_bytes(n, len).reverse().reverse() =~= le_bytes(n, len));
}

/// Writing a number and reading it back gives the number, if it fits, in little-endian order.
proof fn lemma_le_round_trip(n: nat, len: nat)
    requires
        n < pow256(len),
    ensures
        le_bytes(n, len).len() == len,
        le_uint(le_bytes(n, len)) == n,
    decreases len,
{
    if len > 0 {
        lemma_le_round_trip(n / 256, (len - 1) as nat);
        assert(le_bytes(n, len).drop_first() =~= le_bytes(n / 256, (len - 1) as nat));
    }
}

/// `u16::from_ne_bytes`.  The contract claims that it is one of the two ways to read the bytes, and
/// leaves open which: that is up to the machine.
#[verifier::external_body]
fn u16_from_ne_bytes(bytes: [u8; 2]) -> (n: u16)
    ensures
        n == bytes@[0] + 256 * bytes@[1] || n == 256 * bytes@[0] + bytes@[1],
{
    u16::from_ne_bytes(bytes)
}

/// The order of a machine that reads the bytes 1 and 0 as the number `reading`: the one in which
/// they are that number.
pub fn order_of_reading(reading: u16) -> (order: ByteOrder)
    ensures
        order == (if reading == 1 {
            ByteOrder::Little
        } else {
            ByteOrder::Big
        }),
        reading == 1 || reading == 256 ==> uint(order, seq![1u8, 0u8]) == reading,
{
    let order: ByteOrder = if reading == 1 {
        ByteOrder::Little
    } else {
        ByteOrder::Big
    };
    proof {
        reveal_with_fuel(le_uint, 3);
        assert(seq![1u8, 0u8].reverse() =~= seq![0u8, 1u8]);
        assert(seq![1u8, 0u8].drop_first() =~= seq![0u8]);
        assert(seq![0u8, 1u8].drop_first() =~= seq![1u8]);
    }
    order
}

/// The order that this machine uses, by how it reads the bytes 1 and 0.  Nothing is claimed of the
/// result: it depends on the machine.
fn native_order() -> (order: ByteOrder) {
    order_of_reading(u16_from_ne_bytes([1, 0]))
}

/// An entry of a directory.
#[derive(Debug)]
pub struct DirEntry {
    /// The inode number.
    pub ino: u64,
    /// Where to continue reading after this entry.
    pub offset: u64,
    /// The type of the file.
    pub type_: u32,
    /// The name, without a NUL at the end.
    pub name: Vec<u8>,
}

/// What a [`DirEntry`] says.
pub ghost struct DirEntryView {
    pub ino: u64,
    pub offset: u64,
    pub type_: u32,
    pub name: Seq<u8>,
}

impl View for DirEntry {
    type V = DirEntryView;

    open spec fn view(&self) -> DirEntryView {
        DirEntryView {
            ino: self.ino,
            offset: self.offset,
            type_: self.type_,
            name: self.name@,
        }
    }
}

/// The text in `b` up to its first NUL; any bytes after that are stripped.
pub fn strip_padding(b: &[u8]) -> (name: &[u8])
    requires
        crate::util::c_len(b@) < b@.len(),
    ensures
        name@ == b@.take(crate::util::c_len(b@) as int),
{
    vstd::slice::slice_subrange(b, 0, c_length(b))
}

/// Size of the fixed part of a record that getdents64(2) writes: inode number and offset of eight
/// bytes each, length of the record of two, file type of one.
pub const DIRENT_LEN: usize = 19;

/// `vm_memory::ByteValued::from_slice` for an array of as many bytes as the fixed part of a record
/// has.  The contract claims that it gives the bytes of the slice, if there are exactly that many;
/// any slice is aligned for an array of bytes.
#[verifier::external_body]
fn header_from_slice(front: &[u8]) -> (header: Option<[u8; 19]>)
    ensures
        header is Some == (front@.len() == 19),
        header is Some ==> header->0@ == front@,
{
    <[u8; 19] as vm_memory::ByteValued>::from_slice(front).copied()
}

/// The length of the record at the start of `bytes`.
pub open spec fn record_len(order: ByteOrder, bytes: Seq<u8>) -> nat {
    uint(order, bytes.subrange(16, 18))
}

/// `bytes` start with a complete record that holds a NUL-terminated name.
pub open spec fn starts_with_record(order: ByteOrder, bytes: Seq<u8>) -> bool {
    let len = record_len(order, bytes);
    &&& bytes.len() >= DIRENT_LEN
    &&& DIRENT_LEN <= len <= bytes.len()
    &&& crate::util::c_len(bytes.subrange(19, len as int)) < len - DIRENT_LEN
}

/// The entry in the record at the start of `bytes`.
pub open spec fn record_entry(order: ByteOrder, bytes: Seq<u8>) -> DirEntryView {
    let name = bytes.subrange(19, record_len(order, bytes) as int);
    DirEntryView {
        ino: uint(order, bytes.subrange(0, 8)) as u64,
        offset: uint(order, bytes.subrange(8, 16)) as u64,
        type_: bytes[18] as u32,
        name: name.take(crate::util::c_len(name) as int),
    }
}

/// `bytes` are a sequence of complete records.
pub open spec fn are_records(order: ByteOrder, bytes: Seq<u8>) -> bool
    decreases bytes.len(),
{
    bytes.len() == 0 || (starts_with_record(order, bytes) && are_records(
        order,
        bytes.skip(record_len(order, bytes) as int),
    ))
}

/// The entries in the records that `bytes` start with.
pub open spec fn entries(order: ByteOrder, bytes: Seq<u8>) -> Seq<DirEntryView>
    decreases bytes.len(),
{
    if bytes.len() == 0 || !starts_with_record(order, bytes) {
        seq![]
    } else {
        seq![record_entry(order, bytes)] + entries(
            order,
            bytes.skip(record_len(order, bytes) as int),
        )
    }
}

/// Hands out the entries in a buffer that getdents64(2) has filled.
#[derive(Debug)]
pub struct ReadDir {
    buf: Vec<u8>,
    current: usize,
    end: usize,
    order: ByteOrder,
}

impl ReadDir {
    /// The position is inside the part of the buffer that was filled.
    pub closed spec fn wf(&self) -> bool {
        self.current <= self.end <= self.buf@.len()
    }

    /// The bytes that have not been consumed yet.
    pub closed spec fn rest(&self) -> Seq<u8> {
        self.buf@.subrange(self.current as int, self.end as int)
    }

    /// The order of the bytes of a number in the buffer.
    pub closed spec fn order(&self) -> ByteOrder {
        self.order
    }

    /// A reader of the first `end` bytes of `buf`, which hold numbers in the order `order`.
    pub fn with_order(buf: Vec<u8>, end: usize, order: ByteOrder) -> (dir: ReadDir)
        requires
            end <= buf@.len(),
        ensures
            dir.wf(),
            dir.rest() == buf@.take(end as int),
            dir.order() == order,
    {
        ReadDir { buf, current: 0, end, order }
    }

    /// A reader of what getdents64(2) wrote to `buf`, with numbers in the order of this machine.
    /// `read` is how many bytes it wrote, or its error.
    pub fn new_no_seek(buf: Vec<u8>, read: Result<usize, IoError>) -> (dir: Result<
        ReadDir,
        IoError,
    >)
        requires
            read matches Ok(end) ==> end <= buf@.len(),
        ensures
            match read {
                Err(err) => dir == Err::<ReadDir, IoError>(err),
                Ok(end) => dir matches Ok(reader) && reader.wf() && reader.rest() == buf@.take(
                    end as int,
                ),
            },
    {
        match read {
            Err(err) => Err(err),
            Ok(end) => Ok(ReadDir::with_order(buf, end, native_order())),
        }
    }

    /// Returns the number of bytes from the internal buffer that have not yet been consumed.
    pub fn remaining(&self) -> (n: usize)
        requires
            self.wf(),
        ensures
            n == self.rest().len(),
    {
        self.end.saturating_sub(self.current)
    }

    /// The bytes that have not been consumed yet.
    fn unread(&self) -> (bytes: &[u8])
        requires
            self.wf(),
        ensures
            bytes@ == self.rest(),
    {
        vstd::slice::slice_subrange(self.buf.as_slice(), self.current, self.end)
    }

    /// Whether [`Self::next`] can be called: the buffer is consumed, or goes on with a complete
    /// record.
    pub fn is_readable(&self) -> (readable: bool)
        requires
            self.wf(),
        ensures
            readable == (self.rest().len() == 0 || starts_with_record(self.order(), self.rest())),
    {
        let rem: &[u8] = self.unread();
        if rem.len() == 0 {
            return true;
        }
        if rem.len() < DIRENT_LEN {
            return false;
        }
        let len: usize = read_u16(self.order, vstd::slice::slice_subrange(rem, 16, 18));
        if len < DIRENT_LEN || len > rem.len() {
            return false;
        }
        let name: &[u8] = vstd::slice::slice_subrange(rem, DIRENT_LEN, len);
        c_length(name) < name.len()
    }

    /// Takes the next entry from the buffer.
    pub fn next(&mut self) -> (entry: Option<DirEntry>)
        requires
            old(self).wf(),
            old(self).rest().len() == 0 || starts_with_record(old(self).order(), old(self).rest()),
        ensures
            final(self).wf(),
            final(self).order() == old(self).order(),
            old(self).rest().len() == 0 ==> entry is None && final(self).rest() == old(self).rest(),
            old(self).rest().len() > 0 ==> {
                &&& entry matches Some(e)
                &&& e@ == record_entry(old(self).order(), old(self).rest())
                &&& final(self).rest() == old(self).rest().skip(
                    record_len(old(self).order(), old(self).rest()) as int,
                )
            },
    {
        let rem: &[u8] = self.unread();
        if rem.len() == 0 {
            return None;
        }
        let ghost before = rem@;
        let front: &[u8] = vstd::slice::slice_subrange(rem, 0, DIRENT_LEN);
        let back: &[u8] = vstd::slice::slice_subrange(rem, DIRENT_LEN, rem.len());
        let header: [u8; 19] = match header_from_slice(front) {
            Some(header) => header,
            None => return None,
        };
        let fixed: &[u8] = header.as_slice();
        let d_ino: u64 = read_uint(self.order, vstd::slice::slice_subrange(fixed, 0, 8));
        let d_off: u64 = read_uint(self.order, vstd::slice::slice_subrange(fixed, 8, 16));
        let d_reclen: usize = read_u16(self.order, vstd::slice::slice_subrange(fixed, 16, 18));
        let d_ty: u8 = fixed[18];
        proof {
            assert(fixed@.subrange(0, 8) =~= before.subrange(0, 8));
            assert(fixed@.subrange(8, 16) =~= before.subrange(8, 16));
            assert(fixed@.subrange(16, 18) =~= before.subrange(16, 18));
        }
        // The kernel pads the name with NULs until the record is aligned.
        let padded: &[u8] = vstd::slice::slice_subrange(back, 0, d_reclen - DIRENT_LEN);
        assert(padded@ =~= before.subrange(19, d_reclen as int));
        let name: Vec<u8> = vstd::slice::slice_to_vec(strip_padding(padded));
        self.current = self.current + d_reclen;
        assert(self.rest() =~= before.skip(d_reclen as int));
        Some(DirEntry { ino: d_ino, offset: d_off, type_: d_ty as u32, name })
    }
}

impl Default for ReadDir {
    /// A reader of nothing.
    fn default() -> (dir: ReadDir)
        ensures
            dir.wf(),
            dir.rest() == Seq::<u8>::empty(),
    {
        ReadDir::with_order(Vec::new(), 0, ByteOrder::Little)
    }
}

/// Taking the next entry hands out the first of the entries that the unread bytes hold, and leaves
/// the others; bytes that are a sequence of complete records stay one.
pub proof fn law_next_hands_out_first_entry(order: ByteOrder, bytes: Seq<u8>)
    requires
        are_records(order, bytes),
        bytes.len() > 0,
    ensures
        ({
            let rest = bytes.skip(record_len(order, bytes) as int);
            &&& starts_with_record(order, bytes)
            &&& are_records(order, rest)
            &&& rest.len() < bytes.len()
            &&& entries(order, bytes) == seq![record_entry(order, bytes)] + entries(order, rest)
        }),
{
}

/// An entry and how many NULs follow its name in a record.
pub ghost struct PaddedEntry {
    pub entry: DirEntryView,
    pub padding: nat,
}

/// A record can hold the entry: the name is free of NULs, at least one NUL follows it, and the
/// numbers fit.
pub open spec fn fits_in_record(padded: PaddedEntry) -> bool {
    let name = padded.entry.name;
    &&& forall|i: int| 0 <= i < name.len() ==> name[i] != 0
    &&& padded.padding >= 1
    &&& DIRENT_LEN + name.len() + padded.padding <= u16::MAX
    &&& padded.entry.type_ <= u8::MAX
}

/// The record that holds the entry.
pub open spec fn record_bytes(order: ByteOrder, padded: PaddedEntry) -> Seq<u8> {
    let entry = padded.entry;
    uint_bytes(order, entry.ino as nat, 8) + uint_bytes(order, entry.offset as nat, 8) + uint_bytes(
        order,
        (DIRENT_LEN + entry.name.len() + padded.padding) as nat,
        2,
    ) + seq![entry.type_ as u8] + entry.name + Seq::new(padded.padding, |i: int| 0u8)
}

/// The records that hold the entries, one behind the other.
pub open spec fn listing_bytes(order: ByteOrder, listing: Seq<PaddedEntry>) -> Seq<u8>
    decreases listing.len(),
{
    if listing.len() == 0 {
        seq![]
    } else {
        record_bytes(order, listing[0]) + listing_bytes(order, listing.drop_first())
    }
}

/// What was written as a record is read back from it, whatever follows.
pub proof fn lemma_record_round_trip(order: ByteOrder, padded: PaddedEntry, rest: Seq<u8>)
    requires
        fits_in_record(padded),
    ensures
        ({
            let record = record_bytes(order, padded);
            let bytes = record + rest;
            &&& starts_with_record(order, bytes)
            &&& record_len(order, bytes) == record.len()
            &&& record_entry(order, bytes) == padded.entry
            &&& bytes.skip(record.len() as int) == rest
        }),
{
    let entry = padded.entry;
    let len = (DIRENT_LEN + entry.name.len() + padded.padding) as nat;
    reveal_with_fuel(pow256, 9);
    law_uint_round_trip(order, entry.ino as nat, 8);
    law_uint_round_trip(order, entry.offset as nat, 8);
    law_uint_round_trip(order, len, 2);
    let record = record_bytes(order, padded);
    let bytes = record + rest;
    assert(record.len() == len);
    assert(bytes.subrange(0, 8) =~= uint_bytes(order, entry.ino as nat, 8));
    assert(bytes.subrange(8, 16) =~= uint_bytes(order, entry.offset as nat, 8));
    assert(bytes.subrange(16, 18) =~= uint_bytes(order, len, 2));
    let name = bytes.subrange(19, len as int);
    assert(name =~= entry.name + Seq::new(padded.padding, |i: int| 0u8));
    crate::util::lemma_c_len_unique(name, entry.name.len());
    assert(name.take(entry.name.len() as int) =~= entry.name);
    assert(bytes.skip(record.len() as int) =~= rest);
    assert(record_entry(order, bytes).name =~= entry.name);
}

/// A record in front of others comes first when they are read.
proof fn lemma_prepend_record(order: ByteOrder, bytes: Seq<u8>, entry: DirEntryView, rest: Seq<u8>)
    requires
        starts_with_record(order, bytes),
        record_entry(order, bytes) == entry,
        bytes.skip(record_len(order, bytes) as int) == rest,
        are_records(order, rest),
    ensures
        are_records(order, bytes),
        entries(order, bytes) == seq![entry] + entries(order, rest),
{
}

/// Reading a listing that the kernel wrote gives back its entries, in order, whatever the padding
/// behind each name.
pub proof fn law_listing_round_trip(order: ByteOrder, listing: Seq<PaddedEntry>)
    requires
        forall|i: int| 0 <= i < listing.len() ==> fits_in_record(#[trigger] listing[i]),
    ensures
        are_records(order, listing_bytes(order, listing)),
        entries(order, listing_bytes(order, listing)) == listing.map_values(
            |padded: PaddedEntry| padded.entry,
        ),
    decreases listing.len(),
{
    let expected = listing.map_values(|padded: PaddedEntry| padded.entry);
    if listing.len() == 0 {
        assert(entries(order, listing_bytes(order, listing)) =~= expected);
    } else {
        let rest = listing.drop_first();
        let bytes = listing_bytes(order, listing);
        assert(bytes == record_bytes(order, listing[0]) + listing_bytes(order, rest));
        assert forall|i: int| 0 <= i < rest.len() implies fits_in_record(#[trigger] rest[i]) by {
            assert(rest[i] == listing[i + 1]);
        }
        law_listing_round_trip(order, rest);
        assert(fits_in_record(listing[0]));
        assert(are_records(order, bytes) && entries(order, bytes) == seq![listing[0].entry]
            + entries(order, listing_bytes(order, rest))) by {
            lemma_record_round_trip(order, listing[0], listing_bytes(order, rest));
            lemma_prepend_record(order, bytes, listing[0].entry, listing_bytes(order, rest));
        }
        assert(expected =~= seq![listing[0].entry] + rest.map_values(
            |padded: PaddedEntry| padded.entry,
        ));
    }
}

} // verus!
