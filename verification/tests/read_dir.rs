use virtiofsd::read_dir::macos;
use virtiofsd::read_dir::{order_of_reading, strip_padding, ByteOrder, ReadDir};
use virtiofsd::util::IoError;

#[test]
fn padded_cstrings() {
    assert_eq!(strip_padding(b".\0\0\0\0\0\0\0"), b".");
    assert_eq!(strip_padding(b"..\0\0\0\0\0\0"), b"..");
    assert_eq!(strip_padding(b"normal cstring\0"), b"normal cstring");
    assert_eq!(strip_padding(b"\0\0\0\0"), b"");
    assert_eq!(strip_padding(b"interior\0nul bytes\0\0\0"), b"interior");
}

fn number(order: ByteOrder, n: u64, len: usize) -> Vec<u8> {
    let mut bytes = n.to_le_bytes()[..len].to_vec();
    if order == ByteOrder::Big {
        bytes.reverse();
    }
    bytes
}

fn record(order: ByteOrder, ino: u64, off: u64, ty: u8, name: &[u8]) -> Vec<u8> {
    let len = (19 + name.len() + 1 + 7) / 8 * 8;
    let mut bytes = number(order, ino, 8);
    bytes.extend(number(order, off, 8));
    bytes.extend(number(order, len as u64, 2));
    bytes.push(ty);
    bytes.extend(name);
    bytes.resize(len, 0);
    bytes
}

fn check_listing(order: ByteOrder) {
    let mut buf = record(order, 0x0102030405060708, u64::MAX, 4, b".");
    buf.extend(record(order, 7, 12, 8, b"file.txt"));
    let end = buf.len();
    buf.extend(b"rest of the buffer");
    let mut dir = ReadDir::with_order(buf, end, order);
    assert_eq!(dir.remaining(), end);
    assert!(dir.is_readable());
    let first = dir.next().unwrap();
    assert_eq!((first.ino, first.offset, first.type_), (0x0102030405060708, u64::MAX, 4));
    assert_eq!(first.name, b".".to_vec());
    assert_eq!(dir.remaining(), end - 24);
    let second = dir.next().unwrap();
    assert_eq!((second.ino, second.offset, second.type_), (7, 12, 8));
    assert_eq!(second.name, b"file.txt".to_vec());
    assert_eq!(dir.remaining(), 0);
    assert!(dir.is_readable());
    assert!(dir.next().is_none());
    assert!(dir.next().is_none());
}

#[test]
fn listings_are_read_back_in_order() {
    check_listing(ByteOrder::Little);
    check_listing(ByteOrder::Big);
}

#[test]
fn listings_of_this_machine_are_read() {
    let mut buf = 258u64.to_ne_bytes().to_vec();
    buf.extend(3i64.to_ne_bytes());
    buf.extend(24u16.to_ne_bytes());
    buf.extend(b"\x08abc\0\0");
    assert_eq!(buf.len(), 24);
    let mut dir = ReadDir::new_no_seek(buf, Ok(24)).unwrap();
    let entry = dir.next().unwrap();
    assert_eq!((entry.ino, entry.offset, entry.type_), (258, 3, 8));
    assert_eq!(entry.name, b"abc".to_vec());
    assert_eq!(
        ReadDir::new_no_seek(vec![], Err(IoError::Os(20))).unwrap_err().raw_os_error(),
        Some(20)
    );
}

#[test]
fn incomplete_records_are_not_readable() {
    let order = ByteOrder::Little;
    let whole = record(order, 1, 2, 8, b"abc");
    assert!(!ReadDir::with_order(whole.clone(), 18, order).is_readable());
    assert!(!ReadDir::with_order(whole.clone(), 23, order).is_readable());
    assert!(ReadDir::with_order(whole.clone(), 24, order).is_readable());
    let mut short = whole.clone();
    short[16] = 18;
    assert!(!ReadDir::with_order(short, 24, order).is_readable());
    let mut unterminated = whole;
    unterminated[22] = 1;
    unterminated[23] = 1;
    assert!(!ReadDir::with_order(unterminated, 24, order).is_readable());
}

#[test]
fn default_reader_is_empty() {
    let mut dir = ReadDir::default();
    assert_eq!(dir.remaining(), 0);
    assert!(dir.next().is_none());
    let mut mac_dir = macos::ReadDir::default();
    assert_eq!(mac_dir.remaining(), 0);
    assert!(mac_dir.next().is_none());
}

fn mac_record(order: ByteOrder, ino: u64, ty: u8, name: &[u8]) -> Vec<u8> {
    let len = (21 + name.len() + 1 + 7) / 8 * 8;
    let mut bytes = number(order, ino, 8);
    bytes.extend(number(order, 99, 8));
    bytes.extend(number(order, len as u64, 2));
    bytes.extend(number(order, name.len() as u64, 2));
    bytes.push(ty);
    bytes.extend(name);
    bytes.resize(len, 0);
    bytes
}

fn mac_listing(order: ByteOrder) -> Vec<u8> {
    let mut bytes = mac_record(order, 10, 4, b".");
    bytes.extend(mac_record(order, 11, 4, b".."));
    bytes.extend(mac_record(order, 300, 8, b"a name that is longer"));
    bytes.extend(mac_record(order, 13, 8, b"z"));
    bytes
}

fn mac_names(dir: &mut macos::ReadDir) -> Vec<(u64, Vec<u8>)> {
    let mut names = vec![];
    while dir.is_readable() {
        match dir.next() {
            Some(entry) => names.push((entry.offset, entry.name)),
            None => break,
        }
    }
    names
}

#[test]
fn macos_entries_are_numbered() {
    for order in [ByteOrder::Little, ByteOrder::Big] {
        let mut dir = macos::ReadDir::with_order(mac_listing(order), order);
        let first = dir.next().unwrap();
        assert_eq!((first.ino, first.offset, first.type_), (10, 1, 4));
        assert_eq!(
            mac_names(&mut dir),
            vec![
                (2, b"..".to_vec()),
                (3, b"a name that is longer".to_vec()),
                (4, b"z".to_vec()),
            ]
        );
        assert_eq!(dir.remaining(), 0);
    }
}

#[test]
fn macos_reading_resumes_behind_an_offset() {
    let order = ByteOrder::Little;
    for offset in 0..6i64 {
        let mut all = macos::ReadDir::with_order(mac_listing(order), order);
        let expected: Vec<(u64, Vec<u8>)> =
            mac_names(&mut all).into_iter().filter(|(o, _)| *o > offset as u64).collect();
        let whole = macos::ReadDir::with_order(mac_listing(order), order);
        let mut resumed = macos::ReadDir::new(whole, offset);
        assert_eq!(mac_names(&mut resumed), expected);
    }
}

#[test]
fn macos_names_without_terminator_end_at_the_first_nul() {
    let order = ByteOrder::Little;
    let mut bytes = mac_record(order, 1, 8, b"ab");
    // The declared name reaches to the end of the buffer.
    bytes[18] = 3;
    assert_eq!(bytes.len(), 24);
    let mut dir = macos::ReadDir::with_order(bytes.clone(), order);
    assert!(dir.is_readable());
    assert_eq!(dir.next().unwrap().name, b"ab".to_vec());
    bytes[23] = b'c';
    assert!(!macos::ReadDir::with_order(bytes.clone(), order).is_readable());
    // It is skipped without a look at its name.
    let mut skipping = macos::ReadDir::new(macos::ReadDir::with_order(bytes.clone(), order), 1);
    assert!(skipping.is_readable());
    assert!(skipping.next().is_none());
    // A name that reaches further ends the listing.
    bytes[18] = 4;
    let mut dir = macos::ReadDir::with_order(bytes, order);
    assert!(dir.is_readable());
    assert!(dir.next().is_none());
    assert_eq!(dir.remaining(), 0);
}

#[test]
fn macos_listing_ends_at_a_broken_record() {
    let order = ByteOrder::Little;
    let mut bytes = mac_listing(order);
    bytes[16] = 0;
    let mut dir = macos::ReadDir::with_order(bytes.clone(), order);
    assert!(dir.next().is_none());
    assert_eq!(dir.remaining(), bytes.len());
    bytes[17] = 1;
    assert!(macos::ReadDir::with_order(bytes, order).next().is_none());
    assert!(macos::ReadDir::with_order(vec![0; 20], order).next().is_none());
}

#[test]
fn macos_directories_are_read_in_chunks() {
    let order = if 1u16.to_ne_bytes()[0] == 1 { ByteOrder::Little } else { ByteOrder::Big };
    let listing = mac_listing(order);
    let mut step = macos::ReadDir::new_no_seek();
    for chunk in [&listing[..24], &listing[24..]] {
        step = match step.resume(Ok(chunk.to_vec())) {
            macos::ReadStep::Read(next) => next,
            other => panic!("{:?}", other),
        };
    }
    match step.resume(Ok(vec![])) {
        macos::ReadStep::Done(Ok(mut dir)) => {
            assert_eq!(dir.remaining(), listing.len());
            assert_eq!(mac_names(&mut dir).len(), 4);
        }
        other => panic!("{:?}", other),
    }
    match macos::ReadDir::new_no_seek().resume(Err(IoError::Os(5))) {
        macos::ReadStep::Done(Err(err)) => assert_eq!(err.raw_os_error(), Some(5)),
        other => panic!("{:?}", other),
    }
    assert_eq!(macos::CHUNK_SIZE, 32 * 1024);
}

#[test]
fn macos_header_fields() {
    let header = macos::MacDirent::parse(ByteOrder::Little, &mac_record(ByteOrder::Little, 5, 8, b"abc"));
    assert_eq!(
        (header.d_ino, header.d_seekoff, header.d_reclen, header.d_namlen, header.d_type),
        (5, 99, 32, 3, 8)
    );
    let none = macos::MacDirent::default();
    assert_eq!((none.d_ino, none.d_seekoff, none.d_reclen, none.d_namlen, none.d_type), (0, 0, 0, 0, 0));
}

#[test]
fn byte_order_follows_from_a_reading() {
    assert_eq!(order_of_reading(u16::from_le_bytes([1, 0])), ByteOrder::Little);
    assert_eq!(order_of_reading(u16::from_be_bytes([1, 0])), ByteOrder::Big);
}

#[test]
fn macos_chunks_can_have_either_order() {
    for order in [ByteOrder::Little, ByteOrder::Big] {
        let step = match macos::AwaitChunk::new(order).resume(Ok(mac_listing(order))) {
            macos::ReadStep::Read(next) => next,
            other => panic!("{:?}", other),
        };
        match step.resume(Ok(vec![])) {
            macos::ReadStep::Done(Ok(mut dir)) => {
                assert_eq!(dir.next().unwrap().ino, 10);
                assert_eq!(mac_names(&mut dir).len(), 3);
            }
            other => panic!("{:?}", other),
        }
    }
}
