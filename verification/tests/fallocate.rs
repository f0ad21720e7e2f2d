use virtiofsd::passthrough::macos::{
    macos_emulate_fallocate, Fallocate, EOPNOTSUPP, F_ALLOCATEALL, F_ALLOCATECONTIG, F_PEOFPOSMODE,
};
use virtiofsd::util::IoError;

/// Flags, position mode, offset and length of a request to set bytes aside.
type Request = (u32, i32, i64, i64);

/// A request for `length` bytes past the end of the file.
fn past_end(flags: u32, length: i64) -> Request {
    (flags, F_PEOFPOSMODE, 0, length)
}

/// A file of which only the size matters.
struct SizedFile {
    size: u64,
    /// Whether bytes can be set aside contiguously, or at all.
    contiguous: bool,
    scattered: bool,
    /// What was asked to be set aside.
    requests: Vec<Request>,
}

fn file_of(size: u64) -> SizedFile {
    SizedFile { size, contiguous: true, scattered: true, requests: vec![] }
}

fn fallocate(f: &mut SizedFile, mode: u32, offset: u64, length: u64) -> Result<(), IoError> {
    let mut step = macos_emulate_fallocate(mode, offset, length);
    loop {
        step = match step {
            Fallocate::Stat(s) => s.resume(Ok(f.size)),
            Fallocate::Preallocate(s) => {
                f.requests.push((s.fst_flags, s.fst_posmode, s.fst_offset, s.fst_length));
                // Relative to the end of the file, no offset but zero is valid.
                let valid = s.fst_posmode == F_PEOFPOSMODE && s.fst_offset == 0;
                let succeeded = valid
                    && if s.fst_flags == F_ALLOCATECONTIG { f.contiguous } else { f.scattered };
                s.resume(succeeded)
            }
            Fallocate::Truncate(s) => {
                if s.length < 0 {
                    s.resume(Err(IoError::Os(22)))
                } else {
                    f.size = s.length as u64;
                    s.resume(Ok(()))
                }
            }
            Fallocate::Done(result) => return result,
        }
    }
}

#[test]
fn fallocate_grows_empty_file() {
    let mut f = file_of(0);
    fallocate(&mut f, 0, 0, 1024).unwrap();
    assert_eq!(f.size, 1024);
}

#[test]
fn fallocate_grows_at_nonzero_offset() {
    let mut f = file_of(0);
    fallocate(&mut f, 0, 4096, 8192).unwrap();
    assert_eq!(f.size, 4096 + 8192);
    assert_eq!(f.requests, vec![past_end(F_ALLOCATECONTIG, 4096 + 8192)]);
}

#[test]
fn fallocate_does_not_shrink_when_target_smaller() {
    let mut f = file_of(10_000);
    assert_eq!(f.size, 10_000);
    fallocate(&mut f, 0, 0, 4096).unwrap();
    assert_eq!(f.size, 10_000);
}

#[test]
fn fallocate_extends_only_to_target() {
    let mut f = file_of(2000);
    fallocate(&mut f, 0, 1500, 1000).unwrap();
    assert_eq!(f.size, 2500);
}

#[test]
fn fallocate_rejects_nonzero_mode_with_eopnotsupp() {
    let mut f = file_of(0);
    for mode in [1u32, 2, 3, 8, 16] {
        let err = fallocate(&mut f, mode, 0, 1024).unwrap_err();
        assert_eq!(
            err.raw_os_error(),
            Some(EOPNOTSUPP),
            "mode {mode} must reject with EOPNOTSUPP"
        );
    }
    assert_eq!(EOPNOTSUPP, 102);
}

#[test]
fn fallocate_zero_length_is_noop() {
    let mut f = file_of(100);
    fallocate(&mut f, 0, 0, 0).unwrap();
    assert_eq!(f.size, 100);
}

#[test]
fn fallocate_asks_for_bytes_past_the_end() {
    let mut f = file_of(2000);
    fallocate(&mut f, 0, 1500, 1000).unwrap();
    assert_eq!(f.requests, vec![past_end(F_ALLOCATECONTIG, 500)]);
}

#[test]
fn fallocate_ignores_failure_to_set_bytes_aside() {
    let mut f = file_of(10);
    f.contiguous = false;
    f.scattered = false;
    fallocate(&mut f, 0, 0, 30).unwrap();
    assert_eq!(f.requests, vec![past_end(F_ALLOCATECONTIG, 20), past_end(F_ALLOCATEALL, 20)]);
    assert_eq!(f.size, 30);
}

#[test]
fn fallocate_reports_failure_to_get_the_size() {
    match macos_emulate_fallocate(0, 0, 1) {
        Fallocate::Stat(s) => match s.resume(Err(IoError::Os(9))) {
            Fallocate::Done(Err(err)) => assert_eq!(err.raw_os_error(), Some(9)),
            other => panic!("{:?}", other),
        },
        other => panic!("{:?}", other),
    }
}

#[test]
fn fallocate_saturates() {
    let mut f = file_of(0);
    let err = fallocate(&mut f, 0, u64::MAX, 2).unwrap_err();
    assert_eq!(err.raw_os_error(), Some(22));
    assert_eq!(f.requests, vec![past_end(F_ALLOCATECONTIG, -1)]);
}

#[test]
fn preallocation_numbers_match_the_platform() {
    assert_eq!((F_ALLOCATECONTIG, F_ALLOCATEALL, F_PEOFPOSMODE), (2, 4, 3));
}
