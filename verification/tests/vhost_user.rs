use virtiofsd::util::IoError;
use virtiofsd::vhost_user::{Cause, Error, MAX_TAG_LEN};

fn cause() -> Cause {
    Cause { display: "no".to_string(), debug: "No { code: 1 }".to_string() }
}

#[test]
fn errors_have_texts() {
    assert_eq!(
        Error::UnshareCloneFs(cause()).to_text(),
        "The unshare(CLONE_FS) syscall failed with 'no'. If running in a container please check \
         that the container runtime seccomp policy allows unshare."
    );
    assert_eq!(
        Error::InvalidTag.to_text(),
        "The tag may not be empty or longer than 36 bytes (encoded as UTF-8)."
    );
    assert_eq!(MAX_TAG_LEN, 36);
}

#[test]
fn other_errors_are_named() {
    assert_eq!(Error::HandleEventNotEpollIn.to_text(), "HandleEventNotEpollIn");
    assert_eq!(Error::HandleEventUnknownEvent.to_text(), "HandleEventUnknownEvent");
    assert_eq!(Error::IterateQueue.to_text(), "IterateQueue");
    assert_eq!(Error::NoMemoryConfigured.to_text(), "NoMemoryConfigured");
    assert_eq!(Error::CreateKillEventFd(cause()).to_text(), "CreateKillEventFd(No { code: 1 })");
    assert_eq!(Error::CreateThreadPool(cause()).to_text(), "CreateThreadPool(No { code: 1 })");
    assert_eq!(Error::ProcessQueue(cause()).to_text(), "ProcessQueue(No { code: 1 })");
    assert_eq!(Error::QueueReader(cause()).to_text(), "QueueReader(No { code: 1 })");
    assert_eq!(Error::QueueWriter(cause()).to_text(), "QueueWriter(No { code: 1 })");
}

#[test]
fn errors_become_general_ones() {
    match IoError::from(Error::IterateQueue) {
        IoError::Other(text) => assert_eq!(text, "IterateQueue"),
        other => panic!("{:?}", other),
    }
}
