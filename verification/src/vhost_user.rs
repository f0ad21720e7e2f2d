//! Errors of the vhost-user front of the server.

use vstd::prelude::*;

use crate::util::{IoError, IoErrorView};

verus! {

/// The maximum length of the tag being used.
pub const MAX_TAG_LEN: usize = 36;

/// An error of another part of the server, by the texts that it has for users and for developers.
#[derive(Debug)]
pub struct Cause {
    /// The text for users.
    pub display: String,
    /// The text for developers.
    pub debug: String,
}

/// An error of the vhost-user front.
#[derive(Debug)]
pub enum Error {
    /// Failed to create kill eventfd.
    CreateKillEventFd(Cause),
    /// Failed to create thread pool.
    CreateThreadPool(Cause),
    /// Failed to handle event other than input event.
    HandleEventNotEpollIn,
    /// Failed to handle unknown event.
    HandleEventUnknownEvent,
    /// Iterating through the queue failed.
    IterateQueue,
    /// No memory configured.
    NoMemoryConfigured,
    /// Processing queue failed.
    ProcessQueue(Cause),
    /// Creating a queue reader failed.
    QueueReader(Cause),
    /// Creating a queue writer failed.
    QueueWriter(Cause),
    /// The unshare(CLONE_FS) call failed.
    UnshareCloneFs(Cause),
    /// Invalid tag name
    InvalidTag,
}

/// `name` with the developers' text of the cause in brackets behind it.
pub open spec fn name_with_cause(name: Seq<char>, cause: Cause) -> Seq<char> {
    name + "("@ + cause.debug@ + ")"@
}

/// The error as text.
pub open spec fn error_text(err: Error) -> Seq<char> {
    match err {
        Error::UnshareCloneFs(cause) => "The unshare(CLONE_FS) syscall failed with '"@
            + cause.display@
            + "'. If running in a container please check that the container runtime seccomp policy allows unshare."@,
        Error::InvalidTag => "The tag may not be empty or longer than "@ + crate::util::decimal(
            MAX_TAG_LEN as nat,
        ) + " bytes (encoded as UTF-8)."@,
        Error::CreateKillEventFd(cause) => name_with_cause("CreateKillEventFd"@, cause),
        Error::CreateThreadPool(cause) => name_with_cause("CreateThreadPool"@, cause),
        Error::HandleEventNotEpollIn => "HandleEventNotEpollIn"@,
        Error::HandleEventUnknownEvent => "HandleEventUnknownEvent"@,
        Error::IterateQueue => "IterateQueue"@,
        Error::NoMemoryConfigured => "NoMemoryConfigured"@,
        Error::ProcessQueue(cause) => name_with_cause("ProcessQueue"@, cause),
        Error::QueueReader(cause) => name_with_cause("QueueReader"@, cause),
        Error::QueueWriter(cause) => name_with_cause("QueueWriter"@, cause),
    }
}

/// `name` with the developers' text of the cause in brackets behind it.
fn with_cause(name: &str, cause: &Cause) -> (text: String)
    ensures
        text@ == name_with_cause(name@, *cause),
{
    let mut text: String = name.to_owned();
    text.append("(");
    text.append(cause.debug.as_str());
    text.append(")");
    text
}

impl Error {
    /// The error as text.
    pub fn to_text(&self) -> (text: String)
        ensures
            text@ == error_text(*self),
    {
        match self {
            Error::UnshareCloneFs(cause) => {
                let mut text: String = "The unshare(CLONE_FS) syscall failed with '".to_owned();
                text.append(cause.display.as_str());
                text.append(
                    "'. If running in a container please check that the container runtime seccomp policy allows unshare.",
                );
                text
            },
            Error::InvalidTag => {
                let mut text: String = "The tag may not be empty or longer than ".to_owned();
                crate::util::push_decimal(&mut text, MAX_TAG_LEN as u64);
                text.append(" bytes (encoded as UTF-8).");
                text
            },
            Error::CreateKillEventFd(cause) => with_cause("CreateKillEventFd", cause),
            Error::CreateThreadPool(cause) => with_cause("CreateThreadPool", cause),
            Error::HandleEventNotEpollIn => "HandleEventNotEpollIn".to_owned(),
            Error::HandleEventUnknownEvent => "HandleEventUnknownEvent".to_owned(),
            Error::IterateQueue => "IterateQueue".to_owned(),
            Error::NoMemoryConfigured => "NoMemoryConfigured".to_owned(),
            Error::ProcessQueue(cause) => with_cause("ProcessQueue", cause),
            Error::QueueReader(cause) => with_cause("QueueReader", cause),
            Error::QueueWriter(cause) => with_cause("QueueWriter", cause),
        }
    }
}

impl vstd::std_specs::convert::FromSpecImpl<Error> for IoError {
    open spec fn obeys_from_spec() -> bool {
        false
    }

    open spec fn from_spec(err: Error) -> IoError {
        arbitrary()
    }
}

impl From<Error> for IoError {
    /// The error as a general one.
    fn from(err: Error) -> (io_err: IoError)
        ensures
            io_err@ == IoErrorView::Other(error_text(err)),
    {
        IoError::Other(err.to_text())
    }
}

} // verus!
