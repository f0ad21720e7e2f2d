//! Numbers and errors as text.

use vstd::prelude::*;

use crate::passthrough::util::{proc_self_fd_name, FdPathError};
use crate::util::{other_io_error, push_decimal, push_signed_decimal, IoError};
use crate::vhost_user::Error;

verus! {

/// The number that decimal digits stand for.
pub open spec fn number_of(digits: Seq<char>) -> int
    decreases digits.len(),
{
    if digits.len() == 0 {
        0
    } else {
        10 * number_of(digits.drop_last()) + (digits.last() as int - '0' as int)
    }
}

/// `text` is the decimal number `n`: digits that stand for it, the first of which is no zero, except
/// if it is the only one.
pub open spec fn is_decimal(text: Seq<char>, n: int) -> bool {
    &&& text.len() > 0
    &&& forall|i: int| 0 <= i < text.len() ==> '0' as int <= #[trigger] text[i] as int <= '9' as int
    &&& text[0] == '0' ==> text.len() == 1
    &&& number_of(text) == n
}

/// The decimal digits of a number stand for it.
pub proof fn lemma_decimal(n: nat)
    ensures
        is_decimal(crate::util::decimal(n), n as int),
        n > 0 ==> crate::util::decimal(n)[0] != '0',
    decreases n,
{
    let text = crate::util::decimal(n);
    reveal_with_fuel(number_of, 2);
    if n < 10 {
        assert(text.drop_last() =~= seq![]);
    } else {
        lemma_decimal(n / 10);
        assert(text.drop_last() =~= crate::util::decimal(n / 10));
    }
}

/// A number has one decimal form only.
pub proof fn lemma_is_decimal(text: Seq<char>, n: nat)
    requires
        is_decimal(text, n as int),
    ensures
        text == crate::util::decimal(n),
    decreases text.len(),
{
    let front = text.drop_last();
    let last = text.last() as int - '0' as int;
    assert('0' as int <= text[text.len() - 1] as int <= '9' as int);
    if text.len() == 1 {
        reveal_with_fuel(number_of, 2);
        assert(n == last);
        assert(text =~= crate::util::decimal(n));
    } else {
        assert(front[0] == text[0]);
        assert forall|i: int| 0 <= i < front.len() implies '0' as int <= #[trigger] front[i] as int
            <= '9' as int by {
            assert(front[i] == text[i]);
        }
        lemma_number_is_positive(front);
        assert(n == 10 * number_of(front) + last);
        lemma_is_decimal(front, n / 10);
        assert(text =~= crate::util::decimal(n / 10).push(text.last()));
        assert(text =~= crate::util::decimal(n));
    }
}

/// Digits that do not start with a zero stand for a positive number.
proof fn lemma_number_is_positive(digits: Seq<char>)
    requires
        digits.len() > 0,
        digits[0] != '0',
        forall|i: int|
            0 <= i < digits.len() ==> '0' as int <= #[trigger] digits[i] as int <= '9' as int,
    ensures
        number_of(digits) > 0,
    decreases digits.len(),
{
    let front = digits.drop_last();
    assert('0' as int <= digits[digits.len() - 1] as int);
    if digits.len() == 1 {
        reveal_with_fuel(number_of, 2);
        assert('0' as int <= digits[0] as int);
    } else {
        assert(front[0] == digits[0]);
        assert forall|i: int| 0 <= i < front.len() implies '0' as int <= #[trigger] front[i] as int
            <= '9' as int by {
            assert(front[i] == digits[i]);
        }
        lemma_number_is_positive(front);
    }
}

/// What is appended for a number are the decimal digits that stand for it.
pub proof fn law_decimal_is_read_back(out: &mut String, n: u64, appended: Seq<char>)
    requires
        call_ensures(push_decimal, (out, n), ()),
        final(out)@ == old(out)@ + appended,
    ensures
        is_decimal(appended, n as int),
{
    lemma_decimal(n as nat);
    let both = old(out)@ + crate::util::decimal(n as nat);
    assert(both.skip(old(out)@.len() as int) =~= crate::util::decimal(n as nat));
    assert((old(out)@ + appended).skip(old(out)@.len() as int) =~= appended);
}

/// What is appended for a number are the decimal digits that stand for it, behind a minus sign if it
/// is negative.
pub proof fn law_signed_decimal_is_read_back(out: &mut String, n: i32, appended: Seq<char>)
    requires
        call_ensures(push_signed_decimal, (out, n), ()),
        final(out)@ == old(out)@ + appended,
    ensures
        n >= 0 ==> is_decimal(appended, n as int),
        n < 0 ==> appended.len() > 0 && appended[0] == '-' && is_decimal(
            appended.drop_first(),
            -n as int,
        ),
{
    let text = crate::util::signed_decimal(n as int);
    assert((old(out)@ + text).skip(old(out)@.len() as int) =~= text);
    assert((old(out)@ + appended).skip(old(out)@.len() as int) =~= appended);
    if n >= 0 {
        lemma_decimal(n as nat);
    } else {
        lemma_decimal((-n) as nat);
        assert(appended.drop_first() =~= crate::util::decimal((-n) as nat));
    }
}

/// A file descriptor is named by its number.
pub proof fn law_descriptors_are_named_by_number(fd: i32, name: String)
    requires
        call_ensures(proc_self_fd_name, (fd,), name),
    ensures
        fd >= 0 ==> is_decimal(name@, fd as int),
        fd < 0 ==> name@.len() > 0 && name@[0] == '-' && is_decimal(
            name@.drop_first(),
            -fd as int,
        ),
{
    if fd >= 0 {
        lemma_decimal(fd as nat);
    } else {
        lemma_decimal((-fd) as nat);
        assert(name@.drop_first() =~= crate::util::decimal((-fd) as nat));
    }
}

/// As a general error, an error of looking up a path says what it says as text, and keeps the error
/// that it contains.
pub proof fn law_path_error_texts_agree(
    err: FdPathError,
    cause: &str,
    text: String,
    io_err: IoError,
)
    requires
        call_ensures(FdPathError::to_text, (&err, cause), text),
        call_ensures(<IoError as From<FdPathError>>::from, (err,), io_err),
    ensures
        match err {
            FdPathError::ReadLink(source) => io_err matches IoError::Context {
                context,
                source: kept,
            } && context@ == "readlink"@ && kept@ == source@ && text@ == "readlink: "@ + cause@,
            FdPathError::TooLong => io_err matches IoError::Other(t) && t@ == text@ && text@
                == "Path returned from readlink is too long"@,
            FdPathError::InvalidCString(source) => io_err matches IoError::Context {
                context,
                source: kept,
            } && context@ == "readlink returned invalid path"@ && kept@ == source@ && text@
                == "readlink returned invalid path: "@ + cause@,
            FdPathError::NotAFile(path) => io_err matches IoError::Other(t) && t@ == text@ && text@
                == "Not a file ("@ + path@ + ")"@,
            FdPathError::Deleted(path) => io_err matches IoError::Other(t) && t@ == text@ && text@
                == "Inode deleted ("@ + path@ + ")"@,
        },
{
    reveal_strlit("Not a file");
    reveal_strlit("Not a file (");
    reveal_strlit("Inode deleted");
    reveal_strlit("Inode deleted (");
    reveal_strlit(" (");
    assert("Not a file"@ + " ("@ =~= "Not a file ("@);
    assert("Inode deleted"@ + " ("@ =~= "Inode deleted ("@);
}

/// An error with a note on what was being done is the note and the error, and has no error number;
/// only what the OS reported has.
pub proof fn law_context_hides_error_number(
    err: IoError,
    note: &str,
    noted: IoError,
    code: Option<i32>,
    noted_code: Option<i32>,
)
    requires
        call_ensures(IoError::context, (err, note), noted),
        call_ensures(IoError::raw_os_error, (&err,), code),
        call_ensures(IoError::raw_os_error, (&noted,), noted_code),
    ensures
        noted matches IoError::Context { context, source } && context@ == note@ && source@ == err@,
        noted_code is None,
        code == (match err {
            IoError::Os(number) => Some(number),
            _ => None,
        }),
{
}

/// An error that is described by a text alone holds that text.
pub proof fn law_other_errors_hold_their_text(text: &str, err: IoError)
    requires
        call_ensures(other_io_error, (text,), err),
    ensures
        err matches IoError::Other(t) && t@ == text@,
{
}

/// The clone of an error says the same.
pub proof fn law_cloned_errors_say_the_same(err: IoError, copy: IoError)
    requires
        call_ensures(<IoError as Clone>::clone, (&err,), copy),
    ensures
        match err {
            IoError::Os(code) => copy == err,
            IoError::Other(text) => copy matches IoError::Other(t) && t@ == text@,
            IoError::PermissionDenied(text) => copy matches IoError::PermissionDenied(t) && t@
                == text@,
            IoError::NulInPath(_) => copy == err,
            IoError::BadTermination(_) => copy == err,
            IoError::OutsideDirectory { path, prefix } => copy matches IoError::OutsideDirectory {
                path: p,
                prefix: d,
            } && p@ == path@ && d@ == prefix@,
            IoError::NotUtf8 { path, rel_bytes } => copy matches IoError::NotUtf8 {
                path: p,
                rel_bytes: r,
            } && p@ == path@ && r@ == rel_bytes@,
            IoError::NotUnderPath { rel_path } => copy matches IoError::NotUnderPath {
                rel_path: r,
            } && r@ == rel_path@,
            IoError::Context { context, source } => copy matches IoError::Context {
                context: c,
                source: s,
            } && c@ == context@ && s@ == source@,
        },
{
}

/// An error of the vhost-user front is named, and shows its cause whole.
pub proof fn law_vhost_user_errors_show_their_cause(err: Error, text: String, io_err: IoError)
    requires
        call_ensures(Error::to_text, (&err,), text),
        call_ensures(<IoError as From<Error>>::from, (err,), io_err),
    ensures
        io_err matches IoError::Other(t) && t@ == text@,
        match err {
            Error::CreateKillEventFd(cause) => text@ == "CreateKillEventFd("@ + cause.debug@ + ")"@,
            Error::CreateThreadPool(cause) => text@ == "CreateThreadPool("@ + cause.debug@ + ")"@,
            Error::HandleEventNotEpollIn => text@ == "HandleEventNotEpollIn"@,
            Error::HandleEventUnknownEvent => text@ == "HandleEventUnknownEvent"@,
            Error::IterateQueue => text@ == "IterateQueue"@,
            Error::NoMemoryConfigured => text@ == "NoMemoryConfigured"@,
            Error::ProcessQueue(cause) => text@ == "ProcessQueue("@ + cause.debug@ + ")"@,
            Error::QueueReader(cause) => text@ == "QueueReader("@ + cause.debug@ + ")"@,
            Error::QueueWriter(cause) => text@ == "QueueWriter("@ + cause.debug@ + ")"@,
            Error::UnshareCloneFs(cause) => text@ == "The unshare(CLONE_FS) syscall failed with '"@
                + cause.display@
                + "'. If running in a container please check that the container runtime seccomp policy allows unshare."@,
            Error::InvalidTag => text@
                == "The tag may not be empty or longer than 36 bytes (encoded as UTF-8)."@,
        },
{
    reveal_strlit("CreateKillEventFd");
    reveal_strlit("CreateKillEventFd(");
    reveal_strlit("CreateThreadPool");
    reveal_strlit("CreateThreadPool(");
    reveal_strlit("ProcessQueue");
    reveal_strlit("ProcessQueue(");
    reveal_strlit("QueueReader");
    reveal_strlit("QueueReader(");
    reveal_strlit("QueueWriter");
    reveal_strlit("QueueWriter(");
    reveal_strlit("(");
    assert("CreateKillEventFd"@ + "("@ =~= "CreateKillEventFd("@);
    assert("CreateThreadPool"@ + "("@ =~= "CreateThreadPool("@);
    assert("ProcessQueue"@ + "("@ =~= "ProcessQueue("@);
    assert("QueueReader"@ + "("@ =~= "QueueReader("@);
    assert("QueueWriter"@ + "("@ =~= "QueueWriter("@);
    if err is InvalidTag {
        reveal_strlit("The tag may not be empty or longer than ");
        reveal_strlit(" bytes (encoded as UTF-8).");
        reveal_strlit("The tag may not be empty or longer than 36 bytes (encoded as UTF-8).");
        reveal_with_fuel(crate::util::decimal, 3);
        assert(crate::util::decimal(36) =~= seq!['3', '6']);
        assert(text@ =~= "The tag may not be empty or longer than 36 bytes (encoded as UTF-8)."@);
    }
}

} // verus!
