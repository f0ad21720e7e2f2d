//! Errors and text shared by the whole library.

use vstd::prelude::*;

verus! {

/// The character for the decimal digit `d`.
pub open spec fn digit(d: nat) -> char {
    if d == 0 {
        '0'
    } else if d == 1 {
        '1'
    } else if d == 2 {
        '2'
    } else if d == 3 {
        '3'
    } else if d == 4 {
        '4'
    } else if d == 5 {
        '5'
    } else if d == 6 {
        '6'
    } else if d == 7 {
        '7'
    } else if d == 8 {
        '8'
    } else {
        '9'
    }
}

/// `n` in decimal, without leading zeros.
pub open spec fn decimal(n: nat) -> Seq<char>
    decreases n,
{
    if n < 10 {
        seq![digit(n)]
    } else {
        decimal(n / 10).push(digit(n % 10))
    }
}

/// `n` in decimal, with a minus sign if it is negative.
pub open spec fn signed_decimal(n: int) -> Seq<char> {
    if n < 0 {
        seq!['-'] + decimal((-n) as nat)
    } else {
        decimal(n as nat)
    }
}

/// Appends the digit `d` to `out`.
fn push_digit(out: &mut String, d: u64)
    requires
        d < 10,
    ensures
        final(out)@ == old(out)@.push(digit(d as nat)),
{
    proof {
        reveal_strlit("0");
        reveal_strlit("1");
        reveal_strlit("2");
        reveal_strlit("3");
        reveal_strlit("4");
        reveal_strlit("5");
        reveal_strlit("6");
        reveal_strlit("7");
        reveal_strlit("8");
        reveal_strlit("9");
    }
    let text: &str = if d == 0 {
        "0"
    } else if d == 1 {
        "1"
    } else if d == 2 {
        "2"
    } else if d == 3 {
        "3"
    } else if d == 4 {
        "4"
    } else if d == 5 {
        "5"
    } else if d == 6 {
        "6"
    } else if d == 7 {
        "7"
    } else if d == 8 {
        "8"
    } else {
        "9"
    };
    assert(text@ =~= seq![digit(d as nat)]);
    out.append(text);
    assert(out@ =~= old(out)@.push(digit(d as nat)));
}

/// Appends `n` in decimal to `out`.
pub fn push_decimal(out: &mut String, n: u64)
    ensures
        final(out)@ == old(out)@ + decimal(n as nat),
    decreases n,
{
    if n < 10 {
        push_digit(out, n);
        assert(out@ =~= old(out)@ + decimal(n as nat));
    } else {
        push_decimal(out, n / 10);
        push_digit(out, n % 10);
        assert(out@ =~= old(out)@ + decimal(n as nat));
    }
}

/// Appends `n` in decimal to `out`, with a minus sign if it is negative.
pub fn push_signed_decimal(out: &mut String, n: i32)
    ensures
        final(out)@ == old(out)@ + signed_decimal(n as int),
{
    if n < 0 {
        proof {
            reveal_strlit("-");
        }
        out.append("-");
        assert("-"@ =~= seq!['-']);
        push_decimal(out, (-(n as i64)) as u64);
        assert(out@ =~= old(out)@ + signed_decimal(n as int));
    } else {
        push_decimal(out, n as u64);
    }
}

/// How many bytes of `s` come before its first NUL; all of them if it has none.
pub open spec fn c_len(s: Seq<u8>) -> nat
    decreases s.len(),
{
    if s.len() == 0 || s[0] == 0 {
        0
    } else {
        1 + c_len(s.drop_first())
    }
}

/// [`c_len`] is the position of the first NUL, or the length of `s`.
pub proof fn lemma_c_len(s: Seq<u8>)
    ensures
        c_len(s) <= s.len(),
        c_len(s) < s.len() ==> s[c_len(s) as int] == 0,
        forall|i: int| 0 <= i < c_len(s) ==> s[i] != 0,
    decreases s.len(),
{
    if s.len() > 0 && s[0] != 0 {
        let rest = s.drop_first();
        lemma_c_len(rest);
        assert forall|i: int| 0 <= i < c_len(s) implies s[i] != 0 by {
            if i > 0 {
                assert(rest[i - 1] != 0);
            }
        }
    }
}

/// The position that [`lemma_c_len`] describes is the only one.
pub proof fn lemma_c_len_unique(s: Seq<u8>, n: nat)
    requires
        n <= s.len(),
        n < s.len() ==> s[n as int] == 0,
        forall|i: int| 0 <= i < n ==> s[i] != 0,
    ensures
        c_len(s) == n,
{
    lemma_c_len(s);
    if c_len(s) < n {
        assert(s[c_len(s) as int] != 0);
    } else if n < c_len(s) {
        assert(s[n as int] != 0);
    }
}

/// How many bytes of `b` come before its first NUL; all of them if it has none.
pub fn c_length(b: &[u8]) -> (n: usize)
    ensures
        n == c_len(b@),
{
    let mut n: usize = 0;
    while n < b.len() && b[n] != 0
        invariant
            n <= b.len(),
            forall|i: int| 0 <= i < n ==> b[i] != 0,
        decreases b.len() - n,
    {
        n += 1;
    }
    proof {
        lemma_c_len_unique(b@, n as nat);
    }
    n
}

/// The text that `std` makes of bytes, with replacement characters where they are not UTF-8.
pub uninterp spec fn utf8_lossy(bytes: Seq<u8>) -> Seq<char>;

/// Bytes that are UTF-8 are decoded unchanged.
pub open spec fn lossy_keeps_utf8(bytes: Seq<u8>) -> bool {
    vstd::utf8::valid_utf8(bytes) ==> utf8_lossy(bytes) == vstd::utf8::decode_utf8(bytes)
}

/// `String::from_utf8_lossy`.  The contract gives its result a name, and claims that bytes which
/// are UTF-8 are decoded unchanged; it leaves open which characters replace others.
#[verifier::external_body]
pub(crate) fn string_from_utf8_lossy(bytes: &[u8]) -> (text: String)
    ensures
        text@ == utf8_lossy(bytes@),
        vstd::utf8::valid_utf8(bytes@) ==> text@ == vstd::utf8::decode_utf8(bytes@),
{
    String::from_utf8_lossy(bytes).into_owned()
}

/// `std::str::from_utf8`.  The contract claims that it succeeds exactly on UTF-8, and then decodes
/// it.
#[verifier::external_body]
pub(crate) fn str_from_utf8(bytes: &[u8]) -> (text: Option<&str>)
    ensures
        text is Some == vstd::utf8::valid_utf8(bytes@),
        text is Some ==> text->0@ == vstd::utf8::decode_utf8(bytes@),
{
    std::str::from_utf8(bytes).ok()
}

/// An error of an operation on files.
///
/// Text that only the host can render (the description of an OS error number, a path in quotes) is
/// left to the program around this library; the variants hold what such text is made of.
#[derive(Debug)]
pub enum IoError {
    /// The OS reported this error number.
    Os(i32),
    /// An error without a more specific kind, described by the text.
    Other(String),
    /// The operation is not allowed, for the reason that the text gives.
    PermissionDenied(String),
    /// The text to be handed to the OS holds a NUL at this byte; the kind is "invalid data".
    NulInPath(usize),
    /// Bytes that were to end in their only NUL hold one earlier (at the byte given), or none.
    BadTermination(Option<usize>),
    /// `path` is outside the directory `prefix`.
    OutsideDirectory { path: Vec<u8>, prefix: Vec<u8> },
    /// `rel_bytes`, the part of `path` below the shared directory, is not UTF-8.
    NotUtf8 { path: Vec<u8>, rel_bytes: Vec<u8> },
    /// Following `rel_path` from the shared directory did not lead to the inode that it is for.
    NotUnderPath { rel_path: String },
    /// `source` happened while doing what `context` says.
    Context { context: String, source: Box<IoError> },
}

/// What an [`IoError`] says.
pub ghost enum IoErrorView {
    Os(i32),
    Other(Seq<char>),
    PermissionDenied(Seq<char>),
    NulInPath(usize),
    BadTermination(Option<usize>),
    OutsideDirectory { path: Seq<u8>, prefix: Seq<u8> },
    NotUtf8 { path: Seq<u8>, rel_bytes: Seq<u8> },
    NotUnderPath { rel_path: Seq<char> },
    Context { context: Seq<char>, source: Box<IoErrorView> },
}

impl IoError {
    /// What the error says.
    pub open spec fn meaning(self) -> IoErrorView
        decreases self,
    {
        match self {
            IoError::Os(code) => IoErrorView::Os(code),
            IoError::Other(text) => IoErrorView::Other(text@),
            IoError::PermissionDenied(text) => IoErrorView::PermissionDenied(text@),
            IoError::NulInPath(at) => IoErrorView::NulInPath(at),
            IoError::BadTermination(at) => IoErrorView::BadTermination(at),
            IoError::OutsideDirectory { path, prefix } => IoErrorView::OutsideDirectory {
                path: path@,
                prefix: prefix@,
            },
            IoError::NotUtf8 { path, rel_bytes } => IoErrorView::NotUtf8 {
                path: path@,
                rel_bytes: rel_bytes@,
            },
            IoError::NotUnderPath { rel_path } => IoErrorView::NotUnderPath { rel_path: rel_path@ },
            IoError::Context { context, source } => IoErrorView::Context {
                context: context@,
                source: Box::new(source.meaning()),
            },
        }
    }

    /// The OS error number, if the error is one as the OS reported it.
    pub fn raw_os_error(&self) -> (code: Option<i32>)
        ensures
            code == (match self@ {
                IoErrorView::Os(code) => Some(code),
                _ => None,
            }),
    {
        match self {
            IoError::Os(code) => Some(*code),
            _ => None,
        }
    }

    /// The same error, with a note on what was being done.  The OS error number is no longer
    /// available from the result.
    pub fn context(self, context: &str) -> (err: IoError)
        ensures
            err@ == in_context(context@, self@),
    {
        IoError::Context { context: context.to_owned(), source: Box::new(self) }
    }
}

impl Clone for IoError {
    fn clone(&self) -> (err: IoError)
        ensures
            err@ == self@,
        decreases self,
    {
        match self {
            IoError::Os(code) => IoError::Os(*code),
            IoError::Other(text) => IoError::Other(text.clone()),
            IoError::PermissionDenied(text) => IoError::PermissionDenied(text.clone()),
            IoError::NulInPath(at) => IoError::NulInPath(*at),
            IoError::BadTermination(at) => IoError::BadTermination(*at),
            IoError::OutsideDirectory { path, prefix } => IoError::OutsideDirectory {
                path: vstd::slice::slice_to_vec(path.as_slice()),
                prefix: vstd::slice::slice_to_vec(prefix.as_slice()),
            },
            IoError::NotUtf8 { path, rel_bytes } => IoError::NotUtf8 {
                path: vstd::slice::slice_to_vec(path.as_slice()),
                rel_bytes: vstd::slice::slice_to_vec(rel_bytes.as_slice()),
            },
            IoError::NotUnderPath { rel_path } => IoError::NotUnderPath {
                rel_path: rel_path.clone(),
            },
            IoError::Context { context, source } => IoError::Context {
                context: context.clone(),
                source: Box::new((&**source).clone()),
            },
        }
    }
}

impl View for IoError {
    type V = IoErrorView;

    open spec fn view(&self) -> IoErrorView {
        self.meaning()
    }
}

/// `source`, with a note on what was being done.
pub open spec fn in_context(context: Seq<char>, source: IoErrorView) -> IoErrorView {
    IoErrorView::Context { context, source: Box::new(source) }
}

/// An error that is described by `text` alone.
pub fn other_io_error(text: &str) -> (err: IoError)
    ensures
        err@ == IoErrorView::Other(text@),
{
    IoError::Other(text.to_owned())
}

} // verus!
