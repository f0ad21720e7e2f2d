//! Getting inodes' paths from /proc/self/fd for migration.
//!
//! The paths that were collected for a migration are checked, and looked up again where they are
//! found to be incorrect.  What only the host can do (reading a link, looking a name up in a
//! directory, checking that an inode is where it is said to be) is asked of it step by step: a
//! [`Walk`] says what is needed next, and goes on with the answer.

use vstd::prelude::*;

use crate::passthrough::device_state::preserialization::{
    InfoState, InodeLocation, InodeMigrationInfo, InodePath, LocationState, SerializableFileHandle,
};
use crate::passthrough::inode_store::{
    InodeData, InodeError, InodeErrorView, InodeState, ROOT_ID,
};
use crate::passthrough::util::relative_path;
use crate::passthrough::PassthroughFs;
use crate::util::{other_io_error, str_from_utf8, IoError, IoErrorView};

verus! {

/// How many characters of `s` come before its first slash; all of them if it has none.
pub open spec fn until_slash(s: Seq<char>) -> nat
    decreases s.len(),
{
    if s.len() == 0 || s[0] == '/' {
        0
    } else {
        1 + until_slash(s.drop_first())
    }
}

/// The names along a relative path (or the rest of one, if it is not the start): what is between
/// the slashes, without empty names, and without `.`, except at the start.
pub open spec fn path_elements(s: Seq<char>, at_start: bool) -> Seq<Seq<char>>
    decreases s.len(),
{
    if s.len() == 0 {
        seq![]
    } else {
        let n = until_slash(s);
        let name = s.take(n as int);
        let rest = if n < s.len() {
            s.skip(n as int + 1)
        } else {
            seq![]
        };
        if name.len() == 0 || (name == seq!['.'] && !at_start) {
            path_elements(rest, false)
        } else {
            seq![name] + path_elements(rest, false)
        }
    }
}

/// [`until_slash`] is the position of the first slash, or the length of `s`.
pub proof fn lemma_until_slash(s: Seq<char>, n: nat)
    requires
        n <= s.len(),
        n < s.len() ==> s[n as int] == '/',
        forall|i: int| 0 <= i < n ==> s[i] != '/',
    ensures
        until_slash(s) == n,
    decreases s.len(),
{
    if n > 0 {
        let rest = s.drop_first();
        assert forall|i: int| 0 <= i < n - 1 implies rest[i] != '/' by {
            assert(rest[i] == s[i + 1]);
        }
        lemma_until_slash(rest, (n - 1) as nat);
    }
}

/// The texts of strings.
pub open spec fn texts(strings: Seq<String>) -> Seq<Seq<char>> {
    strings.map_values(|s: String| s@)
}

/// The names along a relative path.
pub fn split_path(text: &str) -> (elements: Vec<String>)
    ensures
        texts(elements@) == path_elements(text@, true),
{
    let mut elements: Vec<String> = Vec::new();
    let len: usize = text.unicode_len();
    let mut start: usize = 0;
    assert(text@.skip(0) =~= text@);
    assert(texts(elements@) + path_elements(text@, true) =~= path_elements(text@, true));
    while start < len
        invariant
            start <= len,
            len == text@.len(),
            texts(elements@) + path_elements(text@.skip(start as int), start == 0)
                == path_elements(text@, true),
        decreases len - start,
    {
        let ghost rest = text@.skip(start as int);
        let mut end: usize = start;
        while end < len && text.get_char(end) != '/'
            invariant
                start <= end <= len,
                len == text@.len(),
                forall|i: int| start <= i < end ==> text@[i] != '/',
            decreases len - end,
        {
            end += 1;
        }
        let name: String = text.substring_char(start, end).to_owned();
        proof {
            lemma_until_slash(rest, (end - start) as nat);
            assert(name@ =~= rest.take(end - start));
            if end < len {
                assert(text@.skip(end + 1) =~= rest.skip(end - start + 1));
            } else {
                assert(text@.skip(len as int) =~= seq![]);
            }
            reveal_strlit(".");
            assert("."@ =~= seq!['.']);
        }
        let is_dot: bool = name == ".".to_owned();
        let ghost before = elements@;
        if end > start && (start == 0 || !is_dot) {
            elements.push(name);
            proof {
                assert(texts(elements@) =~= texts(before).push(name@));
                let tail = if end < len {
                    text@.skip(end + 1)
                } else {
                    seq![]
                };
                assert(texts(before) + (seq![name@] + path_elements(tail, false)) =~= texts(
                    elements@,
                ) + path_elements(tail, false));
            }
        }
        start = if end < len {
            end + 1
        } else {
            len
        };
    }
    assert(text@.skip(len as int) =~= seq![]);
    assert(texts(elements@) + path_elements(text@.skip(len as int), start == 0) =~= texts(
        elements@,
    ));
    elements
}

/// A walk over the inodes, apart from what it is waiting for.
pub ghost struct WalkState {
    /// What is known of the inodes.
    pub inodes: Seq<InodeState>,
    /// The path of the shared directory.
    pub shared_dir: Seq<u8>,
    /// How many inodes there were when the walk began.
    pub end: nat,
    /// The errors that were encountered, each with the inode that was being looked up.
    pub errors: Seq<InodeErrorView>,
}

/// A path that is being followed from the root of the shared directory.
pub ghost struct TrailState {
    /// The path.
    pub rel_path: Seq<char>,
    /// The names along it.
    pub elements: Seq<Seq<char>>,
    /// How many names have been looked up.
    pub next: nat,
    /// The inode that they lead to.
    pub parent: u64,
}

/// A walk, and what it is waiting for.
pub ghost enum WalkView {
    /// The path of the shared directory.
    RootPath { inodes: Seq<InodeState> },
    /// Whether the inode at `pos` is where it is said to be.
    Presence { state: WalkState, pos: nat },
    /// The path of the inode at `pos`.
    Path { state: WalkState, pos: nat },
    /// The inode under the next name along a path of the inode at `pos`.
    Entry { state: WalkState, pos: nat, trail: TrailState },
    /// The file handle, if one is needed, of the inode at `entry`, which the next name leads to.
    Info { state: WalkState, pos: nat, trail: TrailState, entry: nat },
    /// Nothing: the walk is over.
    Done {
        inodes: Seq<InodeState>,
        result: Result<(), IoErrorView>,
        errors: Seq<InodeErrorView>,
    },
}

/// What a walk begins with.  Without a root it is over at once: that is fine if and only if there
/// are no inodes at all.
pub open spec fn begin(inodes: Seq<InodeState>) -> WalkView {
    if crate::passthrough::inode_store::knows(inodes, ROOT_ID) {
        WalkView::RootPath { inodes }
    } else if inodes.len() == 0 {
        WalkView::Done { inodes, result: Ok(()), errors: seq![] }
    } else {
        WalkView::Done {
            inodes,
            result: Err(IoErrorView::Other("Root node not found"@)),
            errors: seq![],
        }
    }
}

/// The first of the errors, if there is one.
pub open spec fn first_error(errors: Seq<InodeErrorView>) -> Option<IoErrorView> {
    if errors.len() > 0 {
        Some(errors[0].error)
    } else {
        None
    }
}

/// How the walk goes on with the inode at `pos`: one without a location is looked up, that of any
/// other is checked.  Behind the last one, the walk is over, with the first error as its result.
pub open spec fn visit(state: WalkState, pos: nat) -> WalkView {
    if pos >= state.end {
        WalkView::Done {
            inodes: state.inodes,
            result: match first_error(state.errors) {
                Some(err) => Err(err),
                None => Ok(()),
            },
            errors: state.errors,
        }
    } else if state.inodes[pos as int].info is None {
        WalkView::Path { state, pos }
    } else {
        WalkView::Presence { state, pos }
    }
}

/// The walk goes on behind the inode at `pos`, for which `err` was encountered.
pub open spec fn visit_after_error(state: WalkState, pos: nat, err: IoErrorView) -> WalkView {
    let failed = InodeErrorView { inode: state.inodes[pos as int].inode, error: err };
    visit(WalkState { errors: state.errors.push(failed), ..state }, pos + 1)
}

/// How the walk goes on with the path of the shared directory, or the error that reading it gave.
pub open spec fn after_root_path(
    inodes: Seq<InodeState>,
    path: Result<Seq<u8>, IoErrorView>,
) -> WalkView {
    match path {
        Err(err) => WalkView::Done {
            inodes,
            result: Err(
                crate::util::in_context("Failed to get shared directory's path"@, err),
            ),
            errors: seq![],
        },
        Ok(shared_dir) => visit(
            WalkState { inodes, shared_dir, end: inodes.len(), errors: seq![] },
            0,
        ),
    }
}

/// The inodes, with the location of the one at `pos` forgotten.
pub open spec fn forget_location(inodes: Seq<InodeState>, pos: nat) -> Seq<InodeState> {
    inodes.update(
        pos as int,
        crate::passthrough::inode_store::without_info(inodes[pos as int]),
    )
}

/// How the walk goes on, given whether the inode at `pos` is where it is said to be.  A location
/// that is wrong is forgotten unconditionally, regardless of whether a better one can be found.
pub open spec fn after_presence(state: WalkState, pos: nat, present: bool) -> WalkView {
    if present {
        visit(state, pos + 1)
    } else {
        WalkView::Path {
            state: WalkState { inodes: forget_location(state.inodes, pos), ..state },
            pos,
        }
    }
}

/// How the walk goes on along a path: to the next name, or, at the end, to the next inode.  The
/// path has to lead to the inode that it is for.
pub open spec fn follow(state: WalkState, pos: nat, trail: TrailState) -> WalkView {
    if trail.next < trail.elements.len() {
        WalkView::Entry { state, pos, trail }
    } else if trail.parent == state.inodes[pos as int].inode {
        visit(state, pos + 1)
    } else {
        visit_after_error(
            state,
            pos,
            IoErrorView::NotUnderPath { rel_path: trail.rel_path },
        )
    }
}

/// How the walk goes on with the path of the inode at `pos`, or the error that reading it gave.
pub open spec fn after_path(
    state: WalkState,
    pos: nat,
    path: Result<Seq<u8>, IoErrorView>,
) -> WalkView {
    match path {
        Err(err) => visit_after_error(
            state,
            pos,
            crate::util::in_context("Failed to get path from /proc/self/fd"@, err),
        ),
        Ok(abs_path) => {
            let rel_bytes = crate::passthrough::util::without_leading_slashes(
                abs_path.skip(state.shared_dir.len() as int),
            );
            if !state.shared_dir.is_prefix_of(abs_path) {
                visit_after_error(
                    state,
                    pos,
                    IoErrorView::OutsideDirectory { path: abs_path, prefix: state.shared_dir },
                )
            } else if !vstd::utf8::valid_utf8(rel_bytes) {
                visit_after_error(state, pos, IoErrorView::NotUtf8 { path: abs_path, rel_bytes })
            } else {
                let text = vstd::utf8::decode_utf8(rel_bytes);
                follow(
                    state,
                    pos,
                    TrailState {
                        rel_path: text,
                        elements: path_elements(text, true),
                        next: 0,
                        parent: ROOT_ID,
                    },
                )
            }
        },
    }
}

/// The inodes, with the one given added to them, unless it is known.
pub open spec fn with_entry(inodes: Seq<InodeState>, inode: u64, refcount: u64) -> Seq<
    InodeState,
> {
    if crate::passthrough::inode_store::knows(inodes, inode) {
        inodes
    } else {
        inodes.push(InodeState { inode, refcount, info: None })
    }
}

/// The position of the inode with the given ID.
pub open spec fn place_of(inodes: Seq<InodeState>, inode: u64) -> int {
    choose|i: int| 0 <= i < inodes.len() && (#[trigger] inodes[i]).inode == inode
}

/// How the walk goes on with the inode (and its reference count) that the next name leads to, or
/// the error that looking it up gave.  An inode that has a location keeps it.
pub open spec fn after_entry(
    state: WalkState,
    pos: nat,
    trail: TrailState,
    entry: Result<(u64, u64), IoErrorView>,
) -> WalkView {
    match entry {
        Err(err) => visit_after_error(state, pos, err),
        Ok((inode, refcount)) => {
            let inodes = with_entry(state.inodes, inode, refcount);
            let place = place_of(inodes, inode);
            if inodes[place].info is None {
                WalkView::Info {
                    state: WalkState { inodes, ..state },
                    pos,
                    trail,
                    entry: place as nat,
                }
            } else {
                follow(
                    WalkState { inodes, ..state },
                    pos,
                    TrailState { next: trail.next + 1, parent: inode, ..trail },
                )
            }
        },
    }
}

/// The inodes, with the one at `entry` located under the next name along the path.
pub open spec fn with_location(
    inodes: Seq<InodeState>,
    trail: TrailState,
    entry: nat,
    file_handle: Option<Seq<u8>>,
) -> Seq<InodeState> {
    inodes.update(
        entry as int,
        InodeState {
            info: Some(
                InfoState {
                    location: LocationState::Path {
                        parent: trail.parent,
                        filename: trail.elements[trail.next as int],
                    },
                    file_handle,
                },
            ),
            ..inodes[entry as int]
        },
    )
}

/// How the walk goes on with the file handle, if one is needed, of the inode at `entry`, or the
/// error that generating it gave.
pub open spec fn after_info(
    state: WalkState,
    pos: nat,
    trail: TrailState,
    entry: nat,
    file_handle: Result<Option<Seq<u8>>, IoErrorView>,
) -> WalkView {
    match file_handle {
        Err(err) => visit_after_error(state, pos, err),
        Ok(file_handle) => follow(
            WalkState {
                inodes: with_location(state.inodes, trail, entry, file_handle),
                ..state
            },
            pos,
            TrailState {
                next: trail.next + 1,
                parent: state.inodes[entry as int].inode,
                ..trail
            },
        ),
    }
}

/// The destination can be told where to find the inode.  The root needs no path.
pub open spec fn is_settled(inode: InodeState) -> bool {
    inode.info is Some || inode.inode == ROOT_ID
}

/// The destination can be told where to find each of the inodes.
pub open spec fn all_settled(inodes: Seq<InodeState>) -> bool {
    forall|i: int| 0 <= i < inodes.len() ==> is_settled(#[trigger] inodes[i])
}

/// Unless an error was encountered, the inodes before `pos` are settled, and those that were found
/// on the way, but for the one at `pending`.
pub open spec fn has_settled(state: WalkState, pos: nat, pending: int) -> bool {
    &&& crate::passthrough::inode_store::ids_are_distinct(state.inodes)
    &&& pos <= state.end <= state.inodes.len()
    &&& state.errors.len() == 0 ==> forall|i: int|
        (0 <= i < pos || state.end <= i < state.inodes.len()) && i != pending ==> is_settled(
            #[trigger] state.inodes[i],
        )
}

/// Any inode with the given ID is settled.
pub open spec fn leads_to_settled(inodes: Seq<InodeState>, inode: u64) -> bool {
    forall|i: int|
        0 <= i < inodes.len() && (#[trigger] inodes[i]).inode == inode ==> is_settled(inodes[i])
}

/// What holds of a walk at all times.
pub open spec fn walk_invariant(walk: WalkView) -> bool {
    match walk {
        WalkView::RootPath { inodes } => crate::passthrough::inode_store::ids_are_distinct(inodes),
        WalkView::Presence { state, pos } => {
            &&& has_settled(state, pos, -1)
            &&& pos < state.end
            &&& state.inodes[pos as int].info is Some
        },
        WalkView::Path { state, pos } => {
            &&& has_settled(state, pos, -1)
            &&& pos < state.end
            &&& state.inodes[pos as int].info is None
        },
        WalkView::Entry { state, pos, trail } => {
            &&& has_settled(state, pos, -1)
            &&& pos < state.end
            &&& trail.next < trail.elements.len()
            &&& leads_to_settled(state.inodes, trail.parent)
        },
        WalkView::Info { state, pos, trail, entry } => {
            &&& has_settled(state, pos, entry as int)
            &&& pos < state.end
            &&& trail.next < trail.elements.len()
            &&& entry < state.inodes.len()
            &&& state.inodes[entry as int].info is None
        },
        WalkView::Done { inodes, result, errors } => {
            &&& crate::passthrough::inode_store::ids_are_distinct(inodes)
            &&& result is Ok ==> all_settled(inodes) && errors.len() == 0
            &&& first_error(errors) matches Some(err) ==> result == Err::<(), IoErrorView>(err)
        },
    }
}

/// The invariant holds where the walk goes on with the next inode.
proof fn lemma_visit(state: WalkState, pos: nat)
    requires
        has_settled(state, pos, -1),
    ensures
        walk_invariant(visit(state, pos)),
{
}

/// The invariant holds where the walk goes on after an error.
proof fn lemma_visit_after_error(state: WalkState, pos: nat, pending: int, err: IoErrorView)
    requires
        has_settled(state, pos, pending),
        pos < state.end,
    ensures
        walk_invariant(visit_after_error(state, pos, err)),
{
}

/// The invariant holds where the walk goes on along a path.
proof fn lemma_follow(state: WalkState, pos: nat, trail: TrailState)
    requires
        has_settled(state, pos, -1),
        pos < state.end,
        leads_to_settled(state.inodes, trail.parent),
    ensures
        walk_invariant(follow(state, pos, trail)),
{
    if trail.next >= trail.elements.len() {
        if trail.parent == state.inodes[pos as int].inode {
            lemma_visit(state, pos + 1);
        } else {
            lemma_visit_after_error(
                state,
                pos,
                -1,
                IoErrorView::NotUnderPath { rel_path: trail.rel_path },
            );
        }
    }
}

/// The invariant is kept, whatever the path of the shared directory.
proof fn lemma_after_root_path(
    inodes: Seq<InodeState>,
    path: Result<Seq<u8>, IoErrorView>,
)
    requires
        walk_invariant(WalkView::RootPath { inodes }),
    ensures
        walk_invariant(after_root_path(inodes, path)),
{
}

/// The invariant is kept, whether or not the inode is where it is said to be.
proof fn lemma_after_presence(state: WalkState, pos: nat, present: bool)
    requires
        walk_invariant(WalkView::Presence { state, pos }),
    ensures
        walk_invariant(after_presence(state, pos, present)),
{
}

/// The invariant is kept, whatever the path of the inode.
proof fn lemma_after_path(
    state: WalkState,
    pos: nat,
    path: Result<Seq<u8>, IoErrorView>,
)
    requires
        walk_invariant(WalkView::Path { state, pos }),
    ensures
        walk_invariant(after_path(state, pos, path)),
{
    if let Ok(abs_path) = path {
        let text = vstd::utf8::decode_utf8(
            crate::passthrough::util::without_leading_slashes(
                abs_path.skip(state.shared_dir.len() as int),
            ),
        );
        lemma_follow(
            state,
            pos,
            TrailState {
                rel_path: text,
                elements: path_elements(text, true),
                next: 0,
                parent: ROOT_ID,
            },
        );
    }
}

/// The place of an inode that is among others.
pub proof fn lemma_with_entry(inodes: Seq<InodeState>, inode: u64, refcount: u64)
    requires
        crate::passthrough::inode_store::ids_are_distinct(inodes),
    ensures
        ({
            let extended = with_entry(inodes, inode, refcount);
            let place = place_of(extended, inode);
            &&& crate::passthrough::inode_store::ids_are_distinct(extended)
            &&& 0 <= place < extended.len()
            &&& extended[place].inode == inode
            &&& inodes.len() <= extended.len()
            &&& forall|i: int| 0 <= i < inodes.len() ==> extended[i] == #[trigger] inodes[i]
            &&& extended.len() > inodes.len() ==> extended.len() == inodes.len() + 1 && place
                == inodes.len()
        }),
{
    let extended = with_entry(inodes, inode, refcount);
    if !crate::passthrough::inode_store::knows(inodes, inode) {
        assert(extended[inodes.len() as int].inode == inode);
        assert forall|i: int, j: int| 0 <= i < j < extended.len() implies (
        #[trigger] extended[i]).inode != (#[trigger] extended[j]).inode by {
            if j == inodes.len() {
                assert(inodes[i].inode != inode);
            }
        }
    }
}

/// The invariant is kept, whatever the next name leads to.
proof fn lemma_after_entry(
    state: WalkState,
    pos: nat,
    trail: TrailState,
    entry: Result<(u64, u64), IoErrorView>,
)
    requires
        walk_invariant(WalkView::Entry { state, pos, trail }),
    ensures
        walk_invariant(after_entry(state, pos, trail, entry)),
{
    if let Ok((inode, refcount)) = entry {
        let inodes = with_entry(state.inodes, inode, refcount);
        let place = place_of(inodes, inode);
        lemma_with_entry(state.inodes, inode, refcount);
        if inodes[place].info is Some {
            lemma_follow(
                WalkState { inodes, ..state },
                pos,
                TrailState { next: trail.next + 1, parent: inode, ..trail },
            );
        }
    }
}

/// The invariant is kept, whatever the file handle.
proof fn lemma_after_info(
    state: WalkState,
    pos: nat,
    trail: TrailState,
    entry: nat,
    file_handle: Result<Option<Seq<u8>>, IoErrorView>,
)
    requires
        walk_invariant(WalkView::Info { state, pos, trail, entry }),
    ensures
        walk_invariant(after_info(state, pos, trail, entry, file_handle)),
{
    match file_handle {
        Err(err) => {
            lemma_visit_after_error(state, pos, entry as int, err);
        },
        Ok(file_handle) => {
            let inodes = with_location(state.inodes, trail, entry, file_handle);
            assert(crate::passthrough::inode_store::ids_are_distinct(inodes)) by {
                assert forall|i: int, j: int| 0 <= i < j < inodes.len() implies (
                #[trigger] inodes[i]).inode != (#[trigger] inodes[j]).inode by {
                    assert(state.inodes[i].inode != state.inodes[j].inode);
                }
            }
            assert forall|i: int|
                0 <= i < inodes.len() && i != entry implies inodes[i] == #[trigger] state.inodes[i] by {
            }
            lemma_follow(
                WalkState { inodes, ..state },
                pos,
                TrailState {
                    next: trail.next + 1,
                    parent: state.inodes[entry as int].inode,
                    ..trail
                },
            );
        },
    }
}

/// What the host answers to a walk.
pub ghost enum Answer {
    /// The path of the shared directory or of an inode, or the error that reading it gave.
    Path(Result<Seq<u8>, IoErrorView>),
    /// Whether the inode is where it is said to be.
    Presence(bool),
    /// The inode under the name and its reference count, or the error that looking it up gave.
    Entry(Result<(u64, u64), IoErrorView>),
    /// The file handle, if one is needed, or the error that generating it gave.
    Info(Result<Option<Seq<u8>>, IoErrorView>),
}

/// How a walk goes on with an answer to what it is waiting for; any other makes no difference.
pub open spec fn step(walk: WalkView, answer: Answer) -> WalkView {
    match (walk, answer) {
        (WalkView::RootPath { inodes }, Answer::Path(path)) => after_root_path(inodes, path),
        (WalkView::Presence { state, pos }, Answer::Presence(present)) => after_presence(
            state,
            pos,
            present,
        ),
        (WalkView::Path { state, pos }, Answer::Path(path)) => after_path(state, pos, path),
        (WalkView::Entry { state, pos, trail }, Answer::Entry(entry)) => after_entry(
            state,
            pos,
            trail,
            entry,
        ),
        (WalkView::Info { state, pos, trail, entry }, Answer::Info(handle)) => after_info(
            state,
            pos,
            trail,
            entry,
            handle,
        ),
        _ => walk,
    }
}

/// How a walk goes on with the answers given, one after the other.
pub open spec fn steps(walk: WalkView, answers: Seq<Answer>) -> WalkView
    decreases answers.len(),
{
    if answers.len() == 0 {
        walk
    } else {
        step(steps(walk, answers.drop_last()), answers.last())
    }
}

/// The invariant is kept, whatever the host answers.
pub proof fn law_invariant_is_kept(walk: WalkView, answer: Answer)
    requires
        walk_invariant(walk),
    ensures
        walk_invariant(step(walk, answer)),
{
    match (walk, answer) {
        (WalkView::RootPath { inodes }, Answer::Path(path)) => {
            lemma_after_root_path(inodes, path);
        },
        (WalkView::Presence { state, pos }, Answer::Presence(present)) => {
            lemma_after_presence(state, pos, present);
        },
        (WalkView::Path { state, pos }, Answer::Path(path)) => {
            lemma_after_path(state, pos, path);
        },
        (WalkView::Entry { state, pos, trail }, Answer::Entry(entry)) => {
            lemma_after_entry(state, pos, trail, entry);
        },
        (WalkView::Info { state, pos, trail, entry }, Answer::Info(handle)) => {
            lemma_after_info(state, pos, trail, entry, handle);
        },
        _ => {},
    }
}

/// A walk over inodes that ends without an error has left none of them without a location, except
/// perhaps the root, whatever the host answered on the way.
pub proof fn law_successful_walk_locates_every_inode(
    inodes: Seq<InodeState>,
    answers: Seq<Answer>,
)
    requires
        crate::passthrough::inode_store::ids_are_distinct(inodes),
    ensures
        walk_invariant(steps(begin(inodes), answers)),
        steps(begin(inodes), answers) matches WalkView::Done { inodes: found, result, .. }
            ==> result is Ok ==> all_settled(found),
    decreases answers.len(),
{
    if answers.len() > 0 {
        law_successful_walk_locates_every_inode(inodes, answers.drop_last());
        law_invariant_is_kept(steps(begin(inodes), answers.drop_last()), answers.last());
    }
}

/// What a walk knows of the inodes.
pub open spec fn inodes_of(walk: WalkView) -> Seq<InodeState> {
    match walk {
        WalkView::RootPath { inodes } => inodes,
        WalkView::Presence { state, .. } => state.inodes,
        WalkView::Path { state, .. } => state.inodes,
        WalkView::Entry { state, .. } => state.inodes,
        WalkView::Info { state, .. } => state.inodes,
        WalkView::Done { inodes, .. } => inodes,
    }
}

/// The errors that a walk has encountered with inodes.
pub open spec fn errors_of(walk: WalkView) -> Seq<InodeErrorView> {
    match walk {
        WalkView::RootPath { .. } => seq![],
        WalkView::Presence { state, .. } => state.errors,
        WalkView::Path { state, .. } => state.errors,
        WalkView::Entry { state, .. } => state.errors,
        WalkView::Info { state, .. } => state.errors,
        WalkView::Done { errors, .. } => errors,
    }
}

/// The error that a walk returns, as far as it has gone.
pub open spec fn error_of(walk: WalkView) -> Option<IoErrorView> {
    match walk {
        WalkView::Done { result, .. } => match result {
            Ok(_) => None,
            Err(err) => Some(err),
        },
        _ => first_error(errors_of(walk)),
    }
}

/// A location is forgotten only if the host says that the inode is not there, and then it is; no
/// other location changes once there is one.  No inode is lost, nor its ID or reference count
/// changed.
pub proof fn law_correct_locations_are_kept(walk: WalkView, answer: Answer, i: int)
    requires
        walk_invariant(walk),
        0 <= i < inodes_of(walk).len(),
    ensures
        ({
            let before = inodes_of(walk)[i];
            let after = inodes_of(step(walk, answer))[i];
            &&& inodes_of(walk).len() <= inodes_of(step(walk, answer)).len()
            &&& after.inode == before.inode
            &&& after.refcount == before.refcount
            &&& if walk matches WalkView::Presence { pos, .. } && pos == i && answer
                == Answer::Presence(false) {
                after.info is None
            } else {
                before.info is Some ==> after.info == before.info
            }
        }),
{
    if let (WalkView::Entry { state, pos, trail }, Answer::Entry(Ok((inode, refcount)))) = (
        walk,
        answer,
    ) {
        lemma_with_entry(state.inodes, inode, refcount);
    }
}

/// The first error that a walk encounters is its result.
pub proof fn law_first_error_is_result(walk: WalkView, answers: Seq<Answer>)
    requires
        walk_invariant(walk),
        error_of(walk) is Some,
    ensures
        error_of(steps(walk, answers)) == error_of(walk),
    decreases answers.len(),
{
    if answers.len() > 0 {
        law_first_error_is_result(walk, answers.drop_last());
    }
}

/// No error is lost: an answer adds at most one to those that were encountered.
pub proof fn law_errors_are_kept(walk: WalkView, answer: Answer)
    requires
        walk_invariant(walk),
    ensures
        errors_of(walk).is_prefix_of(errors_of(step(walk, answer))),
        errors_of(step(walk, answer)).len() <= errors_of(walk).len() + 1,
{
    let before = errors_of(walk);
    let after = errors_of(step(walk, answer));
    assert(before =~= after.subrange(0, before.len() as int));
}

/// The number that the next new inode gets, once there is an inode with the given ID: one above it,
/// if it is not above it anyway.  There is none above the largest one.
pub open spec fn number_above(next_inode: u64, inode: u64) -> u64 {
    if inode < next_inode {
        next_inode
    } else if inode < u64::MAX {
        (inode + 1) as u64
    } else {
        u64::MAX
    }
}

/// The number that the next new inode gets after the walk has gone on with an answer, where it was
/// `next_inode` before: it stays above that of an inode that is added.
pub open spec fn next_inode_after(walk: WalkView, answer: Answer, next_inode: u64) -> u64 {
    match (walk, answer) {
        (
            WalkView::Entry { state, .. },
            Answer::Entry(Ok((inode, _))),
        ) => if crate::passthrough::inode_store::knows(state.inodes, inode) {
            next_inode
        } else {
            number_above(next_inode, inode)
        },
        _ => next_inode,
    }
}

/// The ID of every inode stays below the number that the next new one gets.
pub proof fn law_next_inode_stays_above_ids(walk: WalkView, answer: Answer, next_inode: u64)
    requires
        walk_invariant(walk),
        forall|i: int|
            0 <= i < inodes_of(walk).len() ==> (#[trigger] inodes_of(walk)[i]).inode < next_inode,
        answer matches Answer::Entry(Ok((inode, _))) ==> inode < u64::MAX,
    ensures
        next_inode <= next_inode_after(walk, answer, next_inode),
        forall|i: int|
            0 <= i < inodes_of(step(walk, answer)).len() ==> (#[trigger] inodes_of(
                step(walk, answer),
            )[i]).inode < next_inode_after(walk, answer, next_inode),
{
    let before = inodes_of(walk);
    let after = inodes_of(step(walk, answer));
    assert forall|i: int| 0 <= i < after.len() implies (#[trigger] after[i]).inode
        < next_inode_after(walk, answer, next_inode) by {
        if i < before.len() {
            assert(before[i].inode < next_inode);
            law_correct_locations_are_kept(walk, answer, i);
        } else if let (
            WalkView::Entry { state, pos, trail },
            Answer::Entry(Ok((inode, refcount))),
        ) = (walk, answer) {
            lemma_with_entry(state.inodes, inode, refcount);
        }
    }
}

/// The special mark stays with the root, and with no other inode, as long as the host does not
/// give the root as what a name leads to.
pub proof fn law_root_marks_are_kept(walk: WalkView, answer: Answer)
    requires
        walk_invariant(walk),
        crate::passthrough::device_state::serialization::roots_are_marked(inodes_of(walk)),
        walk matches WalkView::Info { state, entry, .. } ==> state.inodes[entry as int].inode
            != ROOT_ID,
    ensures
        crate::passthrough::device_state::serialization::roots_are_marked(
            inodes_of(step(walk, answer)),
        ),
{
    let before = inodes_of(walk);
    let after = inodes_of(step(walk, answer));
    assert forall|i: int|
        0 <= i < after.len() implies crate::passthrough::device_state::serialization::root_is_marked(
        #[trigger] after[i],
    ) by {
        if i < before.len() {
            assert(crate::passthrough::device_state::serialization::root_is_marked(before[i]));
            law_correct_locations_are_kept(walk, answer, i);
        }
        if let (WalkView::Entry { state, pos, trail }, Answer::Entry(Ok((inode, refcount)))) = (
            walk,
            answer,
        ) {
            lemma_with_entry(state.inodes, inode, refcount);
        }
    }
}

/// The answer is one to what the walk is waiting for.
pub open spec fn answers_walk(walk: WalkView, answer: Answer) -> bool {
    match walk {
        WalkView::RootPath { .. } => answer is Path,
        WalkView::Presence { .. } => answer is Presence,
        WalkView::Path { .. } => answer is Path,
        WalkView::Entry { .. } => answer is Entry,
        WalkView::Info { .. } => answer is Info,
        WalkView::Done { .. } => false,
    }
}

/// How many inodes a walk still has to deal with.
pub open spec fn inodes_left(walk: WalkView) -> int {
    match walk {
        WalkView::RootPath { inodes } => inodes.len() as int + 1,
        WalkView::Presence { state, pos } => state.end - pos,
        WalkView::Path { state, pos } => state.end - pos,
        WalkView::Entry { state, pos, .. } => state.end - pos,
        WalkView::Info { state, pos, .. } => state.end - pos,
        WalkView::Done { .. } => 0,
    }
}

/// How many stages a walk still has to go through for an inode.
pub open spec fn stages_left(walk: WalkView) -> int {
    match walk {
        WalkView::RootPath { .. } => 0,
        WalkView::Presence { .. } => 2,
        WalkView::Path { .. } => 1,
        WalkView::Entry { .. } => 0,
        WalkView::Info { .. } => 0,
        WalkView::Done { .. } => 0,
    }
}

/// How many answers a walk still needs to get to the end of a path.
pub open spec fn answers_left(walk: WalkView) -> int {
    match walk {
        WalkView::Entry { trail, .. } => 2 * (trail.elements.len() - trail.next),
        WalkView::Info { trail, .. } => 2 * (trail.elements.len() - trail.next) - 1,
        _ => 0,
    }
}

/// Every answer brings a walk closer to its end: it is done with an inode, or with a stage for it,
/// or gets further along its path.  So every walk ends, whatever the host answers.
pub proof fn law_walk_makes_progress(walk: WalkView, answer: Answer)
    requires
        walk_invariant(walk),
        answers_walk(walk, answer),
    ensures
        decreases_to!(
            inodes_left(walk), stages_left(walk), answers_left(walk)
            => inodes_left(step(walk, answer)), stages_left(step(walk, answer)), answers_left(step(walk, answer))
        ),
{
    law_invariant_is_kept(walk, answer);
}

/// Selects how a [`Walker`] should behave.
#[derive(Clone, Copy, Debug, PartialEq, Eq, Structural)]
pub enum Mode {
    /// Run the `--migration-confirm-paths` check.
    ConfirmPaths,
}

/// Walks over the inodes, checks the paths in their migration info, and constructs them by looking
/// into /proc/self/fd.  What exactly is done depends on `mode`.
#[derive(Debug)]
pub struct Walker {
    /// The file system state to check.
    fs: PassthroughFs,
    /// Which functionality is provided.
    mode: Mode,
    /// The path of the shared directory.
    shared_dir: Vec<u8>,
    /// How many inodes there were when the walk began.
    end: usize,
    /// The errors that were encountered, each with the inode that was being looked up.
    errors: Vec<InodeError>,
}

/// A path that is being followed from the root of the shared directory.
#[derive(Debug)]
struct Trail {
    rel_path: String,
    elements: Vec<String>,
    next: usize,
    parent: u64,
}

impl View for Trail {
    type V = TrailState;

    closed spec fn view(&self) -> TrailState {
        TrailState {
            rel_path: self.rel_path@,
            elements: texts(self.elements@),
            next: self.next as nat,
            parent: self.parent,
        }
    }
}

/// `--migration-confirm-paths` implementation.
///
/// Implements checking inodes' paths right before serialization: all inodes that either don't have
/// a migration info set, or where it is found to be incorrect, are given a path from /proc/self/fd.
/// Given the user has specifically requested this check run, any error is a hard error, preventing
/// migration: the walk goes through all inodes nevertheless, and returns the first error.
#[derive(Debug)]
pub struct ConfirmPaths {
    /// A [`Walker`] in `Mode::ConfirmPaths` mode.
    walker: Walker,
}

/// A walk, at the point where the host has to act.
#[derive(Debug)]
pub enum Walk {
    /// Read the path of the shared directory from /proc/self/fd.
    RootPath(AwaitRootPath),
    /// Check that an inode is where it is said to be.
    Presence(AwaitPresence),
    /// Read the path of an inode from /proc/self/fd.
    Path(AwaitPath),
    /// Look up a name in a directory.
    Entry(AwaitEntry),
    /// Generate a file handle for an inode, if one is to be verified.
    Info(AwaitInfo),
    /// The walk is over.
    Done(Finished),
}

/// Waits for the path of the shared directory.
#[derive(Debug)]
pub struct AwaitRootPath {
    walker: Walker,
}

/// Waits for whether an inode is where it is said to be.
#[derive(Debug)]
pub struct AwaitPresence {
    walker: Walker,
    pos: usize,
}

/// Waits for the path of an inode.
#[derive(Debug)]
pub struct AwaitPath {
    walker: Walker,
    pos: usize,
}

/// Waits for what a name in a directory leads to.
#[derive(Debug)]
pub struct AwaitEntry {
    walker: Walker,
    pos: usize,
    trail: Trail,
}

/// Waits for the file handle of an inode, if one is to be verified.
#[derive(Debug)]
pub struct AwaitInfo {
    walker: Walker,
    pos: usize,
    trail: Trail,
    entry: usize,
}

/// A walk that is over.
#[derive(Debug)]
pub struct Finished {
    /// The file system state, with what was found.
    pub fs: PassthroughFs,
    /// The first error that was encountered, if any was.
    pub result: Result<(), IoError>,
    /// All errors that were encountered with inodes, each with the inode that was being looked up.
    pub errors: Vec<InodeError>,
}

/// What a result says.
pub open spec fn meaning<T>(result: Result<T, IoError>) -> Result<T, IoErrorView> {
    match result {
        Ok(value) => Ok(value),
        Err(err) => Err(err@),
    }
}

/// What the outcome of reading a path says.
pub open spec fn path_meaning(path: Result<Vec<u8>, IoError>) -> Result<Seq<u8>, IoErrorView> {
    match path {
        Ok(path) => Ok(path@),
        Err(err) => Err(err@),
    }
}

/// What the outcome of generating a file handle says.
pub open spec fn handle_meaning(
    file_handle: Result<Option<SerializableFileHandle>, IoError>,
) -> Result<Option<Seq<u8>>, IoErrorView> {
    match file_handle {
        Ok(handle) => Ok(
            crate::passthrough::device_state::preserialization::handle_bytes(handle),
        ),
        Err(err) => Err(err@),
    }
}

/// `after` is `before`, but for the inodes and the number that the next new one gets.
pub open spec fn same_but_inodes(before: PassthroughFs, after: PassthroughFs) -> bool {
    &&& crate::passthrough::device_state::same_beside_inodes(before, after)
    &&& after.track_migration_info == before.track_migration_info
}

impl Walker {
    closed spec fn state(&self) -> WalkState {
        WalkState {
            inodes: self.fs.inodes@,
            shared_dir: self.shared_dir@,
            end: self.end as nat,
            errors: crate::passthrough::inode_store::errors_meaning(self.errors@),
        }
    }
}

impl View for Walk {
    type V = WalkView;

    closed spec fn view(&self) -> WalkView {
        match *self {
            Walk::RootPath(w) => WalkView::RootPath { inodes: w.walker.fs.inodes@ },
            Walk::Presence(w) => WalkView::Presence {
                state: w.walker.state(),
                pos: w.pos as nat,
            },
            Walk::Path(w) => WalkView::Path { state: w.walker.state(), pos: w.pos as nat },
            Walk::Entry(w) => WalkView::Entry {
                state: w.walker.state(),
                pos: w.pos as nat,
                trail: w.trail@,
            },
            Walk::Info(w) => WalkView::Info {
                state: w.walker.state(),
                pos: w.pos as nat,
                trail: w.trail@,
                entry: w.entry as nat,
            },
            Walk::Done(w) => WalkView::Done {
                inodes: w.fs.inodes@,
                result: meaning(w.result),
                errors: crate::passthrough::inode_store::errors_meaning(w.errors@),
            },
        }
    }
}

impl Walk {
    /// The file system state as of now.
    pub closed spec fn fs(&self) -> PassthroughFs {
        match *self {
            Walk::RootPath(w) => w.walker.fs,
            Walk::Presence(w) => w.walker.fs,
            Walk::Path(w) => w.walker.fs,
            Walk::Entry(w) => w.walker.fs,
            Walk::Info(w) => w.walker.fs,
            Walk::Done(w) => w.fs,
        }
    }

    /// The variant shows what the walk is waiting for.
    pub open spec fn shows_kind(&self) -> bool {
        &&& (self is RootPath) == (self@ is RootPath)
        &&& (self is Presence) == (self@ is Presence)
        &&& (self is Path) == (self@ is Path)
        &&& (self is Entry) == (self@ is Entry)
        &&& (self is Info) == (self@ is Info)
        &&& (self is Done) == (self@ is Done)
    }

    /// What holds of a walk at all times.
    pub open spec fn wf(&self) -> bool {
        walk_invariant(self@) && self.shows_kind()
    }

    /// The variant shows what the walk is waiting for, what it knows of the inodes is the file
    /// system's, and if it is over, it is what its fields say.
    pub proof fn lemma_view(&self)
        ensures
            self.shows_kind(),
            inodes_of(self@) == self.fs().inodes@,
            is_as_viewed(*self),
    {
    }
}

/// `next` is how `walk` goes on with the answer, and has the same file system state, but for the
/// inodes and the number that the next new one gets.  A walk that is over is what its fields say.
pub open spec fn goes_on(walk: Walk, answer: Answer, next: Walk) -> bool {
    &&& next@ == step(walk@, answer)
    &&& next.wf()
    &&& next.fs().inodes@ == inodes_of(next@)
    &&& same_but_inodes(walk.fs(), next.fs())
    &&& next.fs().next_inode == next_inode_after(walk@, answer, walk.fs().next_inode)
    &&& is_as_viewed(next)
}

/// A walk that is over is what its fields say.
pub open spec fn is_as_viewed(walk: Walk) -> bool {
    walk matches Walk::Done(done) ==> {
        &&& walk.fs() == done.fs
        &&& walk@ == (WalkView::Done {
            inodes: done.fs.inodes@,
            result: meaning(done.result),
            errors: crate::passthrough::inode_store::errors_meaning(done.errors@),
        })
    }
}

impl ConfirmPaths {
    /// The file system whose paths are confirmed.
    pub closed spec fn fs(&self) -> PassthroughFs {
        self.walker.fs
    }

    /// Prepare to confirm paths collected for `fs`.
    pub fn new(fs: PassthroughFs) -> (checker: ConfirmPaths)
        ensures
            checker.fs() == fs,
    {
        ConfirmPaths { walker: Walker::new(fs, Mode::ConfirmPaths) }
    }

    /// Run the `--migration-confirm-paths` check.
    ///
    /// If necessary, try to fix the paths collected during the preserialization phase by looking
    /// into /proc/self/fd.  Errors are returned at the end of the walk.
    pub fn confirm_paths(self) -> (walk: Walk)
        requires
            crate::passthrough::inode_store::ids_are_distinct(self.fs().inodes@),
        ensures
            walk@ == begin(self.fs().inodes@),
            walk.wf(),
            walk.fs() == self.fs(),
            is_as_viewed(walk),
    {
        self.walker.run()
    }
}

impl Walker {
    /// Create a `Walker` over `fs` with the given `mode`.
    fn new(fs: PassthroughFs, mode: Mode) -> (walker: Walker)
        ensures
            walker.fs == fs,
            walker.mode == mode,
    {
        Walker { fs, mode, shared_dir: Vec::new(), end: 0, errors: Vec::new() }
    }

    /// Run the `Walker` over all inodes.
    fn run(self) -> (walk: Walk)
        requires
            crate::passthrough::inode_store::ids_are_distinct(self.fs.inodes@),
        ensures
            walk@ == begin(self.fs.inodes@),
            walk.wf(),
            walk.fs() == self.fs,
    {
        match self.fs.inodes.find(ROOT_ID) {
            Some(_) => Walk::RootPath(AwaitRootPath { walker: self }),
            None => {
                // No root?  That's fine if and only if we don't have any inodes at all.
                let result: Result<(), IoError> = if self.fs.inodes.is_empty() {
                    Ok(())
                } else {
                    Err(other_io_error("Root node not found"))
                };
                let errors: Vec<InodeError> = Vec::new();
                assert(crate::passthrough::inode_store::errors_meaning(errors@) =~= seq![]);
                Walk::Done(Finished { fs: self.fs, result, errors })
            },
        }
    }

    /// Goes on with the inode at `pos`.
    fn visit(self, pos: usize) -> (walk: Walk)
        requires
            self.end <= self.fs.inodes@.len(),
        ensures
            walk@ == visit(self.state(), pos as nat),
            walk.fs() == self.fs,
    {
        if pos >= self.end {
            let result: Result<(), IoError> = if self.errors.len() > 0 {
                Err(self.errors[0].error.clone())
            } else {
                Ok(())
            };
            return Walk::Done(Finished { fs: self.fs, result, errors: self.errors });
        }
        match self.fs.inodes.inodes[pos].migration_info {
            None => Walk::Path(AwaitPath { walker: self, pos }),
            Some(_) => Walk::Presence(AwaitPresence { walker: self, pos }),
        }
    }

    /// Goes on behind the inode at `pos`, for which `err` was encountered.
    fn visit_after_error(self, pos: usize, err: IoError) -> (walk: Walk)
        requires
            pos < self.end <= self.fs.inodes@.len(),
        ensures
            walk@ == visit_after_error(self.state(), pos as nat, err@),
            walk.fs() == self.fs,
    {
        let mut walker: Walker = self;
        match walker.mode {
            Mode::ConfirmPaths => {
                let inode: u64 = walker.fs.inodes.inodes[pos].inode;
                walker.errors.push(InodeError { inode, error: err });
            },
        }
        proof {
            let failed = InodeErrorView { inode: self.fs.inodes@[pos as int].inode, error: err@ };
            assert(walker.state().errors =~= self.state().errors.push(failed));
        }
        walker.visit(pos + 1)
    }

    /// Check the given inode's migration info, given whether the inode is where that says.
    ///
    /// - Return `true` iff the info should be updated from /proc/self/fd.
    /// - Return `false` iff the info seems fine, and should be left as-is.
    fn should_update_inode(&mut self, pos: usize, present: bool) -> (update: bool)
        requires
            pos < old(self).fs.inodes@.len(),
        ensures
            update == !present,
            final(self).state() == (WalkState {
                inodes: if present {
                    old(self).fs.inodes@
                } else {
                    forget_location(old(self).fs.inodes@, pos as nat)
                },
                ..old(self).state()
            }),
            same_but_inodes(old(self).fs, final(self).fs),
            final(self).fs.next_inode == old(self).fs.next_inode,
            final(self).mode == old(self).mode,
    {
        match self.mode {
            Mode::ConfirmPaths => {
                if !present {
                    self.fs.inodes.set_info(pos, None);
                    true
                } else {
                    false
                }
            },
        }
    }

    /// Goes on along a path.
    fn follow(self, pos: usize, trail: Trail) -> (walk: Walk)
        requires
            pos < self.end <= self.fs.inodes@.len(),
        ensures
            walk@ == follow(self.state(), pos as nat, trail@),
            walk.fs() == self.fs,
    {
        if trail.next < trail.elements.len() {
            return Walk::Entry(AwaitEntry { walker: self, pos, trail });
        }
        if trail.parent == self.fs.inodes.inodes[pos].inode {
            self.visit(pos + 1)
        } else {
            self.visit_after_error(pos, IoError::NotUnderPath { rel_path: trail.rel_path })
        }
    }
}

impl AwaitRootPath {
    /// The inode whose path is needed.
    pub fn inode(&self) -> (inode: u64)
        ensures
            inode == ROOT_ID,
    {
        ROOT_ID
    }

    /// Goes on with the path, or the error that reading it gave.
    pub fn resume(self, path: Result<Vec<u8>, IoError>) -> (walk: Walk)
        requires
            Walk::RootPath(self).wf(),
        ensures
            goes_on(Walk::RootPath(self), Answer::Path(path_meaning(path)), walk),
    {
        proof {
            law_invariant_is_kept(Walk::RootPath(self)@, Answer::Path(path_meaning(path)));
        }
        match path {
            Err(err) => {
                let errors: Vec<InodeError> = Vec::new();
                assert(crate::passthrough::inode_store::errors_meaning(errors@) =~= seq![]);
                Walk::Done(
                    Finished {
                        fs: self.walker.fs,
                        result: Err(err.context("Failed to get shared directory's path")),
                        errors,
                    },
                )
            },
            Ok(path) => {
                let mut walker: Walker = self.walker;
                walker.shared_dir = path;
                walker.end = walker.fs.inodes.inodes.len();
                walker.errors = Vec::new();
                assert(walker.state().errors =~= seq![]);
                walker.visit(0)
            },
        }
    }
}

impl AwaitPresence {
    /// The inode to check.
    pub fn inode(&self) -> (inode: u64)
        requires
            Walk::Presence(*self).wf(),
        ensures
            Walk::Presence(*self)@ matches WalkView::Presence { state, pos } && inode
                == state.inodes[pos as int].inode,
    {
        self.walker.fs.inodes.inodes[self.pos].inode
    }

    /// Where it is said to be.
    pub fn location(&self) -> (location: Option<&InodeLocation>)
        requires
            Walk::Presence(*self).wf(),
        ensures
            Walk::Presence(*self)@ matches WalkView::Presence { state, pos }
                && state.inodes[pos as int].info matches Some(info) && location matches Some(l)
                && l@ == info.location,
    {
        match &self.walker.fs.inodes.inodes[self.pos].migration_info {
            Some(info) => Some(&info.location),
            None => None,
        }
    }

    /// Goes on, given whether the inode is there.
    pub fn resume(self, present: bool) -> (walk: Walk)
        requires
            Walk::Presence(self).wf(),
        ensures
            goes_on(Walk::Presence(self), Answer::Presence(present), walk),
    {
        proof {
            law_invariant_is_kept(Walk::Presence(self)@, Answer::Presence(present));
        }
        let mut walker: Walker = self.walker;
        let pos: usize = self.pos;
        if walker.should_update_inode(pos, present) {
            Walk::Path(AwaitPath { walker, pos })
        } else {
            walker.visit(pos + 1)
        }
    }
}

impl AwaitPath {
    /// The inode whose path is needed.
    pub fn inode(&self) -> (inode: u64)
        requires
            Walk::Path(*self).wf(),
        ensures
            Walk::Path(*self)@ matches WalkView::Path { state, pos } && inode
                == state.inodes[pos as int].inode,
    {
        self.walker.fs.inodes.inodes[self.pos].inode
    }

    /// Goes on with the path, or the error that reading it gave: the names along it, as far as it
    /// is below the shared directory, are looked up.
    pub fn resume(self, path: Result<Vec<u8>, IoError>) -> (walk: Walk)
        requires
            Walk::Path(self).wf(),
        ensures
            goes_on(Walk::Path(self), Answer::Path(path_meaning(path)), walk),
    {
        proof {
            law_invariant_is_kept(Walk::Path(self)@, Answer::Path(path_meaning(path)));
        }
        let walker: Walker = self.walker;
        let pos: usize = self.pos;
        let abs_path: Vec<u8> = match path {
            Err(err) => {
                return walker.visit_after_error(
                    pos,
                    err.context("Failed to get path from /proc/self/fd"),
                );
            },
            Ok(path) => path,
        };
        let rel_bytes: &[u8] = match relative_path(
            abs_path.as_slice(),
            walker.shared_dir.as_slice(),
        ) {
            Err(err) => return walker.visit_after_error(pos, err),
            Ok(rest) => rest,
        };
        let rel_path: String = match str_from_utf8(rel_bytes) {
            None => {
                let rel_bytes: Vec<u8> = vstd::slice::slice_to_vec(rel_bytes);
                return walker.visit_after_error(
                    pos,
                    IoError::NotUtf8 { path: abs_path, rel_bytes },
                );
            },
            Some(text) => text.to_owned(),
        };
        let elements: Vec<String> = split_path(rel_path.as_str());
        walker.follow(pos, Trail { rel_path, elements, next: 0, parent: ROOT_ID })
    }
}

impl AwaitEntry {
    /// The directory to look in.
    pub fn parent(&self) -> (parent: u64)
        ensures
            Walk::Entry(*self)@ matches WalkView::Entry { trail, .. } && parent == trail.parent,
    {
        self.trail.parent
    }

    /// The name to look up.
    pub fn name(&self) -> (name: &str)
        requires
            Walk::Entry(*self).wf(),
        ensures
            Walk::Entry(*self)@ matches WalkView::Entry { trail, .. } && name@
                == trail.elements[trail.next as int],
    {
        self.trail.elements[self.trail.next].as_str()
    }

    /// Goes on with the inode that was found and its reference count, or the error that looking it
    /// up gave.  An inode that was not known is added, and the number that the next new one gets
    /// stays above its own.
    pub fn resume(self, entry: Result<(u64, u64), IoError>) -> (walk: Walk)
        requires
            Walk::Entry(self).wf(),
        ensures
            goes_on(Walk::Entry(self), Answer::Entry(meaning(entry)), walk),
    {
        proof {
            law_invariant_is_kept(Walk::Entry(self)@, Answer::Entry(meaning(entry)));
        }
        let mut walker: Walker = self.walker;
        let pos: usize = self.pos;
        let mut trail: Trail = self.trail;
        let (inode, refcount): (u64, u64) = match entry {
            Err(err) => return walker.visit_after_error(pos, err),
            Ok(found) => found,
        };
        proof {
            lemma_with_entry(walker.fs.inodes@, inode, refcount);
        }
        let place: usize = match walker.fs.inodes.find(inode) {
            Some(place) => place,
            None => {
                let place: usize = walker.fs.inodes.inodes.len();
                walker.fs.inodes.add_inode(InodeData { inode, refcount, migration_info: None });
                if inode >= walker.fs.next_inode {
                    walker.fs.next_inode = inode.saturating_add(1);
                }
                place
            },
        };
        match walker.fs.inodes.inodes[place].migration_info {
            None => Walk::Info(AwaitInfo { walker, pos, trail, entry: place }),
            Some(_) => {
                assert(trail.next < trail.elements.len());
                trail.next = trail.next + 1;
                trail.parent = inode;
                walker.follow(pos, trail)
            },
        }
    }
}

impl AwaitInfo {
    /// The inode for which a handle may be needed.
    pub fn inode(&self) -> (inode: u64)
        requires
            Walk::Info(*self).wf(),
        ensures
            Walk::Info(*self)@ matches WalkView::Info { state, entry, .. } && inode
                == state.inodes[entry as int].inode,
    {
        self.walker.fs.inodes.inodes[self.entry].inode
    }

    /// Whether a handle is needed.
    pub fn needs_handle(&self) -> (needed: bool)
        ensures
            needed == Walk::Info(*self).fs().cfg.migration_verify_handles,
    {
        self.walker.fs.cfg.migration_verify_handles
    }

    /// Goes on with the file handle, or the error that generating it gave: the inode's location is
    /// its name in the directory that the path has led to so far.
    pub fn resume(self, file_handle: Result<Option<SerializableFileHandle>, IoError>) -> (walk:
        Walk)
        requires
            Walk::Info(self).wf(),
        ensures
            goes_on(Walk::Info(self), Answer::Info(handle_meaning(file_handle)), walk),
    {
        proof {
            law_invariant_is_kept(Walk::Info(self)@, Answer::Info(handle_meaning(file_handle)));
        }
        let mut walker: Walker = self.walker;
        let pos: usize = self.pos;
        let mut trail: Trail = self.trail;
        let entry: usize = self.entry;
        let file_handle: Option<SerializableFileHandle> = match file_handle {
            Err(err) => return walker.visit_after_error(pos, err),
            Ok(file_handle) => file_handle,
        };
        let info: InodeMigrationInfo = InodeMigrationInfo {
            location: InodeLocation::Path(
                InodePath {
                    parent: trail.parent,
                    filename: trail.elements[trail.next].clone(),
                },
            ),
            file_handle,
        };
        let inode: u64 = walker.fs.inodes.inodes[entry].inode;
        walker.fs.inodes.set_info(entry, Some(info));
        assert(trail.next < trail.elements.len());
        trail.next = trail.next + 1;
        trail.parent = inode;
        walker.follow(pos, trail)
    }
}

} // verus!
