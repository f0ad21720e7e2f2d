//! Confirming paths: what a walk over the inodes asks for, and what it makes of the answers.

use vstd::prelude::*;

use crate::passthrough::device_state::preserialization::proc_paths;
use crate::passthrough::device_state::preserialization::proc_paths::{
    split_path, AwaitEntry, AwaitInfo, AwaitPath, AwaitPresence, AwaitRootPath, ConfirmPaths,
    TrailState, Walk, WalkState, WalkView,
};
use crate::passthrough::device_state::preserialization::{
    InodeLocation, LocationState, SerializableFileHandle,
};
use crate::passthrough::inode_store::{InodeErrorView, InodeState};
use crate::passthrough::PassthroughFs;
use crate::util::{IoError, IoErrorView};

verus! {

/// The text can be a name in a directory: it is not empty, and holds no slash.
pub open spec fn is_name(text: Seq<char>) -> bool {
    text.len() > 0 && has_no_slash(text)
}

/// The text holds no slash.
pub open spec fn has_no_slash(text: Seq<char>) -> bool {
    forall|i: int| 0 <= i < text.len() ==> text[i] != '/'
}

/// The names, with a slash between one and the next.
pub open spec fn joined(names: Seq<Seq<char>>) -> Seq<char>
    decreases names.len(),
{
    if names.len() == 0 {
        seq![]
    } else if names.len() == 1 {
        names[0]
    } else {
        names[0] + seq!['/'] + joined(names.drop_first())
    }
}

/// Splitting a path is to split what is before a slash and what is behind it.
proof fn lemma_elements_by_slash(a: Seq<char>, b: Seq<char>, at_start: bool)
    ensures
        proc_paths::path_elements(a + seq!['/'] + b, at_start) == proc_paths::path_elements(
            a,
            at_start,
        ) + proc_paths::path_elements(b, false),
    decreases a.len(),
{
    let whole = a + seq!['/'] + b;
    let n = proc_paths::until_slash(a);
    lemma_until_slash_is_first(a);
    assert forall|i: int| 0 <= i < n implies whole[i] != '/' by {
        assert(whole[i] == a[i]);
    }
    if n < a.len() {
        assert(whole[n as int] == a[n as int]);
        proc_paths::lemma_until_slash(whole, n);
        let rest = a.skip(n as int + 1);
        lemma_elements_by_slash(rest, b, false);
        assert(whole.take(n as int) =~= a.take(n as int));
        assert(whole.skip(n as int + 1) =~= rest + seq!['/'] + b);
        let name = a.take(n as int);
        assert(proc_paths::path_elements(whole, at_start) =~= proc_paths::path_elements(
            a,
            at_start,
        ) + proc_paths::path_elements(b, false));
    } else {
        assert(whole[n as int] == '/');
        proc_paths::lemma_until_slash(whole, n);
        assert(whole.take(n as int) =~= a);
        assert(a.take(n as int) =~= a);
        assert(whole.skip(n as int + 1) =~= b);
        assert(proc_paths::path_elements(seq![], false) =~= seq![]);
        assert(proc_paths::path_elements(whole, at_start) =~= proc_paths::path_elements(
            a,
            at_start,
        ) + proc_paths::path_elements(b, false));
    }
}

/// What is counted up to a slash has none.
proof fn lemma_until_slash_is_first(s: Seq<char>)
    ensures
        proc_paths::until_slash(s) <= s.len(),
        proc_paths::until_slash(s) < s.len() ==> s[proc_paths::until_slash(s) as int] == '/',
        forall|i: int| 0 <= i < proc_paths::until_slash(s) ==> s[i] != '/',
    decreases s.len(),
{
    if s.len() > 0 && s[0] != '/' {
        let rest = s.drop_first();
        lemma_until_slash_is_first(rest);
        assert forall|i: int| 0 <= i < proc_paths::until_slash(s) implies s[i] != '/' by {
            if i > 0 {
                assert(rest[i - 1] != '/');
            }
        }
    }
}

/// A text without a slash is one name, or none.
proof fn lemma_elements_of_name(name: Seq<char>, at_start: bool)
    requires
        has_no_slash(name),
    ensures
        proc_paths::path_elements(name, at_start) == (if name.len() == 0 || (name == seq!['.']
            && !at_start) {
            seq![]
        } else {
            seq![name]
        }),
{
    proc_paths::lemma_until_slash(name, name.len());
    assert(name.take(name.len() as int) =~= name);
    assert(proc_paths::path_elements(seq![], false) =~= seq![]);
    if name.len() > 0 && !(name == seq!['.'] && !at_start) {
        assert(proc_paths::path_elements(name, at_start) =~= seq![name]);
    }
}

/// The names that are joined are those that the path is split into.
proof fn lemma_elements_of_joined(names: Seq<Seq<char>>, at_start: bool)
    requires
        forall|i: int| 0 <= i < names.len() ==> is_name(#[trigger] names[i]),
        forall|i: int|
            0 <= i < names.len() && (i > 0 || !at_start) ==> #[trigger] names[i] != seq!['.'],
    ensures
        proc_paths::path_elements(joined(names), at_start) == names,
    decreases names.len(),
{
    if names.len() == 0 {
        assert(proc_paths::path_elements(joined(names), at_start) =~= names);
    } else {
        assert(is_name(names[0]));
        assert(at_start || names[0] != seq!['.']);
        lemma_elements_of_name(names[0], at_start);
        if names.len() == 1 {
            assert(proc_paths::path_elements(joined(names), at_start) =~= names);
        } else {
            let rest = names.drop_first();
            assert forall|i: int| 0 <= i < rest.len() implies is_name(#[trigger] rest[i]) && rest[i]
                != seq!['.'] by {
                assert(rest[i] == names[i + 1]);
            }
            lemma_elements_of_joined(rest, false);
            lemma_elements_by_slash(names[0], joined(rest), at_start);
            assert(proc_paths::path_elements(joined(names), at_start) =~= names);
        }
    }
}

/// Splitting a path gives back the names that it was joined of.
pub proof fn law_splitting_undoes_joining(
    names: Seq<Seq<char>>,
    path: &str,
    elements: Vec<String>,
)
    requires
        forall|i: int| 0 <= i < names.len() ==> is_name(#[trigger] names[i]),
        forall|i: int| 0 < i < names.len() ==> #[trigger] names[i] != seq!['.'],
        path@ == joined(names),
        call_ensures(split_path, (path,), elements),
    ensures
        elements@.len() == names.len(),
        forall|i: int| 0 <= i < names.len() ==> (#[trigger] elements@[i])@ == names[i],
{
    lemma_elements_of_joined(names, true);
    assert(proc_paths::texts(elements@).len() == elements@.len());
    assert forall|i: int| 0 <= i < names.len() implies (#[trigger] elements@[i])@ == names[i] by {
        assert(proc_paths::texts(elements@)[i] == elements@[i]@);
    }
}

/// Every path is split at its slashes: what is before one and what is behind it are split each for
/// itself.  Empty names are left out, and so is a dot, except at the start.
pub proof fn law_paths_are_split_at_slashes(
    before: &str,
    behind: &str,
    whole: &str,
    elements_before: Vec<String>,
    elements_behind: Vec<String>,
    elements: Vec<String>,
)
    requires
        call_ensures(split_path, (before,), elements_before),
        call_ensures(split_path, (behind,), elements_behind),
        call_ensures(split_path, (whole,), elements),
        behind@.len() > 0 && behind@[0] == '/',
        whole@ == before@ + behind@,
    ensures
        proc_paths::texts(elements@) == proc_paths::texts(elements_before@) + proc_paths::texts(
            elements_behind@,
        ),
        has_no_slash(before@) ==> proc_paths::texts(elements_before@) == (if before@.len() == 0 {
            seq![]
        } else {
            seq![before@]
        }),
        has_no_slash(behind@.drop_first()) ==> proc_paths::texts(elements_behind@) == (
        if behind@.drop_first().len() == 0 || behind@.drop_first() == seq!['.'] {
            seq![]
        } else {
            seq![behind@.drop_first()]
        }),
{
    let rest = behind@.drop_first();
    assert(whole@ =~= before@ + seq!['/'] + rest);
    assert(behind@ =~= Seq::<char>::empty() + seq!['/'] + rest);
    lemma_elements_by_slash(before@, rest, true);
    lemma_elements_by_slash(Seq::empty(), rest, true);
    assert(proc_paths::path_elements(Seq::empty(), true) =~= seq![]);
    assert(proc_paths::path_elements(behind@, true) =~= proc_paths::path_elements(rest, false));
    if has_no_slash(before@) {
        lemma_elements_of_name(before@, true);
    }
    if has_no_slash(rest) {
        lemma_elements_of_name(rest, false);
    }
}

/// Of the file system, nothing but the inodes and the number that the next new one gets differs.
pub open spec fn keeps_all_but_inodes(before: PassthroughFs, after: PassthroughFs) -> bool {
    &&& after.handles == before.handles
    &&& after.next_handle == before.next_handle
    &&& after.writeback == before.writeback
    &&& after.announce_submounts == before.announce_submounts
    &&& after.posix_acl == before.posix_acl
    &&& after.sup_group_extension == before.sup_group_extension
    &&& after.track_migration_info == before.track_migration_info
    &&& after.cfg == before.cfg
}

/// The walk has come to the inode at `pos`: it asks where that is, if it has no location, and whether
/// it is there, if it has one.  Behind the last inode, it is over, and its outcome is the first of
/// the errors, if there are any.
pub open spec fn has_come_to(walk: Walk, state: WalkState, pos: nat) -> bool {
    if pos < state.end {
        if state.inodes[pos as int].info is None {
            walk is Path && walk@ == (WalkView::Path { state, pos })
        } else {
            walk is Presence && walk@ == (WalkView::Presence { state, pos })
        }
    } else {
        &&& walk matches Walk::Done(done)
        &&& done.fs.inodes@ == state.inodes
        &&& crate::passthrough::inode_store::errors_meaning(done.errors@) == state.errors
        &&& state.errors.len() == 0 ==> done.result is Ok
        &&& state.errors.len() > 0 ==> (done.result matches Err(err) && err@
            == state.errors[0].error)
    }
}

/// The walk has come to the inode behind the one at `pos`, for which `err` was noted.
pub open spec fn has_noted(walk: Walk, state: WalkState, pos: nat, err: IoErrorView) -> bool {
    has_come_to(
        walk,
        WalkState {
            errors: state.errors.push(
                InodeErrorView { inode: state.inodes[pos as int].inode, error: err },
            ),
            ..state
        },
        pos + 1,
    )
}

/// The walk has followed a path up to the inode `parent`, over `next` of its names: it asks for the
/// following name there, or, behind the last one, goes on with the next inode, if the path has led to
/// the inode at `pos`, and notes an error otherwise.
pub open spec fn has_followed(
    walk: Walk,
    state: WalkState,
    pos: nat,
    rel_path: Seq<char>,
    elements: Seq<Seq<char>>,
    next: nat,
    parent: u64,
) -> bool {
    if next < elements.len() {
        walk is Entry && walk@ == (WalkView::Entry {
            state,
            pos,
            trail: TrailState { rel_path, elements, next, parent },
        })
    } else if parent == state.inodes[pos as int].inode {
        has_come_to(walk, state, pos + 1)
    } else {
        has_noted(walk, state, pos, IoErrorView::NotUnderPath { rel_path })
    }
}

/// A walk over a file system starts at its root.  Without one it is over at once, without an error
/// only if there are no inodes at all.
pub proof fn law_walk_starts_at_root(
    fs: PassthroughFs,
    checker: ConfirmPaths,
    walk: Walk,
    root: int,
)
    requires
        call_ensures(ConfirmPaths::new, (fs,), checker),
        call_ensures(ConfirmPaths::confirm_paths, (checker,), walk),
    ensures
        walk.fs() == fs,
        0 <= root < fs.inodes@.len() && fs.inodes@[root].inode == 1 ==> walk is RootPath && walk@
            == (WalkView::RootPath { inodes: fs.inodes@ }),
        (forall|i: int| 0 <= i < fs.inodes@.len() ==> (#[trigger] fs.inodes@[i]).inode != 1) ==> {
            &&& walk matches Walk::Done(done)
            &&& done.fs == fs
            &&& done.errors@.len() == 0
            &&& fs.inodes@.len() == 0 ==> done.result is Ok
            &&& fs.inodes@.len() > 0 ==> (done.result matches Err(IoError::Other(text)) && text@
                == "Root node not found"@)
        },
{
    walk.lemma_view();
    if walk is Done {
        assert(crate::passthrough::inode_store::errors_meaning(walk->Done_0.errors@).len()
            == walk->Done_0.errors@.len());
    }
}

/// With the path of the shared directory, the walk comes to the first inode, and has all of them
/// before it; without it, it is over.
pub proof fn law_root_path_starts_walk(
    step: AwaitRootPath,
    inode: u64,
    path: Vec<u8>,
    next: Walk,
    err: IoError,
    failed: Walk,
)
    requires
        Walk::RootPath(step).wf(),
        call_ensures(AwaitRootPath::inode, (&step,), inode),
        call_ensures(AwaitRootPath::resume, (step, Ok::<Vec<u8>, IoError>(path)), next),
        call_ensures(AwaitRootPath::resume, (step, Err::<Vec<u8>, IoError>(err)), failed),
    ensures
        inode == 1,
        ({
            let inodes = Walk::RootPath(step).fs().inodes@;
            has_come_to(
                next,
                WalkState { inodes, shared_dir: path@, end: inodes.len(), errors: seq![] },
                0,
            )
        }),
        keeps_all_but_inodes(Walk::RootPath(step).fs(), next.fs()),
        next.fs().next_inode == Walk::RootPath(step).fs().next_inode,
        ({
            &&& failed matches Walk::Done(done)
            &&& done.errors@.len() == 0
            &&& done.fs.inodes@ == Walk::RootPath(step).fs().inodes@
            &&& done.result matches Err(IoError::Context { context, source })
            &&& context@ == "Failed to get shared directory's path"@
            &&& source@ == err@
        }),
{
    Walk::RootPath(step).lemma_view();
    next.lemma_view();
    failed.lemma_view();
    assert(crate::passthrough::inode_store::errors_meaning(failed->Done_0.errors@).len()
        == failed->Done_0.errors@.len());
}

/// An inode that is where it is said to be is left alone; the location of one that is not is
/// forgotten, and its path asked for.
pub proof fn law_lost_inodes_are_looked_up(
    step: AwaitPresence,
    inode: u64,
    location: Option<&InodeLocation>,
    next: Walk,
    lost: Walk,
    i: int,
)
    requires
        Walk::Presence(step).wf(),
        call_ensures(AwaitPresence::inode, (&step,), inode),
        call_ensures(AwaitPresence::location, (&step,), location),
        call_ensures(AwaitPresence::resume, (step, true), next),
        call_ensures(AwaitPresence::resume, (step, false), lost),
    ensures
        ({
            let view = Walk::Presence(step)@;
            &&& view matches WalkView::Presence { state, pos }
            &&& inode == state.inodes[pos as int].inode
            &&& state.inodes[pos as int].info matches Some(info)
            &&& location matches Some(said)
            &&& said@ == info.location
            &&& has_come_to(next, state, pos + 1)
            &&& lost is Path
            &&& lost@ matches WalkView::Path { state: after, pos: same_pos }
            &&& same_pos == pos
            &&& after.shared_dir == state.shared_dir
            &&& after.end == state.end
            &&& after.errors == state.errors
            &&& after.inodes.len() == state.inodes.len()
            &&& 0 <= i < state.inodes.len() && i != pos ==> after.inodes[i] == state.inodes[i]
            &&& after.inodes[pos as int].info is None
            &&& after.inodes[pos as int].inode == state.inodes[pos as int].inode
            &&& after.inodes[pos as int].refcount == state.inodes[pos as int].refcount
        }),
        keeps_all_but_inodes(Walk::Presence(step).fs(), next.fs()),
        keeps_all_but_inodes(Walk::Presence(step).fs(), lost.fs()),
        next.fs().next_inode == Walk::Presence(step).fs().next_inode,
        lost.fs().next_inode == Walk::Presence(step).fs().next_inode,
{
    Walk::Presence(step).lemma_view();
    next.lemma_view();
    lost.lemma_view();
}

/// The path of an inode is followed from the root of the shared directory, name by name.  One that
/// cannot be read, is outside the directory, or is no text, is an error.
pub proof fn law_paths_are_followed_from_root(
    step: AwaitPath,
    inode: u64,
    path: Vec<u8>,
    next: Walk,
    slashes: nat,
    rest: Seq<u8>,
    rel_path: &str,
    elements: Vec<String>,
    err: IoError,
    failed: Walk,
)
    requires
        Walk::Path(step).wf(),
        call_ensures(AwaitPath::inode, (&step,), inode),
        call_ensures(AwaitPath::resume, (step, Ok::<Vec<u8>, IoError>(path)), next),
        call_ensures(AwaitPath::resume, (step, Err::<Vec<u8>, IoError>(err)), failed),
        rest.len() > 0 ==> rest[0] != 0x2f,
        vstd::utf8::valid_utf8(rest) ==> rel_path@ == vstd::utf8::decode_utf8(rest),
        call_ensures(split_path, (rel_path,), elements),
    ensures
        ({
            let view = Walk::Path(step)@;
            &&& view matches WalkView::Path { state, pos }
            &&& inode == state.inodes[pos as int].inode
            &&& has_noted(
                failed,
                state,
                pos,
                IoErrorView::Context {
                    context: "Failed to get path from /proc/self/fd"@,
                    source: Box::new(err@),
                },
            )
            &&& !state.shared_dir.is_prefix_of(path@) ==> has_noted(
                next,
                state,
                pos,
                IoErrorView::OutsideDirectory { path: path@, prefix: state.shared_dir },
            )
            &&& path@ == state.shared_dir + Seq::new(slashes, |i: int| 0x2fu8) + rest ==> {
                if vstd::utf8::valid_utf8(rest) {
                    has_followed(
                        next,
                        state,
                        pos,
                        rel_path@,
                        proc_paths::texts(elements@),
                        0,
                        1,
                    )
                } else {
                    has_noted(
                        next,
                        state,
                        pos,
                        IoErrorView::NotUtf8 { path: path@, rel_bytes: rest },
                    )
                }
            }
        }),
        keeps_all_but_inodes(Walk::Path(step).fs(), next.fs()),
        keeps_all_but_inodes(Walk::Path(step).fs(), failed.fs()),
        next.fs().next_inode == Walk::Path(step).fs().next_inode,
        failed.fs().next_inode == Walk::Path(step).fs().next_inode,
{
    Walk::Path(step).lemma_view();
    next.lemma_view();
    failed.lemma_view();
    if let WalkView::Path { state, pos } = Walk::Path(step)@ {
        if path@ == state.shared_dir + Seq::new(slashes, |i: int| 0x2fu8) + rest {
            crate::laws::paths::lemma_slashes_are_removed(slashes, rest);
            assert(state.shared_dir =~= path@.subrange(0, state.shared_dir.len() as int));
            assert(path@.skip(state.shared_dir.len() as int) =~= Seq::new(
                slashes,
                |i: int| 0x2fu8,
            ) + rest);
        }
    }
}

/// The inode that a name leads to is where the path goes on, if it has a location; else it is given
/// one first.  An inode that was not known is added behind the others, and the number that the next
/// new one gets stays above its own.  The name is looked up in the directory that the path has led
/// to; an error of that is noted for the inode whose path it is.
pub proof fn law_names_lead_along_path(
    step: AwaitEntry,
    parent: u64,
    name: &str,
    inode: u64,
    refcount: u64,
    next: Walk,
    at: int,
    err: IoError,
    failed: Walk,
)
    requires
        Walk::Entry(step).wf(),
        call_ensures(AwaitEntry::parent, (&step,), parent),
        call_ensures(AwaitEntry::name, (&step,), name),
        call_ensures(AwaitEntry::resume, (step, Ok::<(u64, u64), IoError>((inode, refcount))), next),
        call_ensures(AwaitEntry::resume, (step, Err::<(u64, u64), IoError>(err)), failed),
    ensures
        ({
            let view = Walk::Entry(step)@;
            &&& view matches WalkView::Entry { state, pos, trail }
            &&& parent == trail.parent
            &&& trail.next < trail.elements.len()
            &&& name@ == trail.elements[trail.next as int]
            &&& has_noted(failed, state, pos, err@)
            &&& 0 <= at < state.inodes.len() && state.inodes[at].inode == inode ==> {
                &&& next.fs().next_inode == Walk::Entry(step).fs().next_inode
                &&& if state.inodes[at].info is Some {
                    has_followed(
                        next,
                        state,
                        pos,
                        trail.rel_path,
                        trail.elements,
                        trail.next + 1,
                        inode,
                    )
                } else {
                    next is Info && next@ == (WalkView::Info {
                        state,
                        pos,
                        trail,
                        entry: at as nat,
                    })
                }
            }
            &&& (forall|i: int|
                0 <= i < state.inodes.len() ==> (#[trigger] state.inodes[i]).inode != inode) ==> {
                let before = Walk::Entry(step).fs().next_inode;
                &&& inode < before ==> next.fs().next_inode == before
                &&& before <= inode < u64::MAX ==> next.fs().next_inode == inode + 1
                &&& next is Info
                &&& next@ == (WalkView::Info {
                    state: WalkState {
                        inodes: state.inodes.push(InodeState { inode, refcount, info: None }),
                        ..state
                    },
                    pos,
                    trail,
                    entry: state.inodes.len(),
                })
            }
        }),
        keeps_all_but_inodes(Walk::Entry(step).fs(), next.fs()),
        keeps_all_but_inodes(Walk::Entry(step).fs(), failed.fs()),
        failed.fs().next_inode == Walk::Entry(step).fs().next_inode,
{
    Walk::Entry(step).lemma_view();
    next.lemma_view();
    failed.lemma_view();
    if let WalkView::Entry { state, pos, trail } = Walk::Entry(step)@ {
        proc_paths::lemma_with_entry(state.inodes, inode, refcount);
    }
}

/// The location that an inode is given is exactly where it was found: the directory that the path
/// has led to, and the name that was looked up there.  Nothing else changes, and the path goes on
/// from that inode.  Without the file handle that is needed, nothing changes at all, and the error is
/// noted for the inode whose path it is.
pub proof fn law_located_inodes_continue_path(
    step: AwaitInfo,
    inode: u64,
    needed: bool,
    handle: Option<SerializableFileHandle>,
    next: Walk,
    err: IoError,
    failed: Walk,
)
    requires
        Walk::Info(step).wf(),
        call_ensures(AwaitInfo::inode, (&step,), inode),
        call_ensures(AwaitInfo::needs_handle, (&step,), needed),
        call_ensures(
            AwaitInfo::resume,
            (step, Ok::<Option<SerializableFileHandle>, IoError>(handle)),
            next,
        ),
        call_ensures(
            AwaitInfo::resume,
            (step, Err::<Option<SerializableFileHandle>, IoError>(err)),
            failed,
        ),
    ensures
        needed == Walk::Info(step).fs().cfg.migration_verify_handles,
        ({
            let view = Walk::Info(step)@;
            &&& view matches WalkView::Info { state, pos, trail, entry }
            &&& inode == state.inodes[entry as int].inode
            &&& has_noted(failed, state, pos, err@)
            &&& has_followed(
                next,
                WalkState { inodes: next.fs().inodes@, ..state },
                pos,
                trail.rel_path,
                trail.elements,
                trail.next + 1,
                inode,
            )
            &&& next.fs().inodes@.len() == state.inodes.len()
            &&& forall|i: int|
                0 <= i < state.inodes.len() && i != entry ==> #[trigger] next.fs().inodes@[i]
                    == state.inodes[i]
            &&& next.fs().inodes@[entry as int].inode == inode
            &&& next.fs().inodes@[entry as int].refcount == state.inodes[entry as int].refcount
            &&& next.fs().inodes@[entry as int].info matches Some(info)
            &&& info.location == (LocationState::Path {
                parent: trail.parent,
                filename: trail.elements[trail.next as int],
            })
            &&& match handle {
                Some(given) => info.file_handle == Some(given.bytes@),
                None => info.file_handle is None,
            }
        }),
        keeps_all_but_inodes(Walk::Info(step).fs(), next.fs()),
        keeps_all_but_inodes(Walk::Info(step).fs(), failed.fs()),
        next.fs().next_inode == Walk::Info(step).fs().next_inode,
        failed.fs().next_inode == Walk::Info(step).fs().next_inode,
{
    Walk::Info(step).lemma_view();
    next.lemma_view();
    failed.lemma_view();
}

/// Whenever looking up a name has led to an inode without a location, and that is then given one, it
/// is the directory and the name that were asked for, as they were asked for; and every other inode
/// keeps what it had.
pub proof fn law_location_is_what_was_looked_up(
    step: AwaitEntry,
    parent: u64,
    name: &str,
    inode: u64,
    refcount: u64,
    info_step: AwaitInfo,
    handle: Option<SerializableFileHandle>,
    next: Walk,
    i: int,
)
    requires
        Walk::Entry(step).wf(),
        call_ensures(AwaitEntry::parent, (&step,), parent),
        call_ensures(AwaitEntry::name, (&step,), name),
        call_ensures(
            AwaitEntry::resume,
            (step, Ok::<(u64, u64), IoError>((inode, refcount))),
            Walk::Info(info_step),
        ),
        call_ensures(
            AwaitInfo::resume,
            (info_step, Ok::<Option<SerializableFileHandle>, IoError>(handle)),
            next,
        ),
        0 <= i < next.fs().inodes@.len(),
    ensures
        next.fs().inodes@[i].inode == inode ==> {
            &&& next.fs().inodes@[i].info matches Some(info)
            &&& info.location == (LocationState::Path { parent, filename: name@ })
        },
        next.fs().inodes@[i].inode != inode ==> i < Walk::Entry(step).fs().inodes@.len()
            && next.fs().inodes@[i] == Walk::Entry(step).fs().inodes@[i],
        next is Entry ==> {
            &&& Walk::Entry(step)@ matches WalkView::Entry { pos, trail: before, .. }
            &&& next@ matches WalkView::Entry { pos: same_pos, trail, .. }
            &&& same_pos == pos
            &&& trail.elements == before.elements
            &&& trail.next == before.next + 1
            &&& trail.parent == inode
        },
{
    Walk::Entry(step).lemma_view();
    Walk::Info(info_step).lemma_view();
    next.lemma_view();
    if let WalkView::Entry { state, pos, trail } = Walk::Entry(step)@ {
        proc_paths::lemma_with_entry(state.inodes, inode, refcount);
        let inodes = proc_paths::with_entry(state.inodes, inode, refcount);
        let place = proc_paths::place_of(inodes, inode);
        assert(next.fs().inodes@.len() == inodes.len());
        if i != place {
            assert(next.fs().inodes@[i] == inodes[i]);
            assert(inodes[i].inode != inode);
        }
    }
}

/// The inode at `i` has the given ID, and is located in the directory `parent` under the given name.
pub open spec fn is_located(
    inodes: Seq<InodeState>,
    i: int,
    inode: u64,
    parent: u64,
    name: Seq<char>,
) -> bool {
    &&& 0 <= i < inodes.len()
    &&& inodes[i].inode == inode
    &&& inodes[i].info matches Some(info)
    &&& info.location == (LocationState::Path { parent, filename: name })
}

/// Following the recorded directories from the inode up to the root gives the names, from the last
/// one to the first.
pub open spec fn spells(inodes: Seq<InodeState>, inode: u64, names: Seq<Seq<char>>) -> bool
    decreases names.len(),
{
    if names.len() == 0 {
        inode == 1
    } else {
        exists|i: int, parent: u64| #[trigger]
            is_located(inodes, i, inode, parent, names.last()) && spells(
                inodes,
                parent,
                names.drop_last(),
            )
    }
}

/// What is spelled stays so as long as no location changes.
proof fn lemma_spelling_is_kept(
    before: Seq<InodeState>,
    after: Seq<InodeState>,
    inode: u64,
    names: Seq<Seq<char>>,
)
    requires
        spells(before, inode, names),
        forall|i: int|
            0 <= i < before.len() && (#[trigger] before[i]).info is Some ==> i < after.len()
                && after[i] == before[i],
    ensures
        spells(after, inode, names),
    decreases names.len(),
{
    if names.len() > 0 {
        let (i, parent) = choose|i: int, parent: u64| #[trigger]
            is_located(before, i, inode, parent, names.last()) && spells(
                before,
                parent,
                names.drop_last(),
            );
        lemma_spelling_is_kept(before, after, parent, names.drop_last());
        assert(is_located(after, i, inode, parent, names.last()));
    }
}

/// Following the recorded directories from a located inode up to the root spells the path that the
/// host reported: if it does so for the directory that the path has led to, it does so, with one name
/// more, for the inode that is located there.  (At the root it does so for no names.)
pub proof fn law_recorded_directories_spell_path(
    step: AwaitEntry,
    inode: u64,
    refcount: u64,
    info_step: AwaitInfo,
    handle: Option<SerializableFileHandle>,
    next: Walk,
    elements: Seq<Seq<char>>,
    n: nat,
    parent: u64,
    name: &str,
)
    requires
        Walk::Entry(step).wf(),
        call_ensures(AwaitEntry::parent, (&step,), parent),
        call_ensures(AwaitEntry::name, (&step,), name),
        call_ensures(
            AwaitEntry::resume,
            (step, Ok::<(u64, u64), IoError>((inode, refcount))),
            Walk::Info(info_step),
        ),
        call_ensures(
            AwaitInfo::resume,
            (info_step, Ok::<Option<SerializableFileHandle>, IoError>(handle)),
            next,
        ),
        n < elements.len(),
        elements[n as int] == name@,
        spells(Walk::Entry(step).fs().inodes@, parent, elements.take(n as int)),
    ensures
        spells(next.fs().inodes@, inode, elements.take(n as int + 1)),
{
    let before = Walk::Entry(step).fs().inodes@;
    let after = next.fs().inodes@;
    Walk::Entry(step).lemma_view();
    Walk::Info(info_step).lemma_view();
    next.lemma_view();
    if let WalkView::Entry { state, pos, trail } = Walk::Entry(step)@ {
        proc_paths::lemma_with_entry(state.inodes, inode, refcount);
        let inodes = proc_paths::with_entry(state.inodes, inode, refcount);
        let place = proc_paths::place_of(inodes, inode);
        assert forall|i: int| 0 <= i < before.len() && (#[trigger] before[i]).info is Some implies i
            < after.len() && after[i] == before[i] by {
            assert(inodes[i] == state.inodes[i]);
            assert(i != place);
        }
        lemma_spelling_is_kept(before, after, parent, elements.take(n as int));
        let names = elements.take(n as int + 1);
        assert(names.drop_last() =~= elements.take(n as int));
        assert(names.last() == name@);
        law_location_is_what_was_looked_up(
            step,
            parent,
            name,
            inode,
            refcount,
            info_step,
            handle,
            next,
            place,
        );
        assert(is_located(after, place, inode, parent, names.last()));
    }
}

} // verus!
