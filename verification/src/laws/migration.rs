//! Migration: what is sent of a file system, and what is left of it.

use vstd::prelude::*;

use crate::passthrough::device_state::preserialization::{
    HandleMigrationInfo, InodeLocation, InodeMigrationInfo, SerializableFileHandle,
};
use crate::passthrough::device_state::serialization::check_root_marks;
use crate::passthrough::device_state::{serialized, Preparation, Serialization};
use crate::passthrough::inode_store::{
    InodeData, InodeError, InodeErrorView, InodeState, InodeStore,
};
use crate::passthrough::{Handle, HandleData, MigrationMode, PassthroughFs};
use crate::util::{IoError, IoErrorView};

verus! {

/// Both locations are the same place.
pub open spec fn is_same_place(sent: serialized::InodeLocation, known: InodeLocation) -> bool {
    match known {
        InodeLocation::RootNode => sent is RootNode,
        InodeLocation::Path(path) => sent matches serialized::InodeLocation::Path {
            parent,
            filename,
        } && parent == path.parent && filename@ == path.filename@,
    }
}

/// The location of an inode is sent as it is known.
pub proof fn law_location_is_sent_as_known(
    info: &InodeMigrationInfo,
    sent: Result<serialized::InodeLocation, IoError>,
)
    requires
        call_ensures(InodeMigrationInfo::as_serialized, (info,), sent),
    ensures
        sent matches Ok(location) && is_same_place(location, info.location),
{
}

/// The destination can be told where to find the inode: its location is known, and its file handle
/// too, if it is to be compared.
pub open spec fn can_be_described(data: InodeData, verify_handles: bool) -> bool {
    data.migration_info matches Some(info) && (verify_handles ==> info.file_handle is Some)
}

/// What is sent of an inode is its ID, its reference count, and where to find it, if that can be
/// described; the file handle is sent only to be compared.
pub open spec fn tells_inode(
    sent: serialized::Inode,
    data: InodeData,
    verify_handles: bool,
) -> bool {
    &&& sent.id == data.inode
    &&& sent.refcount == data.refcount
    &&& if can_be_described(data, verify_handles) {
        &&& is_same_place(sent.location, data.migration_info->0.location)
        &&& if verify_handles {
            sent.file_handle matches Some(handle) && handle.bytes@
                == data.migration_info->0.file_handle->0.bytes@
        } else {
            sent.file_handle is None
        }
    } else {
        sent.location is Invalid && sent.file_handle is None
    }
}

/// An inode that can be described is sent as it is known; of any other, what is missing is an error.
pub proof fn law_inode_is_sent_as_known(
    data: &InodeData,
    fs: &PassthroughFs,
    sent: Result<serialized::Inode, IoError>,
)
    requires
        call_ensures(InodeData::as_serialized, (data, fs), sent),
    ensures
        can_be_described(*data, fs.cfg.migration_verify_handles) ==> (sent matches Ok(inode)
            && tells_inode(inode, *data, fs.cfg.migration_verify_handles)),
        data.migration_info is None ==> (sent matches Err(IoError::Other(text)) && text@
            == "Failed to reconstruct inode location"@),
        data.migration_info is Some && !can_be_described(*data, fs.cfg.migration_verify_handles)
            ==> (sent matches Err(IoError::Other(text)) && text@
            == "No prepared file handle found"@),
{
}

/// What was negotiated with the guest is sent option by option.
pub proof fn law_options_are_sent_one_by_one(fs: &PassthroughFs, opts: serialized::NegotiatedOpts)
    requires
        call_ensures(<serialized::NegotiatedOpts as From<&PassthroughFs>>::from, (fs,), opts),
    ensures
        opts.writeback == fs.writeback,
        opts.announce_submounts == fs.announce_submounts,
        opts.posix_acl == fs.posix_acl,
        opts.sup_group_extension == fs.sup_group_extension,
{
}

/// A handle is sent as its ID, its inode and the flags to open it with.
pub proof fn law_handle_is_sent_as_known(
    handle: Handle,
    data: &HandleData,
    sent: serialized::Handle,
    info: &HandleMigrationInfo,
    source: serialized::HandleSource,
)
    requires
        call_ensures(
            <serialized::Handle as From<(Handle, &HandleData)>>::from,
            ((handle, data),),
            sent,
        ),
        call_ensures(
            <serialized::HandleSource as From<&HandleMigrationInfo>>::from,
            (info,),
            source,
        ),
    ensures
        sent.id == handle,
        sent.inode == data.inode,
        sent.source->flags == data.migration_info->flags,
        source->flags == info->flags,
{
}

/// The state tells everything that there is to be said of the file system: each of its inodes and
/// handles, in order, the IDs that the next ones get, and each option that was negotiated.
pub open spec fn tells_everything(sent: serialized::PassthroughFsV1, fs: PassthroughFs) -> bool {
    &&& sent.inodes@.len() == fs.inodes.inodes@.len()
    &&& forall|i: int|
        0 <= i < sent.inodes@.len() ==> tells_inode(
            #[trigger] sent.inodes@[i],
            fs.inodes.inodes@[i],
            fs.cfg.migration_verify_handles,
        )
    &&& sent.handles@.len() == fs.handles@.len()
    &&& forall|i: int|
        0 <= i < sent.handles@.len() ==> {
            &&& (#[trigger] sent.handles@[i]).id == fs.handles@[i].0
            &&& sent.handles@[i].inode == fs.handles@[i].1.inode
            &&& sent.handles@[i].source->flags == fs.handles@[i].1.migration_info->flags
        }
    &&& sent.next_inode == fs.next_inode
    &&& sent.next_handle == fs.next_handle
    &&& sent.negotiated_opts.writeback == fs.writeback
    &&& sent.negotiated_opts.announce_submounts == fs.announce_submounts
    &&& sent.negotiated_opts.posix_acl == fs.posix_acl
    &&& sent.negotiated_opts.sup_group_extension == fs.sup_group_extension
}

/// A state whose view is what is to be sent tells everything.
proof fn lemma_tells_everything(sent: serialized::PassthroughFsV1, fs: PassthroughFs)
    requires
        sent@ == crate::passthrough::device_state::serialization::fs_as_serialized(fs),
    ensures
        tells_everything(sent, fs),
{
    let expected = crate::passthrough::device_state::serialization::fs_as_serialized(fs);
    assert(sent@.inodes.len() == sent.inodes@.len());
    assert(expected.inodes.len() == fs.inodes@.len());
    assert forall|i: int| 0 <= i < sent.inodes@.len() implies tells_inode(
        #[trigger] sent.inodes@[i],
        fs.inodes.inodes@[i],
        fs.cfg.migration_verify_handles,
    ) by {
        assert(sent@.inodes[i] == sent.inodes@[i]@);
        assert(fs.inodes@[i] == fs.inodes.inodes@[i]@);
        assert(expected.inodes[i]
            == crate::passthrough::device_state::serialization::inode_or_invalid(
            fs.inodes@[i],
            fs.cfg.migration_verify_handles,
        ));
    }
    assert forall|i: int| 0 <= i < sent.handles@.len() implies {
        &&& (#[trigger] sent.handles@[i]).id == fs.handles@[i].0
        &&& sent.handles@[i].inode == fs.handles@[i].1.inode
        &&& sent.handles@[i].source->flags == fs.handles@[i].1.migration_info->flags
    } by {
        assert(expected.handles[i]
            == crate::passthrough::device_state::serialization::handle_as_serialized(
            fs.handles@[i],
        ));
    }
}

/// The error tells why the inode cannot be described.
pub open spec fn explains(error: InodeErrorView, inode: InodeState, verify_handles: bool) -> bool {
    &&& error.inode == inode.inode
    &&& match inode.info {
        None => error.error == IoErrorView::Other("Failed to reconstruct inode location"@),
        Some(info) => verify_handles && info.file_handle is None && error.error
            == IoErrorView::Other("No prepared file handle found"@),
    }
}

/// The destination cannot be told where to find the inode.
pub open spec fn is_indescribable(inode: InodeState, verify_handles: bool) -> bool {
    inode.info matches Some(info) ==> verify_handles && info.file_handle is None
}

/// The errors explain, in order, each of the inodes that cannot be described, which are those at the
/// positions `at`.
pub open spec fn explain_each(
    errors: Seq<InodeErrorView>,
    at: Seq<int>,
    inodes: Seq<InodeState>,
    verify_handles: bool,
) -> bool {
    &&& at.len() == errors.len()
    &&& forall|k: int|
        0 <= k < at.len() ==> 0 <= #[trigger] at[k] < inodes.len() && explains(
            errors[k],
            inodes[at[k]],
            verify_handles,
        )
    &&& forall|j: int, k: int| 0 <= j < k < at.len() ==> #[trigger] at[j] < #[trigger] at[k]
    &&& forall|i: int|
        0 <= i < inodes.len() && is_indescribable(#[trigger] inodes[i], verify_handles)
            ==> at.contains(i)
}

/// There are positions at which the errors explain the inodes.
proof fn lemma_explain_each(inodes: Seq<InodeState>, verify_handles: bool) -> (at: Seq<int>)
    ensures
        explain_each(
            crate::passthrough::device_state::serialization::invalid_inodes(inodes, verify_handles),
            at,
            inodes,
            verify_handles,
        ),
    decreases inodes.len(),
{
    if inodes.len() == 0 {
        seq![]
    } else {
        let front = inodes.drop_last();
        let before = lemma_explain_each(front, verify_handles);
        let errors = crate::passthrough::device_state::serialization::invalid_inodes(
            inodes,
            verify_handles,
        );
        let last = inodes.len() - 1;
        let at = if is_indescribable(inodes.last(), verify_handles) {
            before.push(last)
        } else {
            before
        };
        assert forall|k: int| 0 <= k < at.len() implies 0 <= #[trigger] at[k] < inodes.len()
            && explains(errors[k], inodes[at[k]], verify_handles) by {
            if k < before.len() {
                assert(0 <= before[k] < front.len());
                assert(front[before[k]] == inodes[before[k]]);
            }
        }
        assert forall|i: int|
            0 <= i < inodes.len() && is_indescribable(
                #[trigger] inodes[i],
                verify_handles,
            ) implies at.contains(i) by {
            if i < last {
                assert(front[i] == inodes[i]);
                assert(before.contains(i));
                let k = choose|k: int| 0 <= k < before.len() && before[k] == i;
                assert(at[k] == i);
            } else {
                assert(at[before.len() as int] == i);
            }
        }
        at
    }
}

/// The errors explain, in order, each of the inodes that cannot be described.
pub open spec fn explains_invalid_inodes(errors: Seq<InodeError>, fs: PassthroughFs) -> bool {
    exists|at: Seq<int>| #[trigger]
        explain_each(
            crate::passthrough::inode_store::errors_meaning(errors),
            at,
            fs.inodes@,
            fs.cfg.migration_verify_handles,
        )
}

/// The state that is made of a file system tells everything that there is to be said of it, and the
/// errors tell why inodes are marked as invalid.
pub proof fn law_state_tells_everything(
    fs: &PassthroughFs,
    state: Result<serialized::PassthroughFsV1, IoError>,
    collected: (serialized::PassthroughFsV1, Vec<InodeError>),
)
    requires
        call_ensures(serialized::PassthroughFsV1::try_from, (fs,), state),
        call_ensures(serialized::PassthroughFsV1::with_errors, (fs,), collected),
    ensures
        state matches Ok(sent) && tells_everything(sent, *fs),
        tells_everything(collected.0, *fs),
        explains_invalid_inodes(collected.1@, *fs),
{
    lemma_tells_everything(state->Ok_0, *fs);
    lemma_tells_everything(collected.0, *fs);
    let at = lemma_explain_each(fs.inodes@, fs.cfg.migration_verify_handles);
    assert(explain_each(
        crate::passthrough::inode_store::errors_meaning(collected.1@),
        at,
        fs.inodes@,
        fs.cfg.migration_verify_handles,
    ));
}

/// All that was known of the locations of inodes is forgotten, and nothing else.
pub open spec fn forgets_locations_only(before: PassthroughFs, after: PassthroughFs) -> bool {
    &&& after.inodes.inodes@.len() == before.inodes.inodes@.len()
    &&& forall|i: int|
        0 <= i < after.inodes.inodes@.len() ==> {
            &&& (#[trigger] after.inodes.inodes@[i]).migration_info is None
            &&& after.inodes.inodes@[i].inode == before.inodes.inodes@[i].inode
            &&& after.inodes.inodes@[i].refcount == before.inodes.inodes@[i].refcount
        }
    &&& after.next_inode == before.next_inode
    &&& after.handles == before.handles
    &&& after.next_handle == before.next_handle
    &&& after.writeback == before.writeback
    &&& after.announce_submounts == before.announce_submounts
    &&& after.posix_acl == before.posix_acl
    &&& after.sup_group_extension == before.sup_group_extension
    &&& after.cfg == before.cfg
}

/// A file system that was cleared has forgotten locations, and nothing else.
proof fn lemma_forgets_locations_only(before: PassthroughFs, after: PassthroughFs, tracking: bool)
    requires
        crate::passthrough::device_state::is_cleared(before, after, tracking),
    ensures
        forgets_locations_only(before, after),
        after.track_migration_info == tracking,
{
    assert(after.inodes@.len() == before.inodes@.len());
    assert forall|i: int| 0 <= i < after.inodes.inodes@.len() implies {
        &&& (#[trigger] after.inodes.inodes@[i]).migration_info is None
        &&& after.inodes.inodes@[i].inode == before.inodes.inodes@[i].inode
        &&& after.inodes.inodes@[i].refcount == before.inodes.inodes@[i].refcount
    } by {
        assert(after.inodes@[i] == after.inodes.inodes@[i]@);
        assert(before.inodes@[i] == before.inodes.inodes@[i]@);
    }
}

/// Preparing starts from nothing: all locations are forgotten, and tracked from then on.  By paths,
/// /proc/self/fd is asked first.
pub proof fn law_preparing_starts_from_nothing(fs: &mut PassthroughFs, next: Preparation)
    requires
        call_ensures(PassthroughFs::prepare_serialization, (fs,), next),
    ensures
        forgets_locations_only(*old(fs), *final(fs)),
        final(fs).track_migration_info,
        old(fs).cfg.migration_mode == MigrationMode::FindPaths ==> next == Preparation::ProcPaths,
        old(fs).cfg.migration_mode == MigrationMode::FileHandles ==> next
            == Preparation::FileHandles,
{
    lemma_forgets_locations_only(*old(fs), *final(fs), true);
}

/// Whatever was collected is checked in the end, and nothing comes after that; the shared directory
/// is gone through only if asking /proc/self/fd advised to.
pub proof fn law_whatever_was_collected_is_checked(
    step: Preparation,
    fall_back: bool,
    next: Option<Preparation>,
)
    requires
        call_ensures(Preparation::next, (step, fall_back), next),
    ensures
        (next is None) == (step == Preparation::CheckPaths),
        (next == Some(Preparation::FindPaths)) == (step == Preparation::ProcPaths && fall_back),
        next matches Some(n) ==> n == Preparation::FindPaths || n == Preparation::CheckPaths,
{
}

/// `next` is to send a state that tells everything of `fs`, and tells why inodes are marked as
/// invalid in it.
pub open spec fn sends_everything(next: Serialization, fs: PassthroughFs) -> bool {
    &&& next matches Serialization::Send { state: serialized::PassthroughFs::V2(state), invalid }
    &&& tells_everything(state.v1, fs)
    &&& explains_invalid_inodes(invalid@, fs)
}

/// What is to be sent tells everything.
proof fn lemma_sends_everything(next: Serialization, fs: PassthroughFs)
    requires
        crate::passthrough::device_state::sends(next, fs),
    ensures
        sends_everything(next, fs),
{
    if let Serialization::Send { state: serialized::PassthroughFs::V2(state), invalid } = next {
        lemma_tells_everything(state.v1, fs);
        let at = lemma_explain_each(fs.inodes@, fs.cfg.migration_verify_handles);
        assert(explain_each(
            crate::passthrough::inode_store::errors_meaning(invalid@),
            at,
            fs.inodes@,
            fs.cfg.migration_verify_handles,
        ));
    }
}

/// Serializing sends everything there is to be said of the file system, and then forgets locations,
/// which are tracked no longer.  If paths are to be confirmed first, nothing but the tracking
/// changes before that.
pub proof fn law_serializing_sends_everything(fs: &mut PassthroughFs, next: Serialization)
    requires
        call_ensures(PassthroughFs::serialize, (fs,), next),
    ensures
        !final(fs).track_migration_info,
        !old(fs).cfg.migration_confirm_paths ==> sends_everything(next, *old(fs))
            && forgets_locations_only(*old(fs), *final(fs)),
        old(fs).cfg.migration_confirm_paths ==> {
            &&& next is ConfirmPaths
            &&& final(fs).inodes == old(fs).inodes
            &&& final(fs).next_inode == old(fs).next_inode
            &&& final(fs).handles == old(fs).handles
            &&& final(fs).next_handle == old(fs).next_handle
            &&& final(fs).writeback == old(fs).writeback
            &&& final(fs).announce_submounts == old(fs).announce_submounts
            &&& final(fs).posix_acl == old(fs).posix_acl
            &&& final(fs).sup_group_extension == old(fs).sup_group_extension
            &&& final(fs).cfg == old(fs).cfg
        },
{
    if !old(fs).cfg.migration_confirm_paths {
        lemma_sends_everything(next, *old(fs));
        lemma_forgets_locations_only(*old(fs), *final(fs), false);
    }
}

/// Once paths were confirmed, everything is sent; an error of confirming them is the outcome instead,
/// and nothing is sent.  Locations are forgotten in either case.
pub proof fn law_unconfirmed_paths_prevent_migration(
    fs: &mut PassthroughFs,
    confirmed: Result<(), IoError>,
    next: Serialization,
)
    requires
        call_ensures(PassthroughFs::serialize_confirmed, (fs, confirmed), next),
    ensures
        confirmed is Ok ==> sends_everything(next, *old(fs)),
        confirmed matches Err(err) ==> next == Serialization::Fail(err),
        forgets_locations_only(*old(fs), *final(fs)),
        final(fs).track_migration_info == old(fs).track_migration_info,
{
    lemma_forgets_locations_only(*old(fs), *final(fs), old(fs).track_migration_info);
    if confirmed is Ok {
        lemma_sends_everything(next, *old(fs));
    }
}

/// The root is the inode with the ID 1; it and no other is marked as the root, if its location is
/// known.
pub proof fn law_only_root_is_marked(store: &InodeStore, marked: bool)
    requires
        call_ensures(check_root_marks, (store,), marked),
    ensures
        marked == forall|i: int|
            0 <= i < store.inodes@.len() ==> {
                (#[trigger] store.inodes@[i]).migration_info matches Some(info) ==> ((
                store.inodes@[i].inode == 1) == (info.location is RootNode))
            },
{
    assert forall|i: int| 0 <= i < store.inodes@.len() implies (
    crate::passthrough::device_state::serialization::root_is_marked(#[trigger] store@[i]) == (
    store.inodes@[i].migration_info matches Some(info) ==> ((store.inodes@[i].inode == 1) == (
    info.location is RootNode)))) by {
        assert(store@[i] == store.inodes@[i]@);
    }
    if marked {
        assert forall|i: int| 0 <= i < store.inodes@.len() implies {
            (#[trigger] store.inodes@[i]).migration_info matches Some(info) ==> ((
            store.inodes@[i].inode == 1) == (info.location is RootNode))
        } by {
            assert(crate::passthrough::device_state::serialization::root_is_marked(store@[i]));
        }
    } else {
        let i = choose|i: int|
            0 <= i < store@.len()
                && !crate::passthrough::device_state::serialization::root_is_marked(
                #[trigger] store@[i],
            );
        assert(store@[i] == store.inodes@[i]@);
    }
}

/// An inode is found by its ID: the first one that has it.
pub proof fn law_inodes_are_found_by_id(
    store: &InodeStore,
    empty: bool,
    inode: u64,
    position: Option<usize>,
)
    requires
        call_ensures(InodeStore::is_empty, (store,), empty),
        call_ensures(InodeStore::find, (store, inode), position),
    ensures
        empty == (store.inodes@.len() == 0),
        match position {
            Some(p) => p < store.inodes@.len() && store.inodes@[p as int].inode == inode,
            None => true,
        },
        forall|i: int|
            0 <= i < store.inodes@.len() && (#[trigger] store.inodes@[i]).inode == inode ==> (
            position matches Some(p) && p <= i),
{
    assert forall|i: int| 0 <= i < store.inodes@.len() implies store@[i] == (
    #[trigger] store.inodes@[i])@ by {}
    assert forall|i: int|
        0 <= i < store.inodes@.len() && (#[trigger] store.inodes@[i]).inode == inode implies (
    position matches Some(p) && p <= i) by {
        assert(store@[i].inode == inode);
    }
}

/// Setting what is known of one inode changes nothing else.
pub proof fn law_setting_info_changes_one_inode(
    store: &mut InodeStore,
    position: usize,
    info: Option<InodeMigrationInfo>,
    i: int,
)
    requires
        position < old(store).inodes@.len(),
        0 <= i < old(store).inodes@.len(),
        call_ensures(InodeStore::set_info, (store, position, info), ()),
    ensures
        final(store).inodes@.len() == old(store).inodes@.len(),
        i != position ==> final(store).inodes@[i]@ == old(store).inodes@[i]@,
        i == position ==> {
            let after = final(store).inodes@[i];
            &&& after.inode == old(store).inodes@[i].inode
            &&& after.refcount == old(store).inodes@[i].refcount
            &&& (after.migration_info is Some) == (info is Some)
            &&& info matches Some(given) ==> after.migration_info->0@ == given@
        },
{
    assert(final(store)@.len() == old(store)@.len());
    assert(final(store)@[i] == final(store).inodes@[i]@);
    assert(old(store)@[i] == old(store).inodes@[i]@);
}

/// An inode is added behind the others, which stay as they are; clearing forgets locations, and
/// nothing else.
pub proof fn law_adding_and_clearing_keep_inodes(
    store: &mut InodeStore,
    data: InodeData,
    cleared: &mut InodeStore,
    i: int,
)
    requires
        call_ensures(InodeStore::add_inode, (store, data), ()),
        call_ensures(InodeStore::clear_migration_info, (cleared,), ()),
    ensures
        final(store).inodes@.len() == old(store).inodes@.len() + 1,
        final(store).inodes@[old(store).inodes@.len() as int]@ == data@,
        0 <= i < old(store).inodes@.len() ==> final(store).inodes@[i]@ == old(store).inodes@[i]@,
        final(cleared).inodes@.len() == old(cleared).inodes@.len(),
        0 <= i < old(cleared).inodes@.len() ==> {
            &&& final(cleared).inodes@[i].migration_info is None
            &&& final(cleared).inodes@[i].inode == old(cleared).inodes@[i].inode
            &&& final(cleared).inodes@[i].refcount == old(cleared).inodes@[i].refcount
        },
{
    assert(final(store)@.len() == old(store)@.len() + 1);
    let last = old(store).inodes@.len() as int;
    assert(final(store)@[last] == final(store).inodes@[last]@);
    assert(final(cleared)@.len() == old(cleared)@.len());
    if 0 <= i < old(store).inodes@.len() {
        assert(final(store)@[i] == final(store).inodes@[i]@);
        assert(old(store)@[i] == old(store).inodes@[i]@);
    }
    if 0 <= i < old(cleared).inodes@.len() {
        assert(final(cleared)@[i] == final(cleared).inodes@[i]@);
        assert(old(cleared)@[i] == old(cleared).inodes@[i]@);
    }
}

/// The clone of a file handle has the same bytes.
pub proof fn law_cloned_handles_are_equal(
    handle: SerializableFileHandle,
    copy: SerializableFileHandle,
)
    requires
        call_ensures(<SerializableFileHandle as Clone>::clone, (&handle,), copy),
    ensures
        copy.bytes@ == handle.bytes@,
{
}

} // verus!
