//! What holds across the functions of a raw node.

use vstd::prelude::*;

use crate::eraftpb::{
    entry_views, ConfChangeView, Entry, HardState, MessageType, MessageView, SnapshotView,
};
use crate::raft::Raft;
use crate::raft_log::{in_range, last_position, RaftLog};
use crate::raw_node::{
    conf_change_message, local_msg, propose_message, read_index_message, response_msg,
    snap_status_message, transfer_leader_message, unreachable_message, RawNodeView, ReadyView,
    SnapshotStatus,
};

verus! {

/// Where committed entries count from.
pub open spec fn count_from(log: RaftLog, idx: Option<u64>) -> u64 {
    match idx {
        Some(idx) => idx,
        None => log.applied,
    }
}

/// Something is ready exactly if the ready value that would be handed out holds an update.
pub proof fn has_ready_iff_updates<T, C>(node: RawNodeView<T, C>, idx: Option<u64>)
    ensures
        node.has_ready(idx) == ReadyView::of(
            node.raft,
            node.prev_ss,
            node.prev_hs,
            idx,
        ).contains_updates(),
{
    let log = node.raft.raft_log;
    let rd = ReadyView::of(node.raft, node.prev_ss, node.prev_hs, idx);
    assert(rd.entries.len() == log.unstable.entries@.len());
    assert(rd.read_states.len() == node.raft.read_states@.len());
    assert(rd.committed_entries->0.len() == log.committed_since(count_from(log, idx)).len());
}

/// `ready` is `ready_since` with the applied index.
pub proof fn ready_is_since_applied<T, C>(node: RawNodeView<T, C>)
    ensures
        ReadyView::of(node.raft, node.prev_ss, node.prev_hs, None) == ReadyView::of(
            node.raft,
            node.prev_ss,
            node.prev_hs,
            Some(node.raft.raft_log.applied),
        ),
{
}

/// A node that has just been set up shows neither a soft nor a hard state until something
/// changes.
pub proof fn new_node_shows_no_state<T, C>(raft: Raft<T, C>, idx: Option<u64>)
    ensures
        ({
            let rd = ReadyView::of(raft, raft.spec_soft_state(), raft.spec_hard_state(), idx);
            rd.ss is None && rd.hs is None && !rd.must_sync
        }),
{
}

/// Taking a ready value takes the messages out and nothing else: `post` being the node after
/// one was taken, another one holds the same but for the messages.
pub proof fn second_ready_lacks_only_messages<T, C>(
    pre: RawNodeView<T, C>,
    post: RawNodeView<T, C>,
    idx: Option<u64>,
)
    requires
        post.raft.msgs@.len() == 0,
        post == (RawNodeView { raft: Raft { msgs: post.raft.msgs, ..pre.raft }, ..pre }),
    ensures
        ReadyView::of(post.raft, post.prev_ss, post.prev_hs, idx) == (ReadyView {
            messages: Seq::empty(),
            ..ReadyView::of(pre.raft, pre.prev_ss, pre.prev_hs, idx)
        }),
{
    assert(post.raft.msgs@ =~= Seq::empty());
}

/// A hard state that must be written synchronously is handed out.
pub proof fn must_sync_shows_hard_state<T, C>(node: RawNodeView<T, C>, idx: Option<u64>)
    ensures
        ({
            let rd = ReadyView::of(node.raft, node.prev_ss, node.prev_hs, idx);
            rd.must_sync ==> rd.hs == Some(node.raft.spec_hard_state())
        }),
{
}

/// The committed entries that are handed out are those of the log that lie above the index asked
/// for and are committed: no other entry, and none left out.
pub proof fn committed_entries_are_in_range<T, C>(node: RawNodeView<T, C>, idx: Option<u64>)
    ensures
        ({
            let log = node.raft.raft_log;
            let since = count_from(log, idx);
            let es = ReadyView::of(node.raft, node.prev_ss, node.prev_hs, idx).committed_entries->0;
            &&& forall|i: int|
                0 <= i < es.len() ==> since < (#[trigger] es[i]).index <= log.committed && exists|
                    k: int,
                |
                    0 <= k < log.entries().len() && (#[trigger] log.entries()[k])@ == es[i]
            &&& forall|k: int|
                0 <= k < log.entries().len() && since < (#[trigger] log.entries()[k]).index
                    <= log.committed ==> es.contains(log.entries()[k]@)
        }),
{
    let log = node.raft.raft_log;
    let since = count_from(log, idx);
    let keep = in_range(since, log.committed);
    let all = log.entries();
    let kept = all.filter(keep);
    let es = entry_views(kept);
    assert forall|i: int| 0 <= i < es.len() implies since < (#[trigger] es[i]).index
        <= log.committed && exists|k: int|
        0 <= k < all.len() && (#[trigger] all[k])@ == es[i] by {
        all.lemma_filter_pred(keep, i);
        assert(keep(kept[i]));
        assert(kept.contains(kept[i]));
        all.lemma_filter_contains_rev(keep, kept[i]);
        let k = all.index_of(kept[i]);
        assert(all[k]@ == es[i]);
    }
    assert forall|k: int|
        0 <= k < all.len() && since < (#[trigger] all[k]).index <= log.committed implies es.contains(
        all[k]@,
    ) by {
        all.lemma_filter_contains(keep, k);
        let i = kept.index_of(all[k]);
        assert(es[i] == all[k]@);
    }
}

/// Whether entries are in the order of their indices, with no index twice.
pub open spec fn ascending(entries: Seq<Entry>) -> bool {
    forall|i: int, j: int|
        0 <= i < j < entries.len() ==> (#[trigger] entries[i]).index < (
        #[trigger] entries[j]).index
}

/// If the log is in the order of its indices, so are the committed entries that are handed out.
pub proof fn committed_entries_ascend<T, C>(node: RawNodeView<T, C>, idx: Option<u64>)
    requires
        ascending(node.raft.raft_log.entries()),
    ensures
        ({
            let es = ReadyView::of(node.raft, node.prev_ss, node.prev_hs, idx).committed_entries->0;
            forall|i: int, j: int|
                0 <= i < j < es.len() ==> (#[trigger] es[i]).index < (#[trigger] es[j]).index
        }),
{
    let log = node.raft.raft_log;
    let keep = in_range(count_from(log, idx), log.committed);
    lemma_filter_ascends(log.entries(), keep);
    let kept = log.entries().filter(keep);
    let es = entry_views(kept);
    assert forall|i: int, j: int| 0 <= i < j < es.len() implies (#[trigger] es[i]).index < (
    #[trigger] es[j]).index by {
        assert(kept[i].index < kept[j].index);
    }
}

/// A part of a list in order is in order.
proof fn lemma_filter_ascends(entries: Seq<Entry>, keep: spec_fn(Entry) -> bool)
    requires
        ascending(entries),
    ensures
        ascending(entries.filter(keep)),
    decreases entries.len(),
{
    reveal(Seq::filter);
    if entries.len() > 0 {
        let head = entries.drop_last();
        assert(ascending(head));
        lemma_filter_ascends(head, keep);
        let kept = head.filter(keep);
        assert forall|i: int| 0 <= i < kept.len() implies (#[trigger] kept[i]).index
            < entries.last().index by {
            assert(kept.contains(kept[i]));
            head.lemma_filter_contains_rev(keep, kept[i]);
            let k = head.index_of(kept[i]);
            assert(entries[k] == kept[i]);
        }
    }
}

/// Nothing above the committed index is committed.
proof fn lemma_nothing_committed_above(log: RaftLog, since: u64)
    requires
        log.committed <= since,
    ensures
        log.committed_since(since).len() == 0,
{
    log.entries().lemma_all_neg_filter_empty(in_range(since, log.committed));
}

/// Saving what was handed out moves the border between saved and unsaved entries, and changes
/// nothing else in the log.
pub proof fn saving_keeps_the_log<T, C>(
    pre: RawNodeView<T, C>,
    rd: ReadyView,
    post: RawNodeView<T, C>,
)
    requires
        pre.saved(rd, post),
    ensures
        post.raft.raft_log.entries() == pre.raft.raft_log.entries(),
        post.raft.raft_log.committed == pre.raft.raft_log.committed,
        post.raft.raft_log.applied == pre.raft.raft_log.applied,
{
    let unsaved = pre.raft.raft_log.unstable.entries@;
    if rd.entries.len() > 0 {
        lemma_last_position_bounds(unsaved, rd.entries.last().index, rd.entries.last().term);
    }
    assert(post.raft.raft_log.entries() =~= pre.raft.raft_log.entries());
}

/// Saving a ready value with nothing to save changes nothing, whatever messages and committed
/// entries it holds, and whether or not it is to be written synchronously.
pub proof fn saving_nothing_changes_nothing<T, C>(
    pre: RawNodeView<T, C>,
    rd: ReadyView,
    post: RawNodeView<T, C>,
)
    requires
        pre.saved(rd, post),
        rd.ss is None,
        rd.hs is None,
        rd.entries.len() == 0,
        rd.read_states.len() == 0,
        rd.snapshot == SnapshotView::empty(),
    ensures
        post == pre,
{
}

/// The messages and the committed entries of a ready value, and whether it is to be written
/// synchronously, have no effect on what saving it does.
pub proof fn saving_ignores_messages_and_committed_entries<T, C>(
    pre: RawNodeView<T, C>,
    rd: ReadyView,
    other: ReadyView,
    post: RawNodeView<T, C>,
)
    requires
        other == (ReadyView {
            committed_entries: other.committed_entries,
            messages: other.messages,
            must_sync: other.must_sync,
            ..rd
        }),
    ensures
        pre.saved(rd, post) == pre.saved(other, post),
{
}

/// Positions lie within the list.
proof fn lemma_last_position_bounds(entries: Seq<Entry>, index: u64, term: u64)
    ensures
        -1 <= last_position(entries, index, term) < entries.len(),
    decreases entries.len(),
{
    if entries.len() > 0 {
        lemma_last_position_bounds(entries.drop_last(), index, term);
    }
}

/// Once the application has saved what a ready value held, and nothing else has happened since
/// that value was taken, nothing is ready but committed entries still to be applied, whatever
/// index they count from; and none at all counting from the committed index or above.
///
/// `pre` is the node before the value was taken, `mid` after that, and `post` after the
/// application has saved it.
pub proof fn nothing_ready_after_advance<T, C>(
    pre: RawNodeView<T, C>,
    mid: RawNodeView<T, C>,
    post: RawNodeView<T, C>,
    taken: Option<u64>,
    idx: Option<u64>,
)
    requires
        mid.raft.msgs@.len() == 0,
        mid == (RawNodeView { raft: Raft { msgs: mid.raft.msgs, ..pre.raft }, ..pre }),
        mid.saved(ReadyView::of(pre.raft, pre.prev_ss, pre.prev_hs, taken), post),
    ensures
        ({
            let log = pre.raft.raft_log;
            let since = count_from(log, idx);
            &&& count_from(post.raft.raft_log, idx) == since
            &&& post.raft.raft_log.committed_since(since) == log.committed_since(since)
            &&& post.has_ready(idx) <==> log.committed_since(since).len() > 0
            &&& since >= log.committed ==> !post.has_ready(idx)
        }),
{
    let log = pre.raft.raft_log;
    let rd = ReadyView::of(pre.raft, pre.prev_ss, pre.prev_hs, taken);
    let unsaved = log.unstable.entries@;
    assert(rd.entries.len() == unsaved.len());
    assert(rd.read_states.len() == pre.raft.read_states@.len());
    if unsaved.len() > 0 {
        assert(rd.entries.last() == unsaved.last()@);
        assert(last_position(unsaved, unsaved.last().index, unsaved.last().term) == unsaved.len()
            - 1);
    }
    assert(post.raft.raft_log.unstable.entries@.len() == 0);
    saving_keeps_the_log(mid, rd, post);
    let since = count_from(log, idx);
    if since >= log.committed {
        lemma_nothing_committed_above(log, since);
    }
}

/// What came in while the application was saving is not taken for saved: entries that follow
/// those handed out, and differ from the last of them in index or term, stay unsaved.
pub proof fn later_entries_stay_unsaved<T, C>(
    node: RawNodeView<T, C>,
    rd: ReadyView,
    handed_out: Seq<Entry>,
    later: Seq<Entry>,
    post: RawNodeView<T, C>,
)
    requires
        handed_out.len() > 0,
        rd.entries == entry_views(handed_out),
        node.raft.raft_log.unstable.entries@ == handed_out + later,
        forall|k: int|
            0 <= k < later.len() ==> (#[trigger] later[k]).index != handed_out.last().index
                || later[k].term != handed_out.last().term,
        node.saved(rd, post),
    ensures
        post.raft.raft_log.unstable.entries@ == later,
        post.raft.raft_log.stable@ == node.raft.raft_log.stable@ + handed_out,
{
    let last = handed_out.last();
    assert(rd.entries.last() == last@);
    lemma_last_position_before(handed_out, later);
    assert((handed_out + later).skip(handed_out.len() as int) =~= later);
    assert((handed_out + later).take(handed_out.len() as int) =~= handed_out);
}

/// Entries that do not match do not move the position of the last match.
proof fn lemma_last_position_before(head: Seq<Entry>, tail: Seq<Entry>)
    requires
        head.len() > 0,
        forall|k: int|
            0 <= k < tail.len() ==> (#[trigger] tail[k]).index != head.last().index || tail[k].term
                != head.last().term,
    ensures
        last_position(head + tail, head.last().index, head.last().term) == head.len() - 1,
    decreases tail.len(),
{
    if tail.len() == 0 {
        assert(head + tail =~= head);
    } else {
        assert((head + tail).drop_last() =~= head + tail.drop_last());
        assert((head + tail).last() == tail.last());
        lemma_last_position_before(head, tail.drop_last());
    }
}

/// If the log was overwritten while the application was saving, so that the last entry handed out
/// is not among the unsaved ones any more, no entry is taken for saved.
pub proof fn overwritten_entries_stay_unsaved<T, C>(
    node: RawNodeView<T, C>,
    rd: ReadyView,
    post: RawNodeView<T, C>,
)
    requires
        rd.entries.len() > 0,
        forall|k: int|
            0 <= k < node.raft.raft_log.unstable.entries@.len() ==> (
            #[trigger] node.raft.raft_log.unstable.entries@[k]).index != rd.entries.last().index
                || node.raft.raft_log.unstable.entries@[k].term != rd.entries.last().term,
        node.saved(rd, post),
    ensures
        post.raft.raft_log.unstable.entries@ == node.raft.raft_log.unstable.entries@,
        post.raft.raft_log.stable@ == node.raft.raft_log.stable@,
{
    let unsaved = node.raft.raft_log.unstable.entries@;
    lemma_no_position(unsaved, rd.entries.last().index, rd.entries.last().term);
    assert(unsaved.skip(0) =~= unsaved);
    assert(node.raft.raft_log.stable@ + unsaved.take(0) =~= node.raft.raft_log.stable@);
}

/// Where nothing matches there is no position.
proof fn lemma_no_position(entries: Seq<Entry>, index: u64, term: u64)
    requires
        forall|k: int|
            0 <= k < entries.len() ==> (#[trigger] entries[k]).index != index || entries[k].term
                != term,
    ensures
        last_position(entries, index, term) == -1,
    decreases entries.len(),
{
    if entries.len() > 0 {
        assert(entries.last() == entries[entries.len() - 1]);
        lemma_no_position(entries.drop_last(), index, term);
    }
}

/// Once the application has saved what a ready value held, the commit index that it has seen is
/// that of the log: `advance` marks all committed entries as applied, whether a hard state was
/// handed out or not. Left out: a node whose hard state has gone back to nothing.
pub proof fn advance_applies_all_committed<T, C>(
    pre: RawNodeView<T, C>,
    mid: RawNodeView<T, C>,
    post: RawNodeView<T, C>,
    taken: Option<u64>,
)
    requires
        mid == (RawNodeView { raft: Raft { msgs: mid.raft.msgs, ..pre.raft }, ..pre }),
        mid.saved(ReadyView::of(pre.raft, pre.prev_ss, pre.prev_hs, taken), post),
        pre.raft.spec_hard_state() == HardState::empty() ==> pre.prev_hs == HardState::empty(),
    ensures
        post.prev_hs.commit == pre.raft.raft_log.committed,
        post.prev_hs == pre.raft.spec_hard_state(),
        post.prev_ss == pre.raft.spec_soft_state(),
{
}

/// What an application asks of its own node by `campaign`, `report_unreachable` and
/// `report_snapshot` travels in messages that `step` refuses from the network, and what it asks
/// by `propose`, `propose_conf_change`, `transfer_leader` and `read_index` in messages that `step`
/// takes from anyone.
pub proof fn requests_and_the_network(
    id: u64,
    context: Seq<u8>,
    data: Seq<u8>,
    cc: ConfChangeView,
    status: SnapshotStatus,
)
    ensures
        local_msg(MessageView::of_type(MessageType::MsgHup).msg_type),
        local_msg(unreachable_message(id).msg_type),
        local_msg(snap_status_message(id, status).msg_type),
        forall|m: MessageView|
            #![trigger m.msg_type]
            m == propose_message(id, context, data) || m == conf_change_message(context, cc) || m
                == transfer_leader_message(id) || m == read_index_message(data) ==> !local_msg(
                m.msg_type,
            ) && !response_msg(m.msg_type),
{
}

} // verus!
