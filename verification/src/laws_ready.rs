//! What a ready value holds, when one is called for, and what saving one does,
//! each in terms of the state of the node.

use vstd::prelude::*;

use crate::eraftpb::{Entry, HardState};
use crate::raft::{Raft, SoftState};
use crate::raft_log::{in_range, last_position, RaftLog};
use crate::raw_node::{RawNodeView, ReadyView};

verus! {

/// A ready value holds every message that waited, at its place: none is lost, added or moved.
pub proof fn ready_holds_every_message<T, C>(
    raft: Raft<T, C>,
    prev_ss: SoftState,
    prev_hs: HardState,
    idx: Option<u64>,
)
    ensures
        ({
            let rd = ReadyView::of(raft, prev_ss, prev_hs, idx);
            &&& rd.messages.len() == raft.msgs@.len()
            &&& forall|i: int|
                0 <= i < raft.msgs@.len() ==> (#[trigger] rd.messages[i]) == raft.msgs@[i]
            &&& rd.messages == raft.msgs@
        }),
{
}

/// A ready value holds every unsaved entry, at its place and in full.
pub proof fn ready_holds_every_unsaved_entry<T, C>(
    raft: Raft<T, C>,
    prev_ss: SoftState,
    prev_hs: HardState,
    idx: Option<u64>,
)
    ensures
        ({
            let rd = ReadyView::of(raft, prev_ss, prev_hs, idx);
            let unsaved = raft.raft_log.unstable.entries@;
            &&& rd.entries.len() == unsaved.len()
            &&& forall|i: int|
                #![trigger rd.entries[i]]
                #![trigger unsaved[i]]
                0 <= i < unsaved.len() ==> {
                    &&& rd.entries[i].entry_type == unsaved[i].entry_type
                    &&& rd.entries[i].term == unsaved[i].term
                    &&& rd.entries[i].index == unsaved[i].index
                    &&& rd.entries[i].data == unsaved[i].data@
                    &&& rd.entries[i].context == unsaved[i].context@
                }
        }),
{
}

/// A ready value holds every answered read request, at its place and in full.
pub proof fn ready_holds_every_read_state<T, C>(
    raft: Raft<T, C>,
    prev_ss: SoftState,
    prev_hs: HardState,
    idx: Option<u64>,
)
    ensures
        ({
            let rd = ReadyView::of(raft, prev_ss, prev_hs, idx);
            let answered = raft.read_states@;
            &&& rd.read_states.len() == answered.len()
            &&& forall|i: int|
                #![trigger rd.read_states[i]]
                #![trigger answered[i]]
                0 <= i < answered.len() ==> rd.read_states[i].index == answered[i].index
                    && rd.read_states[i].request_ctx == answered[i].request_ctx@
        }),
{
}

/// A ready value holds the snapshot that has come in and is not saved, in full, and otherwise the
/// one that holds nothing.
pub proof fn ready_holds_the_unsaved_snapshot<T, C>(
    raft: Raft<T, C>,
    prev_ss: SoftState,
    prev_hs: HardState,
    idx: Option<u64>,
)
    ensures
        ({
            let shown = ReadyView::of(raft, prev_ss, prev_hs, idx).snapshot;
            match raft.raft_log.unstable.snapshot {
                Some(s) => {
                    &&& shown.data == s.data@
                    &&& shown.metadata is Some <==> s.metadata is Some
                    &&& s.metadata matches Some(m) ==> {
                        &&& shown.metadata->0.index == m.index
                        &&& shown.metadata->0.term == m.term
                        &&& shown.metadata->0.conf_state is Some <==> m.conf_state is Some
                        &&& m.conf_state matches Some(c) ==> {
                            &&& shown.metadata->0.conf_state->0.nodes == c.nodes@
                            &&& shown.metadata->0.conf_state->0.learners == c.learners@
                        }
                    }
                },
                None => shown.data.len() == 0 && shown.metadata is None,
            }
        }),
{
}

/// A ready value shows the soft state of the node exactly if its leader or its role is not what
/// the application has seen.
pub proof fn ready_shows_a_changed_soft_state<T, C>(
    raft: Raft<T, C>,
    prev_ss: SoftState,
    prev_hs: HardState,
    idx: Option<u64>,
)
    ensures
        ({
            let shown = ReadyView::of(raft, prev_ss, prev_hs, idx).ss;
            &&& shown is Some <==> raft.leader_id != prev_ss.leader_id || raft.state
                != prev_ss.raft_state
            &&& shown matches Some(ss) ==> ss.leader_id == raft.leader_id && ss.raft_state
                == raft.state
        }),
{
}

/// A ready value shows the hard state of the node exactly if its term, its vote or its commit
/// index is not what the application has seen, and asks for a synchronous write exactly if the
/// term or the vote is not.
pub proof fn ready_shows_a_changed_hard_state<T, C>(
    raft: Raft<T, C>,
    prev_ss: SoftState,
    prev_hs: HardState,
    idx: Option<u64>,
)
    ensures
        ({
            let rd = ReadyView::of(raft, prev_ss, prev_hs, idx);
            &&& rd.hs is Some <==> raft.term != prev_hs.term || raft.vote != prev_hs.vote
                || raft.raft_log.committed != prev_hs.commit
            &&& rd.hs matches Some(hs) ==> hs.term == raft.term && hs.vote == raft.vote && hs.commit
                == raft.raft_log.committed
            &&& rd.must_sync <==> raft.term != prev_hs.term || raft.vote != prev_hs.vote
        }),
{
}

/// The positions of the entries in a range of indices, in order.
spec fn positions(entries: Seq<Entry>, above: u64, upto: u64) -> Seq<int>
    decreases entries.len(),
{
    if entries.len() == 0 {
        Seq::empty()
    } else {
        let head = positions(entries.drop_last(), above, upto);
        if above < entries.last().index && entries.last().index <= upto {
            head.push(entries.len() - 1)
        } else {
            head
        }
    }
}

/// The entries in a range are those at their positions.
proof fn lemma_positions(entries: Seq<Entry>, above: u64, upto: u64)
    ensures
        ({
            let ks = positions(entries, above, upto);
            let kept = entries.filter(in_range(above, upto));
            &&& ks.len() == kept.len()
            &&& forall|i: int, j: int|
                0 <= i < j < ks.len() ==> (#[trigger] ks[i]) < (#[trigger] ks[j])
            &&& forall|i: int|
                #![trigger ks[i]]
                #![trigger kept[i]]
                0 <= i < ks.len() ==> 0 <= ks[i] < entries.len() && above < entries[ks[i]].index
                    <= upto && kept[i] == entries[ks[i]]
            &&& forall|k: int|
                0 <= k < entries.len() && above < (#[trigger] entries[k]).index <= upto
                    ==> ks.contains(k)
        }),
    decreases entries.len(),
{
    let keep = in_range(above, upto);
    let ks = positions(entries, above, upto);
    let kept = entries.filter(keep);
    if entries.len() == 0 {
        assert(kept.len() == 0) by {
            reveal(Seq::filter);
        }
    } else {
        let head = entries.drop_last();
        let last = entries.last();
        lemma_positions(head, above, upto);
        let before = positions(head, above, upto);
        let kept_before = head.filter(keep);
        assert(kept == if above < last.index && last.index <= upto {
            kept_before.push(last)
        } else {
            kept_before
        }) by {
            reveal(Seq::filter);
        }
        assert forall|i: int| 0 <= i < before.len() implies ks[i] == #[trigger] before[i]
            && entries[before[i]] == head[before[i]] by {}
        assert forall|i: int| #![trigger ks[i]] #![trigger kept[i]] 0 <= i < ks.len() implies 0
            <= ks[i] < entries.len() && above < entries[ks[i]].index <= upto && kept[i]
            == entries[ks[i]] by {
            if i < before.len() {
                assert(ks[i] == before[i]);
                assert(kept[i] == kept_before[i]);
            }
        }
        assert forall|k: int|
            0 <= k < entries.len() && above < (#[trigger] entries[k]).index
                <= upto implies ks.contains(k) by {
            if k < head.len() {
                assert(head[k] == entries[k]);
                assert(before.contains(k));
                let i = before.index_of(k);
                assert(ks[i] == before[i]);
            } else {
                assert(ks[ks.len() - 1] == k);
            }
        }
    }
}

/// The committed entries above an index are those of the whole log, saved and unsaved, whose index
/// lies above it and not above the commit index: all of them, and in the order of the log. The
/// result lists the positions in the log that they stand at.
pub proof fn committed_entries_are_all_in_range(log: RaftLog, since: u64) -> (ks: Seq<int>)
    ensures
        ({
            let all = log.stable@ + log.unstable.entries@;
            let found = log.committed_since(since);
            &&& log.entries() == all
            &&& ks.len() == found.len()
            &&& forall|i: int, j: int|
                0 <= i < j < ks.len() ==> (#[trigger] ks[i]) < (#[trigger] ks[j])
            &&& forall|i: int|
                #![trigger ks[i]]
                #![trigger found[i]]
                0 <= i < ks.len() ==> 0 <= ks[i] < all.len() && since < all[ks[i]].index
                    <= log.committed && found[i] == all[ks[i]]
            &&& forall|k: int|
                0 <= k < all.len() && since < (#[trigger] all[k]).index <= log.committed
                    ==> ks.contains(k)
        }),
{
    lemma_positions(log.stable@ + log.unstable.entries@, since, log.committed);
    positions(log.stable@ + log.unstable.entries@, since, log.committed)
}

/// A ready value holds the committed entries above the index asked for, or else above what is
/// applied: all of them, in the order of the log and in full. The result lists the positions in
/// the log that they stand at.
pub proof fn ready_holds_every_committed_entry<T, C>(
    raft: Raft<T, C>,
    prev_ss: SoftState,
    prev_hs: HardState,
    idx: Option<u64>,
) -> (ks: Seq<int>)
    ensures
        ({
            let all = raft.raft_log.stable@ + raft.raft_log.unstable.entries@;
            let committed = raft.raft_log.committed;
            let since = match idx {
                Some(i) => i,
                None => raft.raft_log.applied,
            };
            let shown = ReadyView::of(raft, prev_ss, prev_hs, idx).committed_entries;
            let es = shown->0;
            &&& shown is Some
            &&& ks.len() == es.len()
            &&& forall|i: int, j: int|
                0 <= i < j < ks.len() ==> (#[trigger] ks[i]) < (#[trigger] ks[j])
            &&& forall|i: int|
                #![trigger ks[i]]
                #![trigger es[i]]
                0 <= i < ks.len() ==> {
                    &&& 0 <= ks[i] < all.len()
                    &&& since < all[ks[i]].index <= committed
                    &&& es[i].entry_type == all[ks[i]].entry_type
                    &&& es[i].term == all[ks[i]].term
                    &&& es[i].index == all[ks[i]].index
                    &&& es[i].data == all[ks[i]].data@
                    &&& es[i].context == all[ks[i]].context@
                }
            &&& forall|k: int|
                0 <= k < all.len() && since < (#[trigger] all[k]).index <= committed ==> ks.contains(
                    k,
                )
        }),
{
    let since = match idx {
        Some(i) => i,
        None => raft.raft_log.applied,
    };
    let ks = committed_entries_are_all_in_range(raft.raft_log, since);
    let found = raft.raft_log.committed_since(since);
    let es = ReadyView::of(raft, prev_ss, prev_hs, idx).committed_entries->0;
    assert(es.len() == found.len());
    assert forall|i: int| 0 <= i < ks.len() implies (#[trigger] es[i]) == found[i]@ by {}
    ks
}

/// Something is ready exactly if a message or a read request waits, an entry or a snapshot is
/// unsaved, a committed entry lies above the index asked for, or else above what is applied, or a
/// state is not what the application has seen; a hard state of nothing but zeros does not count.
pub proof fn reasons_to_be_ready<T, C>(node: RawNodeView<T, C>, idx: Option<u64>)
    ensures
        ({
            let raft = node.raft;
            let log = raft.raft_log;
            let all = log.stable@ + log.unstable.entries@;
            let since = match idx {
                Some(i) => i,
                None => log.applied,
            };
            node.has_ready(idx) <==> {
                ||| raft.msgs@.len() > 0
                ||| log.unstable.entries@.len() > 0
                ||| raft.read_states@.len() > 0
                ||| log.unstable.snapshot matches Some(s) && s.metadata matches Some(m) && m.index
                    != 0
                ||| exists|k: int|
                    0 <= k < all.len() && since < (#[trigger] all[k]).index <= log.committed
                ||| raft.leader_id != node.prev_ss.leader_id
                ||| raft.state != node.prev_ss.raft_state
                ||| (raft.term != 0 || raft.vote != 0 || log.committed != 0) && (raft.term
                    != node.prev_hs.term || raft.vote != node.prev_hs.vote || log.committed
                    != node.prev_hs.commit)
            }
        }),
{
    let log = node.raft.raft_log;
    let all = log.stable@ + log.unstable.entries@;
    let since = match idx {
        Some(i) => i,
        None => log.applied,
    };
    let ks = committed_entries_are_all_in_range(log, since);
    if log.committed_since(since).len() > 0 {
        assert(since < all[ks[0]].index <= log.committed);
    }
    assert(forall|k: int|
        0 <= k < all.len() && since < (#[trigger] all[k]).index <= log.committed ==> ks.contains(k));
}

/// A position of an entry in a list is the last one at which it stands, if there is one.
pub proof fn last_position_is_the_last_match(entries: Seq<Entry>, index: u64, term: u64)
    ensures
        ({
            let p = last_position(entries, index, term);
            &&& -1 <= p < entries.len()
            &&& p >= 0 ==> entries[p].index == index && entries[p].term == term
            &&& forall|k: int|
                p < k < entries.len() ==> (#[trigger] entries[k]).index != index || entries[k].term
                    != term
        }),
    decreases entries.len(),
{
    if entries.len() > 0 {
        let head = entries.drop_last();
        last_position_is_the_last_match(head, index, term);
        let p = last_position(entries, index, term);
        assert forall|k: int| p < k < entries.len() implies (#[trigger] entries[k]).index != index
            || entries[k].term != term by {
            if k < head.len() {
                assert(head[k] == entries[k]);
            }
        }
    }
}

/// What saving a ready value does, whatever the state of the node has become meanwhile. The result
/// is how many of the unsaved entries are taken for saved: those up to the last one with the index
/// and the term of the last entry that was handed out, and none if there is no such one.
pub proof fn saving_notes_what_was_handed_out<T, C>(
    pre: RawNodeView<T, C>,
    rd: ReadyView,
    post: RawNodeView<T, C>,
) -> (n: int)
    requires
        pre.saved(rd, post),
    ensures
        // Saved entries.
        ({
            let unsaved = pre.raft.raft_log.unstable.entries@;
            &&& 0 <= n <= unsaved.len()
            &&& post.raft.raft_log.stable@ == pre.raft.raft_log.stable@ + unsaved.take(n)
            &&& post.raft.raft_log.unstable.entries@ == unsaved.skip(n)
            &&& rd.entries.len() == 0 ==> n == 0
            &&& n > 0 ==> unsaved[n - 1].index == rd.entries.last().index && unsaved[n - 1].term
                == rd.entries.last().term
            &&& rd.entries.len() > 0 ==> forall|k: int|
                n <= k < unsaved.len() ==> (#[trigger] unsaved[k]).index != rd.entries.last().index
                    || unsaved[k].term != rd.entries.last().term
        }),
        // The soft state that was shown, or else the one seen before.
        rd.ss matches Some(ss) ==> post.prev_ss == ss,
        rd.ss is None ==> post.prev_ss == pre.prev_ss,
        // The hard state that was shown, unless it was nothing but zeros.
        rd.hs matches Some(hs) ==> {
            &&& hs.term != 0 || hs.vote != 0 || hs.commit != 0 ==> post.prev_hs == hs
            &&& hs.term == 0 && hs.vote == 0 && hs.commit == 0 ==> post.prev_hs == pre.prev_hs
        },
        rd.hs is None ==> post.prev_hs == pre.prev_hs,
        // The snapshot that was handed out, if it is still the one that waits.
        ({
            let handed_out = rd.snapshot.data.len() > 0 || rd.snapshot.metadata is Some;
            let upto = match rd.snapshot.metadata {
                Some(m) => m.index,
                None => 0,
            };
            match pre.raft.raft_log.unstable.snapshot {
                Some(s) => {
                    let index = match s.metadata {
                        Some(m) => m.index,
                        None => 0,
                    };
                    &&& handed_out && index == upto
                        ==> post.raft.raft_log.unstable.snapshot is None
                    &&& !handed_out || index != upto
                        ==> post.raft.raft_log.unstable.snapshot == Some(s)
                },
                None => post.raft.raft_log.unstable.snapshot is None,
            }
        }),
        // The read requests.
        rd.read_states.len() > 0 ==> post.raft.read_states@.len() == 0,
        rd.read_states.len() == 0 ==> post.raft.read_states@ == pre.raft.read_states@,
        // All else stays.
        post.raft.raft_log.committed == pre.raft.raft_log.committed,
        post.raft.raft_log.applied == pre.raft.raft_log.applied,
        post.raft.id == pre.raft.id,
        post.raft.term == pre.raft.term,
        post.raft.vote == pre.raft.vote,
        post.raft.leader_id == pre.raft.leader_id,
        post.raft.state == pre.raft.state,
        post.raft.msgs == pre.raft.msgs,
        post.raft.prs == pre.raft.prs,
        post.raft.skip_bcast_commit == pre.raft.skip_bcast_commit,
        post.raft.batch_append == pre.raft.batch_append,
        post.raft.store == pre.raft.store,
        post.raft.consensus == pre.raft.consensus,
{
    let unsaved = pre.raft.raft_log.unstable.entries@;
    if rd.snapshot.data.len() == 0 && rd.snapshot.metadata is None {
        assert(rd.snapshot.data =~= Seq::empty());
    }
    if rd.entries.len() > 0 {
        let last = rd.entries.last();
        last_position_is_the_last_match(unsaved, last.index, last.term);
        last_position(unsaved, last.index, last.term) + 1
    } else {
        0
    }
}

/// Whatever has happened since a ready value was taken, saving it notes no hard state that the
/// application was not shown. The commit index noted, up to which `advance` marks the log as
/// applied, is the one that was shown, or else the one noted before. A hard state that the node has
/// moved on to meanwhile is still ready.
pub proof fn advance_goes_no_further_than_shown<T, C>(
    node: RawNodeView<T, C>,
    rd: ReadyView,
    post: RawNodeView<T, C>,
    idx: Option<u64>,
)
    requires
        node.saved(rd, post),
    ensures
        rd.hs matches Some(hs) ==> {
            hs.term != 0 || hs.vote != 0 || hs.commit != 0 ==> post.prev_hs.term == hs.term
                && post.prev_hs.vote == hs.vote && post.prev_hs.commit == hs.commit
        },
        post.prev_hs.commit == node.prev_hs.commit || (rd.hs is Some && post.prev_hs.commit
            == rd.hs->0.commit),
        ({
            let raft = node.raft;
            let moved_on = raft.term != post.prev_hs.term || raft.vote != post.prev_hs.vote
                || raft.raft_log.committed != post.prev_hs.commit;
            moved_on && (raft.term != 0 || raft.vote != 0 || raft.raft_log.committed != 0)
                ==> post.has_ready(idx)
        }),
{
    let _ = saving_notes_what_was_handed_out(node, rd, post);
    reasons_to_be_ready(post, idx);
}

/// Entries that were committed while the application was saving are handed out by the next ready
/// value: each entry of the log above the commit index that was shown, and committed now, is among
/// the committed entries above that index.
pub proof fn later_commits_are_handed_out_next<T, C>(
    node: RawNodeView<T, C>,
    rd: ReadyView,
    post: RawNodeView<T, C>,
    shown: HardState,
    k: int,
)
    requires
        node.saved(rd, post),
        rd.hs == Some(shown),
        shown.commit != 0,
        0 <= k < (node.raft.raft_log.stable@ + node.raft.raft_log.unstable.entries@).len(),
        shown.commit < (node.raft.raft_log.stable@ + node.raft.raft_log.unstable.entries@)[k].index
            <= node.raft.raft_log.committed,
    ensures
        post.prev_hs.commit == shown.commit,
        post.has_ready(Some(post.prev_hs.commit)),
        ({
            let es = ReadyView::of(
                post.raft,
                post.prev_ss,
                post.prev_hs,
                Some(post.prev_hs.commit),
            ).committed_entries->0;
            let e = (node.raft.raft_log.stable@ + node.raft.raft_log.unstable.entries@)[k];
            exists|i: int|
                0 <= i < es.len() && (#[trigger] es[i]).index == e.index && es[i].term == e.term
                    && es[i].entry_type == e.entry_type && es[i].data == e.data@ && es[i].context
                    == e.context@
        }),
{
    let n = saving_notes_what_was_handed_out(node, rd, post);
    let before = node.raft.raft_log.stable@ + node.raft.raft_log.unstable.entries@;
    let after = post.raft.raft_log.stable@ + post.raft.raft_log.unstable.entries@;
    assert(after =~= before);
    let since = post.prev_hs.commit;
    reasons_to_be_ready(post, Some(since));
    let ks = ready_holds_every_committed_entry(post.raft, post.prev_ss, post.prev_hs, Some(since));
    let es = ReadyView::of(post.raft, post.prev_ss, post.prev_hs, Some(since)).committed_entries->0;
    assert(since < after[k].index <= post.raft.raft_log.committed);
    assert(ks.contains(k));
    let i = ks.index_of(k);
    assert(ks[i] == k);
    assert(es[i].index == before[k].index);
}

} // verus!
