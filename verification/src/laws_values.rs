//! What the views of values show, and what the empty values are.

use vstd::prelude::*;

use crate::eraftpb::{
    conf_state_view, entry_views, ConfChange, ConfChangeType, ConfState, Entry, EntryType, EntryView,
    HardState, Message, MessageType, MessageView, Snapshot, SnapshotMetadata, SnapshotView,
};
use crate::raft::{read_state_views, Configuration, ProgressSet, Raft, ReadState};
use crate::raw_node::{
    local_msg, optional_entry_views, response_msg, Peer, Ready, ReadyView,
};
use crate::INVALID_ID;

verus! {

/// No node has the id 0.
pub proof fn zero_is_the_invalid_id()
    ensures
        INVALID_ID == 0,
{
}

/// The view of an entry shows each field of it.
pub proof fn entry_view_shows_each_field(e: Entry)
    ensures
        e@.entry_type == e.entry_type,
        e@.term == e.term,
        e@.index == e.index,
        e@.data == e.data@,
        e@.context == e.context@,
{
}

/// The views of entries show each entry at its place.
pub proof fn entry_views_show_each_entry(es: Seq<Entry>)
    ensures
        entry_views(es).len() == es.len(),
        forall|i: int|
            #![trigger es[i]]
            #![trigger entry_views(es)[i]]
            0 <= i < es.len() ==> {
                &&& entry_views(es)[i].entry_type == es[i].entry_type
                &&& entry_views(es)[i].term == es[i].term
                &&& entry_views(es)[i].index == es[i].index
                &&& entry_views(es)[i].data == es[i].data@
                &&& entry_views(es)[i].context == es[i].context@
            },
{
}

/// The views of an optional list of entries are those of the list, if there is one.
pub proof fn optional_entry_views_show_the_list(es: Vec<Entry>)
    ensures
        optional_entry_views(None) is None,
        optional_entry_views(Some(es)) is Some,
        optional_entry_views(Some(es))->0.len() == es@.len(),
        forall|i: int|
            #![trigger es@[i]]
            0 <= i < es@.len() ==> {
                &&& optional_entry_views(Some(es))->0[i].entry_type == es@[i].entry_type
                &&& optional_entry_views(Some(es))->0[i].term == es@[i].term
                &&& optional_entry_views(Some(es))->0[i].index == es@[i].index
                &&& optional_entry_views(Some(es))->0[i].data == es@[i].data@
                &&& optional_entry_views(Some(es))->0[i].context == es@[i].context@
            },
{
}

/// The view of a read state shows each field of it, also in a list.
pub proof fn read_state_views_show_each_field(r: ReadState, rs: Seq<ReadState>)
    ensures
        r@.index == r.index,
        r@.request_ctx == r.request_ctx@,
        read_state_views(rs).len() == rs.len(),
        forall|i: int|
            #![trigger rs[i]]
            #![trigger read_state_views(rs)[i]]
            0 <= i < rs.len() ==> read_state_views(rs)[i].index == rs[i].index && read_state_views(
                rs,
            )[i].request_ctx == rs[i].request_ctx@,
{
}

/// The view of a group configuration shows each field of it, also of an optional one.
pub proof fn conf_state_view_shows_each_field(c: ConfState)
    ensures
        c@.nodes == c.nodes@,
        c@.learners == c.learners@,
        conf_state_view(None) is None,
        conf_state_view(Some(c)) is Some,
        conf_state_view(Some(c))->0.nodes == c.nodes@,
        conf_state_view(Some(c))->0.learners == c.learners@,
{
}

/// The view of a snapshot shows each field of it, down to its metadata.
pub proof fn snapshot_view_shows_each_field(s: Snapshot, m: SnapshotMetadata)
    ensures
        m@.index == m.index,
        m@.term == m.term,
        m@.conf_state is Some <==> m.conf_state is Some,
        m.conf_state matches Some(c) ==> m@.conf_state->0.nodes == c.nodes@
            && m@.conf_state->0.learners == c.learners@,
        s@.data == s.data@,
        s@.metadata is Some <==> s.metadata is Some,
        s.metadata matches Some(sm) ==> {
            &&& s@.metadata->0.index == sm.index
            &&& s@.metadata->0.term == sm.term
            &&& s@.metadata->0.conf_state is Some <==> sm.conf_state is Some
            &&& sm.conf_state matches Some(c) ==> s@.metadata->0.conf_state->0.nodes == c.nodes@
                && s@.metadata->0.conf_state->0.learners == c.learners@
        },
{
}

/// A snapshot covers the log up to the index in its metadata, and nothing without metadata; the
/// empty one has neither metadata nor data.
pub proof fn snapshot_index_is_in_the_metadata(s: SnapshotView)
    ensures
        s.metadata is None ==> s.index() == 0,
        s.metadata matches Some(m) ==> s.index() == m.index,
        s == SnapshotView::empty() <==> s.data.len() == 0 && s.metadata is None,
{
    if s.data.len() == 0 && s.metadata is None {
        assert(s =~= SnapshotView::empty());
    }
}

/// The view of a message shows each field of it.
pub proof fn message_view_shows_each_field(m: Message)
    ensures
        m@.msg_type == m.msg_type,
        m@.to == m.to,
        m@.from == m.from,
        m@.term == m.term,
        m@.log_term == m.log_term,
        m@.index == m.index,
        m@.commit == m.commit,
        m@.reject == m.reject,
        m@.reject_hint == m.reject_hint,
        m@.context == m.context@,
        m@.snapshot is Some <==> m.snapshot is Some,
        m.snapshot matches Some(s) ==> m@.snapshot->0 == s@,
        m@.entries.len() == m.entries@.len(),
        forall|i: int|
            #![trigger m.entries@[i]]
            #![trigger m@.entries[i]]
            0 <= i < m.entries@.len() ==> {
                &&& m@.entries[i].entry_type == m.entries@[i].entry_type
                &&& m@.entries[i].term == m.entries@[i].term
                &&& m@.entries[i].index == m.entries@[i].index
                &&& m@.entries[i].data == m.entries@[i].data@
                &&& m@.entries[i].context == m.entries@[i].context@
            },
{
}

/// The view of a change of members shows each field of it.
pub proof fn conf_change_view_shows_each_field(cc: ConfChange)
    ensures
        cc@.id == cc.id,
        cc@.change_type == cc.change_type,
        cc@.node_id == cc.node_id,
        cc@.context == cc.context@,
        cc@.start_index == cc.start_index,
        cc@.configuration is Some <==> cc.configuration is Some,
        cc.configuration matches Some(c) ==> cc@.configuration->0.nodes == c.nodes@
            && cc@.configuration->0.learners == c.learners@,
{
}

/// A message of a kind with nothing else set has the kind, and 0 or nothing in each other field.
pub proof fn bare_message_has_only_its_kind(t: MessageType)
    ensures
        ({
            let m = MessageView::of_type(t);
            &&& m.msg_type == t
            &&& m.to == 0 && m.from == 0 && m.term == 0 && m.log_term == 0 && m.index == 0
            &&& m.commit == 0 && m.reject_hint == 0
            &&& !m.reject
            &&& m.entries.len() == 0
            &&& m.context.len() == 0
            &&& m.snapshot is None
        }),
{
}

/// The empty values hold 0 or nothing in each field.
pub proof fn empty_values_hold_nothing()
    ensures
        HardState::empty().term == 0,
        HardState::empty().vote == 0,
        HardState::empty().commit == 0,
        EntryView::empty().entry_type == EntryType::EntryNormal,
        EntryView::empty().term == 0,
        EntryView::empty().index == 0,
        EntryView::empty().data.len() == 0,
        EntryView::empty().context.len() == 0,
        ReadyView::empty().ss is None,
        ReadyView::empty().hs is None,
        ReadyView::empty().read_states.len() == 0,
        ReadyView::empty().entries.len() == 0,
        ReadyView::empty().snapshot.data.len() == 0,
        ReadyView::empty().snapshot.metadata is None,
        ReadyView::empty().committed_entries is None,
        ReadyView::empty().messages.len() == 0,
        !ReadyView::empty().must_sync,
{
}

/// The values that types start with hold 0 or nothing in each field, and the first kind of each.
pub proof fn default_values_hold_nothing(
    e: Entry,
    m: Message,
    hs: HardState,
    s: Snapshot,
    c: ConfState,
    cc: ConfChange,
    p: Peer,
    rd: Ready,
)
    requires
        call_ensures(<Entry as Default>::default, (), e),
        call_ensures(<Message as Default>::default, (), m),
        call_ensures(<HardState as Default>::default, (), hs),
        call_ensures(<Snapshot as Default>::default, (), s),
        call_ensures(<ConfState as Default>::default, (), c),
        call_ensures(<ConfChange as Default>::default, (), cc),
        call_ensures(<Peer as Default>::default, (), p),
        call_ensures(<Ready as Default>::default, (), rd),
    ensures
        e.entry_type == EntryType::EntryNormal && e.term == 0 && e.index == 0,
        e.data@.len() == 0 && e.context@.len() == 0,
        m.msg_type == MessageType::MsgHup,
        m.to == 0 && m.from == 0 && m.term == 0 && m.log_term == 0 && m.index == 0,
        m.commit == 0 && m.reject_hint == 0 && !m.reject,
        m.entries@.len() == 0 && m.context@.len() == 0 && m.snapshot is None,
        hs.term == 0 && hs.vote == 0 && hs.commit == 0,
        s.data@.len() == 0 && s.metadata is None,
        c.nodes@.len() == 0 && c.learners@.len() == 0,
        cc.change_type == ConfChangeType::AddNode,
        cc.id == 0 && cc.node_id == 0 && cc.start_index == 0,
        cc.context@.len() == 0 && cc.configuration is None,
        p.id == 0 && p.context is None,
        rd@.ss is None && rd@.hs is None && !rd@.must_sync && rd@.committed_entries is None,
        rd@.read_states.len() == 0 && rd@.entries.len() == 0 && rd@.messages.len() == 0,
        rd@.snapshot.data.len() == 0 && rd@.snapshot.metadata is None,
{
    assert(e@.data.len() == 0 && e@.context.len() == 0);
    assert(m@.entries.len() == m.entries@.len());
    assert(m@.context.len() == 0 && m@.snapshot is None);
    assert(s@.data.len() == 0 && s@.metadata is None);
    assert(c@.nodes.len() == 0 && c@.learners.len() == 0);
    assert(cc@.context.len() == 0 && cc@.configuration is None);
}

/// A copy holds the same in every field.
pub proof fn copies_hold_the_same(e1: &Entry, e2: Entry, s1: &Snapshot, s2: Snapshot)
    requires
        call_ensures(<Entry as Clone>::clone, (e1,), e2),
        call_ensures(<Snapshot as Clone>::clone, (s1,), s2),
    ensures
        e2.entry_type == e1.entry_type && e2.term == e1.term && e2.index == e1.index,
        e2.data@ == e1.data@ && e2.context@ == e1.context@,
        s2.data@ == s1.data@,
        s2.metadata is Some <==> s1.metadata is Some,
        s1.metadata matches Some(m) ==> s2.metadata->0.index == m.index && s2.metadata->0.term
            == m.term,
{
    assert(e1@.data == e2@.data && e1@.context == e2@.context);
    assert(s1@.data == s2@.data && s1@.metadata == s2@.metadata);
    if let Some(m) = s1.metadata {
        assert(s1@.metadata->0 == m@);
        assert(s2@.metadata->0 == s2.metadata->0@);
    }
}

/// The states of a node that are shown are made of its leader and its role, and of its term, its
/// vote and the commit index of its log.
pub proof fn states_are_those_of_the_node<T, C>(raft: Raft<T, C>)
    ensures
        raft.spec_soft_state().leader_id == raft.leader_id,
        raft.spec_soft_state().raft_state == raft.state,
        raft.spec_hard_state().term == raft.term,
        raft.spec_hard_state().vote == raft.vote,
        raft.spec_hard_state().commit == raft.raft_log.committed,
{
}

/// A set of members is one exactly if no list in it holds an id at two places.
pub proof fn sets_of_members_hold_each_id_once(c: Configuration, p: ProgressSet)
    ensures
        c.wf() <==> c.voters@.no_duplicates() && c.learners@.no_duplicates(),
        p.wf() <==> p.peers@.no_duplicates() && p.voter_ids@.no_duplicates()
            && p.learner_ids@.no_duplicates() && p.configuration.voters@.no_duplicates()
            && p.configuration.learners@.no_duplicates(),
{
}

/// Which kinds of messages a node sends only to itself, and which answer another one.
pub proof fn kinds_of_messages(t: MessageType)
    ensures
        local_msg(t) <==> (t == MessageType::MsgHup || t == MessageType::MsgBeat || t
            == MessageType::MsgUnreachable || t == MessageType::MsgSnapStatus || t
            == MessageType::MsgCheckQuorum),
        response_msg(t) <==> (t == MessageType::MsgAppendResponse || t
            == MessageType::MsgRequestVoteResponse || t == MessageType::MsgHeartbeatResponse || t
            == MessageType::MsgUnreachable || t == MessageType::MsgRequestPreVoteResponse),
{
}

} // verus!
