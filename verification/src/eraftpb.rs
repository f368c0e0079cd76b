//! The protocol values: entries, messages, snapshots and configuration changes.
//!
//! Each type that owns bytes or lists has a view, in which those are sequences;
//! contracts compare values by their views.

use vstd::prelude::*;

verus! {

/// What an entry of the log carries.
#[derive(Debug, Clone, Copy, PartialEq, Eq, Structural)]
pub enum EntryType {
    EntryNormal,
    EntryConfChange,
}

/// One entry of the replicated log.
#[derive(Debug, PartialEq, Eq)]
pub struct Entry {
    pub entry_type: EntryType,
    pub term: u64,
    pub index: u64,
    pub data: Vec<u8>,
    pub context: Vec<u8>,
}

#[verifier::ext_equal]
pub struct EntryView {
    pub entry_type: EntryType,
    pub term: u64,
    pub index: u64,
    pub data: Seq<u8>,
    pub context: Seq<u8>,
}

impl View for Entry {
    type V = EntryView;

    open spec fn view(&self) -> EntryView {
        EntryView {
            entry_type: self.entry_type,
            term: self.term,
            index: self.index,
            data: self.data@,
            context: self.context@,
        }
    }
}

impl EntryView {
    /// An entry with no content.
    pub open spec fn empty() -> EntryView {
        EntryView {
            entry_type: EntryType::EntryNormal,
            term: 0,
            index: 0,
            data: Seq::empty(),
            context: Seq::empty(),
        }
    }
}

/// The views of the entries of a list, in order.
pub open spec fn entry_views(entries: Seq<Entry>) -> Seq<EntryView> {
    entries.map_values(|e: Entry| e@)
}

impl Default for Entry {
    fn default() -> (e: Entry)
        ensures
            e@ == EntryView::empty(),
    {
        Entry {
            entry_type: EntryType::EntryNormal,
            term: 0,
            index: 0,
            data: Vec::new(),
            context: Vec::new(),
        }
    }
}

impl Clone for Entry {
    fn clone(&self) -> (e: Entry)
        ensures
            e@ == self@,
    {
        Entry {
            entry_type: self.entry_type,
            term: self.term,
            index: self.index,
            data: self.data.clone(),
            context: self.context.clone(),
        }
    }
}

/// The members of a group.
#[derive(Debug, PartialEq, Eq)]
pub struct ConfState {
    pub nodes: Vec<u64>,
    pub learners: Vec<u64>,
}

#[verifier::ext_equal]
pub struct ConfStateView {
    pub nodes: Seq<u64>,
    pub learners: Seq<u64>,
}

impl View for ConfState {
    type V = ConfStateView;

    open spec fn view(&self) -> ConfStateView {
        ConfStateView { nodes: self.nodes@, learners: self.learners@ }
    }
}

impl Default for ConfState {
    fn default() -> (c: ConfState)
        ensures
            c@ == (ConfStateView { nodes: Seq::empty(), learners: Seq::empty() }),
    {
        ConfState { nodes: Vec::new(), learners: Vec::new() }
    }
}

impl Clone for ConfState {
    fn clone(&self) -> (c: ConfState)
        ensures
            c@ == self@,
    {
        ConfState { nodes: self.nodes.clone(), learners: self.learners.clone() }
    }
}

/// The view of an optional group configuration.
pub open spec fn conf_state_view(c: Option<ConfState>) -> Option<ConfStateView> {
    match c {
        Some(c) => Some(c@),
        None => None,
    }
}

/// Where in the log a snapshot was taken, and of which group.
#[derive(Debug, PartialEq, Eq)]
pub struct SnapshotMetadata {
    pub conf_state: Option<ConfState>,
    pub index: u64,
    pub term: u64,
}

#[verifier::ext_equal]
pub struct SnapshotMetadataView {
    pub conf_state: Option<ConfStateView>,
    pub index: u64,
    pub term: u64,
}

impl View for SnapshotMetadata {
    type V = SnapshotMetadataView;

    open spec fn view(&self) -> SnapshotMetadataView {
        SnapshotMetadataView {
            conf_state: conf_state_view(self.conf_state),
            index: self.index,
            term: self.term,
        }
    }
}

impl Clone for SnapshotMetadata {
    fn clone(&self) -> (m: SnapshotMetadata)
        ensures
            m@ == self@,
    {
        SnapshotMetadata {
            conf_state: match &self.conf_state {
                Some(c) => Some(c.clone()),
                None => None,
            },
            index: self.index,
            term: self.term,
        }
    }
}

/// A snapshot of the application's state.
#[derive(Debug, PartialEq, Eq)]
pub struct Snapshot {
    pub data: Vec<u8>,
    pub metadata: Option<SnapshotMetadata>,
}

#[verifier::ext_equal]
pub struct SnapshotView {
    pub data: Seq<u8>,
    pub metadata: Option<SnapshotMetadataView>,
}

impl View for Snapshot {
    type V = SnapshotView;

    open spec fn view(&self) -> SnapshotView {
        SnapshotView {
            data: self.data@,
            metadata: match self.metadata {
                Some(m) => Some(m@),
                None => None,
            },
        }
    }
}

impl SnapshotView {
    /// The snapshot that holds nothing, not even metadata.
    pub open spec fn empty() -> SnapshotView {
        SnapshotView { data: Seq::empty(), metadata: None }
    }

    /// The index of the last entry that the snapshot covers; 0 without metadata.
    pub open spec fn index(self) -> u64 {
        match self.metadata {
            Some(m) => m.index,
            None => 0,
        }
    }
}

impl Default for Snapshot {
    fn default() -> (s: Snapshot)
        ensures
            s@ == SnapshotView::empty(),
    {
        Snapshot { data: Vec::new(), metadata: None }
    }
}

impl Clone for Snapshot {
    fn clone(&self) -> (s: Snapshot)
        ensures
            s@ == self@,
    {
        Snapshot {
            data: self.data.clone(),
            metadata: match &self.metadata {
                Some(m) => Some(m.clone()),
                None => None,
            },
        }
    }
}

impl Snapshot {
    /// The index of the last entry that the snapshot covers; 0 without metadata.
    pub fn index(&self) -> (index: u64)
        ensures
            index == self@.index(),
    {
        match &self.metadata {
            Some(m) => m.index,
            None => 0,
        }
    }

    /// Whether this is the snapshot that holds nothing, not even metadata.
    pub fn is_default(&self) -> (b: bool)
        ensures
            b == (self@ == SnapshotView::empty()),
    {
        let b = self.data.is_empty() && self.metadata.is_none();
        assert(b ==> self@ =~= SnapshotView::empty());
        b
    }
}

/// The kinds of messages.
#[derive(Debug, Clone, Copy, PartialEq, Eq, Structural)]
pub enum MessageType {
    MsgHup,
    MsgBeat,
    MsgPropose,
    MsgAppend,
    MsgAppendResponse,
    MsgRequestVote,
    MsgRequestVoteResponse,
    MsgSnapshot,
    MsgHeartbeat,
    MsgHeartbeatResponse,
    MsgUnreachable,
    MsgSnapStatus,
    MsgCheckQuorum,
    MsgTransferLeader,
    MsgTimeoutNow,
    MsgReadIndex,
    MsgReadIndexResp,
    MsgRequestPreVote,
    MsgRequestPreVoteResponse,
}

/// A message between the nodes of a group, or from a node to itself.
#[derive(Debug, PartialEq, Eq)]
pub struct Message {
    pub msg_type: MessageType,
    pub to: u64,
    pub from: u64,
    pub term: u64,
    pub log_term: u64,
    pub index: u64,
    pub entries: Vec<Entry>,
    pub commit: u64,
    pub snapshot: Option<Snapshot>,
    pub reject: bool,
    pub reject_hint: u64,
    pub context: Vec<u8>,
}

#[verifier::ext_equal]
pub struct MessageView {
    pub msg_type: MessageType,
    pub to: u64,
    pub from: u64,
    pub term: u64,
    pub log_term: u64,
    pub index: u64,
    pub entries: Seq<EntryView>,
    pub commit: u64,
    pub snapshot: Option<SnapshotView>,
    pub reject: bool,
    pub reject_hint: u64,
    pub context: Seq<u8>,
}

impl View for Message {
    type V = MessageView;

    open spec fn view(&self) -> MessageView {
        MessageView {
            msg_type: self.msg_type,
            to: self.to,
            from: self.from,
            term: self.term,
            log_term: self.log_term,
            index: self.index,
            entries: entry_views(self.entries@),
            commit: self.commit,
            snapshot: match self.snapshot {
                Some(s) => Some(s@),
                None => None,
            },
            reject: self.reject,
            reject_hint: self.reject_hint,
            context: self.context@,
        }
    }
}

impl MessageView {
    /// A message of the given kind with nothing else set.
    pub open spec fn of_type(t: MessageType) -> MessageView {
        MessageView {
            msg_type: t,
            to: 0,
            from: 0,
            term: 0,
            log_term: 0,
            index: 0,
            entries: Seq::empty(),
            commit: 0,
            snapshot: None,
            reject: false,
            reject_hint: 0,
            context: Seq::empty(),
        }
    }
}

impl Message {
    /// A message of the given kind with nothing else set.
    pub fn of_type(t: MessageType) -> (m: Message)
        ensures
            m@ == MessageView::of_type(t),
    {
        let m = Message {
            msg_type: t,
            to: 0,
            from: 0,
            term: 0,
            log_term: 0,
            index: 0,
            entries: Vec::new(),
            commit: 0,
            snapshot: None,
            reject: false,
            reject_hint: 0,
            context: Vec::new(),
        };
        assert(m@ =~= MessageView::of_type(t));
        m
    }
}

impl Default for Message {
    fn default() -> (m: Message)
        ensures
            m@ == MessageView::of_type(MessageType::MsgHup),
    {
        Message::of_type(MessageType::MsgHup)
    }
}

/// What a node must keep across restarts besides its log.
#[derive(Debug, Clone, Copy, PartialEq, Eq, Structural)]
pub struct HardState {
    pub term: u64,
    pub vote: u64,
    pub commit: u64,
}

impl HardState {
    /// The hard state of a node that has seen nothing yet.
    pub open spec fn empty() -> HardState {
        HardState { term: 0, vote: 0, commit: 0 }
    }
}

impl Default for HardState {
    fn default() -> (h: HardState)
        ensures
            h == HardState::empty(),
    {
        HardState { term: 0, vote: 0, commit: 0 }
    }
}

/// The kinds of changes to the members of a group.
#[derive(Debug, Clone, Copy, PartialEq, Eq, Structural)]
pub enum ConfChangeType {
    AddNode,
    RemoveNode,
    AddLearnerNode,
    BeginMembershipChange,
    FinalizeMembershipChange,
}

/// A change to the members of a group.
#[derive(Debug, PartialEq, Eq)]
pub struct ConfChange {
    pub id: u64,
    pub change_type: ConfChangeType,
    pub node_id: u64,
    pub context: Vec<u8>,
    /// The members after a change of many at once.
    pub configuration: Option<ConfState>,
    /// The index of the entry that begins a change of many at once.
    pub start_index: u64,
}

#[verifier::ext_equal]
pub struct ConfChangeView {
    pub id: u64,
    pub change_type: ConfChangeType,
    pub node_id: u64,
    pub context: Seq<u8>,
    pub configuration: Option<ConfStateView>,
    pub start_index: u64,
}

impl View for ConfChange {
    type V = ConfChangeView;

    open spec fn view(&self) -> ConfChangeView {
        ConfChangeView {
            id: self.id,
            change_type: self.change_type,
            node_id: self.node_id,
            context: self.context@,
            configuration: conf_state_view(self.configuration),
            start_index: self.start_index,
        }
    }
}

impl Default for ConfChange {
    fn default() -> (c: ConfChange)
        ensures
            c@ == (ConfChangeView {
                id: 0,
                change_type: ConfChangeType::AddNode,
                node_id: 0,
                context: Seq::empty(),
                configuration: None,
                start_index: 0,
            }),
    {
        ConfChange {
            id: 0,
            change_type: ConfChangeType::AddNode,
            node_id: 0,
            context: Vec::new(),
            configuration: None,
            start_index: 0,
        }
    }
}

} // verus!
