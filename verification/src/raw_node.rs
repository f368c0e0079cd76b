//! The raw node: the value types that pass between a node and its application,
//! and the node itself, without the consensus algorithm.

use vstd::prelude::*;

use crate::eraftpb::{
    entry_views, ConfChange, ConfChangeType, ConfChangeView, ConfState, ConfStateView, Entry,
    EntryType, EntryView, HardState, Message, MessageType, MessageView, Snapshot, SnapshotView,
};
use crate::raft::{
    read_state_views, Config, Consensus, Error, Raft, ReadState, ReadStateView, SoftState,
    StateRole, Status,
};
use crate::raft_log::last_position;
use crate::wire::{conf_change_bytes, encode_conf_change};
use crate::INVALID_ID;

verus! {

/// A node of the group.
#[derive(Debug)]
pub struct Peer {
    /// The id of the peer.
    pub id: u64,
    /// What the application keeps with the peer, such as how to connect to it, as bytes.
    pub context: Option<Vec<u8>>,
}

impl Default for Peer {
    fn default() -> (p: Peer)
        ensures
            p.id == 0,
            p.context is None,
    {
        Peer { id: 0, context: None }
    }
}

/// What became of a snapshot that was sent.
#[derive(Debug, PartialEq, Eq, Copy, Clone, Structural)]
pub enum SnapshotStatus {
    /// The peer has it.
    Finish,
    /// It failed to build or to arrive.
    Failure,
}

/// The messages that a node sends only to itself.
pub open spec fn local_msg(t: MessageType) -> bool {
    ||| t is MsgHup
    ||| t is MsgBeat
    ||| t is MsgUnreachable
    ||| t is MsgSnapStatus
    ||| t is MsgCheckQuorum
}

/// The messages that answer another one.
pub open spec fn response_msg(t: MessageType) -> bool {
    ||| t is MsgAppendResponse
    ||| t is MsgRequestVoteResponse
    ||| t is MsgHeartbeatResponse
    ||| t is MsgUnreachable
    ||| t is MsgRequestPreVoteResponse
}

/// Whether messages of this kind are only ever sent by a node to itself.
pub fn is_local_msg(t: MessageType) -> (b: bool)
    ensures
        b == local_msg(t),
{
    match t {
        MessageType::MsgHup
        | MessageType::MsgBeat
        | MessageType::MsgUnreachable
        | MessageType::MsgSnapStatus
        | MessageType::MsgCheckQuorum => true,
        _ => false,
    }
}

/// Whether messages of this kind answer another message.
pub fn is_response_msg(t: MessageType) -> (b: bool)
    ensures
        b == response_msg(t),
{
    match t {
        MessageType::MsgAppendResponse
        | MessageType::MsgRequestVoteResponse
        | MessageType::MsgHeartbeatResponse
        | MessageType::MsgUnreachable
        | MessageType::MsgRequestPreVoteResponse => true,
        _ => false,
    }
}

/// Whether a snapshot is empty: it covers no entry.
pub fn is_empty_snap(s: &Snapshot) -> (b: bool)
    ensures
        b == (s@.index() == 0),
{
    s.index() == 0
}

/// What is ready to be read, saved to stable storage, committed or sent to peers.
#[derive(Debug, PartialEq)]
pub struct Ready {
    ss: Option<SoftState>,
    hs: Option<HardState>,
    read_states: Vec<ReadState>,
    entries: Vec<Entry>,
    snapshot: Snapshot,
    /// The committed entries to be applied. Some of them may also be among the entries that
    /// this node has yet to save.
    pub committed_entries: Option<Vec<Entry>>,
    /// The messages to be sent AFTER the entries are committed to stable storage.
    /// If there is a snapshot message among them, the application MUST report back when the
    /// snapshot has been received or has failed, with `report_snapshot`.
    pub messages: Vec<Message>,
    must_sync: bool,
}

#[verifier::ext_equal]
pub struct ReadyView {
    pub ss: Option<SoftState>,
    pub hs: Option<HardState>,
    pub read_states: Seq<ReadStateView>,
    pub entries: Seq<EntryView>,
    pub snapshot: SnapshotView,
    pub committed_entries: Option<Seq<EntryView>>,
    pub messages: Seq<Message>,
    pub must_sync: bool,
}

impl View for Ready {
    type V = ReadyView;

    closed spec fn view(&self) -> ReadyView {
        ReadyView {
            ss: self.ss,
            hs: self.hs,
            read_states: read_state_views(self.read_states@),
            entries: entry_views(self.entries@),
            snapshot: self.snapshot@,
            committed_entries: optional_entry_views(self.committed_entries),
            messages: self.messages@,
            must_sync: self.must_sync,
        }
    }
}

/// The views of an optional list of entries, in order.
pub open spec fn optional_entry_views(entries: Option<Vec<Entry>>) -> Option<Seq<EntryView>> {
    match entries {
        Some(es) => Some(entry_views(es@)),
        None => None,
    }
}

impl ReadyView {
    /// What is ready in a state, given the soft and hard state that the application has seen.
    /// The committed entries are those above `since_idx`, or else those not applied.
    pub open spec fn of<T, C>(
        raft: Raft<T, C>,
        prev_ss: SoftState,
        prev_hs: HardState,
        since_idx: Option<u64>,
    ) -> ReadyView {
        let ss = raft.spec_soft_state();
        let hs = raft.spec_hard_state();
        ReadyView {
            ss: if ss != prev_ss { Some(ss) } else { None },
            hs: if hs != prev_hs { Some(hs) } else { None },
            read_states: read_state_views(raft.read_states@),
            entries: entry_views(raft.raft_log.unstable.entries@),
            snapshot: match raft.raft_log.unstable.snapshot {
                Some(s) => s@,
                None => SnapshotView::empty(),
            },
            committed_entries: Some(
                entry_views(
                    raft.raft_log.committed_since(
                        match since_idx {
                            Some(idx) => idx,
                            None => raft.raft_log.applied,
                        },
                    ),
                ),
            ),
            messages: raft.msgs@,
            must_sync: hs.vote != prev_hs.vote || hs.term != prev_hs.term,
        }
    }

    /// A ready value with nothing in it.
    pub open spec fn empty() -> ReadyView {
        ReadyView {
            ss: None,
            hs: None,
            read_states: Seq::empty(),
            entries: Seq::empty(),
            snapshot: SnapshotView::empty(),
            committed_entries: None,
            messages: Seq::empty(),
            must_sync: false,
        }
    }

    /// Whether there is nothing to be noted once the application has saved this value. The
    /// messages, the committed entries and whether to write synchronously do not count.
    pub open spec fn saves_nothing(self) -> bool {
        &&& self.ss is None
        &&& self.hs is None
        &&& self.read_states.len() == 0
        &&& self.entries.len() == 0
        &&& self.snapshot == SnapshotView::empty()
    }

    /// Whether there is anything for the application to do.
    pub open spec fn contains_updates(self) -> bool {
        ||| self.ss is Some
        ||| self.hs matches Some(hs) && hs != HardState::empty()
        ||| self.read_states.len() > 0
        ||| self.entries.len() > 0
        ||| self.snapshot.index() != 0
        ||| self.committed_entries matches Some(es) && es.len() > 0
        ||| self.messages.len() > 0
    }
}

impl Default for Ready {
    fn default() -> (rd: Ready)
        ensures
            rd@ == ReadyView::empty(),
    {
        let rd = Ready {
            ss: None,
            hs: None,
            read_states: Vec::new(),
            entries: Vec::new(),
            snapshot: Snapshot::default(),
            committed_entries: None,
            messages: Vec::new(),
            must_sync: false,
        };
        assert(rd@ =~= ReadyView::empty());
        rd
    }
}

impl Ready {
    /// Gathers what is ready, and takes the messages out of the state.
    fn new<T, C>(
        raft: &mut Raft<T, C>,
        prev_ss: &SoftState,
        prev_hs: &HardState,
        since_idx: Option<u64>,
    ) -> (rd: Ready)
        ensures
            rd@ == ReadyView::of(*old(raft), *prev_ss, *prev_hs, since_idx),
            rd@.messages == old(raft).msgs@,
            final(raft).msgs@.len() == 0,
            *final(raft) == (Raft { msgs: final(raft).msgs, ..*old(raft) }),
    {
        let mut rd = Ready::default();
        assert(rd@.entries.len() == 0);
        match raft.raft_log.unstable_entries() {
            Some(entries) => {
                rd.entries.extend_from_slice(entries);
            },
            None => {},
        }
        if !raft.msgs.is_empty() {
            std::mem::swap(&mut raft.msgs, &mut rd.messages);
        }
        let next = match since_idx {
            None => raft.raft_log.next_entries(),
            Some(idx) => raft.raft_log.next_entries_since(idx),
        };
        rd.committed_entries = Some(next.unwrap_or(Vec::new()));
        let ss = raft.soft_state();
        if ss != *prev_ss {
            rd.ss = Some(ss);
        }
        let hs = raft.hard_state();
        if hs != *prev_hs {
            if hs.vote != prev_hs.vote || hs.term != prev_hs.term {
                rd.must_sync = true;
            }
            rd.hs = Some(hs);
        }
        match &raft.raft_log.unstable.snapshot {
            Some(s) => {
                rd.snapshot = s.clone();
            },
            None => {},
        }
        if !raft.read_states.is_empty() {
            rd.read_states = raft.read_states.clone();
        }
        assert(rd@.entries =~= entry_views(raft.raft_log.unstable.entries@));
        assert(rd@ =~= ReadyView::of(*old(raft), *prev_ss, *prev_hs, since_idx));
        rd
    }

    /// The volatile state of the node, if it has changed.
    /// The application need not use or store it.
    pub fn ss(&self) -> (r: Option<&SoftState>)
        ensures
            r is Some <==> self@.ss is Some,
            r matches Some(ss) ==> *ss == self@.ss->0,
    {
        self.ss.as_ref()
    }

    /// The state of the node to be saved to stable storage BEFORE the messages are sent, if it
    /// has changed.
    pub fn hs(&self) -> (r: Option<&HardState>)
        ensures
            r is Some <==> self@.hs is Some,
            r matches Some(hs) ==> *hs == self@.hs->0,
    {
        self.hs.as_ref()
    }

    /// The answers to read requests. Once the applied index has passed the index of one, the
    /// node can serve the read locally that it was asked for.
    pub fn read_states(&self) -> (r: &[ReadState])
        ensures
            read_state_views(r@) == self@.read_states,
    {
        self.read_states.as_slice()
    }

    /// The entries to be saved to stable storage BEFORE the messages are sent.
    pub fn entries(&self) -> (r: &[Entry])
        ensures
            entry_views(r@) == self@.entries,
    {
        self.entries.as_slice()
    }

    /// The snapshot to be saved to stable storage.
    pub fn snapshot(&self) -> (r: &Snapshot)
        ensures
            r@ == self@.snapshot,
    {
        &self.snapshot
    }

    /// Whether the hard state and the entries must be written to disk synchronously, or an
    /// asynchronous write will do.
    pub fn must_sync(&self) -> (b: bool)
        ensures
            b == self@.must_sync,
    {
        self.must_sync
    }

    /// The committed entries to be applied, if they have not been taken out.
    pub fn committed_entries(&self) -> (r: Option<&Vec<Entry>>)
        ensures
            r is Some <==> self@.committed_entries is Some,
            r matches Some(es) ==> entry_views(es@) == self@.committed_entries->0,
    {
        self.committed_entries.as_ref()
    }

    /// The messages to be sent, if they have not been taken out.
    pub fn messages(&self) -> (r: &[Message])
        ensures
            r@ == self@.messages,
    {
        self.messages.as_slice()
    }

    /// Takes the committed entries out, and leaves all else as it is.
    pub fn take_committed_entries(&mut self) -> (r: Option<Vec<Entry>>)
        ensures
            optional_entry_views(r) == old(self)@.committed_entries,
            final(self)@ == (ReadyView { committed_entries: None, ..old(self)@ }),
    {
        let mut taken: Option<Vec<Entry>> = None;
        std::mem::swap(&mut taken, &mut self.committed_entries);
        taken
    }

    /// Takes the messages out, and leaves all else as it is.
    pub fn take_messages(&mut self) -> (r: Vec<Message>)
        ensures
            r@ == old(self)@.messages,
            final(self)@ == (ReadyView { messages: Seq::empty(), ..old(self)@ }),
    {
        let mut taken: Vec<Message> = Vec::new();
        std::mem::swap(&mut taken, &mut self.messages);
        taken
    }

    /// This ready value with other values in its two public fields.
    pub closed spec fn with_public_fields(
        self,
        committed_entries: Option<Vec<Entry>>,
        messages: Vec<Message>,
    ) -> Ready {
        Ready { committed_entries, messages, ..self }
    }
}

/// The view of a ready value shows each field of it.
proof fn ready_view_shows_each_field(rd: Ready)
    ensures
        rd@.ss == rd.ss,
        rd@.hs == rd.hs,
        rd@.read_states.len() == rd.read_states@.len(),
        forall|i: int|
            #![trigger rd.read_states@[i]]
            0 <= i < rd.read_states@.len() ==> rd@.read_states[i].index == rd.read_states@[i].index
                && rd@.read_states[i].request_ctx == rd.read_states@[i].request_ctx@,
        rd@.entries.len() == rd.entries@.len(),
        forall|i: int|
            #![trigger rd.entries@[i]]
            0 <= i < rd.entries@.len() ==> rd@.entries[i] == rd.entries@[i]@,
        rd@.snapshot == rd.snapshot@,
        rd@.committed_entries is Some <==> rd.committed_entries is Some,
        rd.committed_entries matches Some(es) ==> {
            &&& rd@.committed_entries->0.len() == es@.len()
            &&& forall|i: int|
                #![trigger es@[i]]
                0 <= i < es@.len() ==> rd@.committed_entries->0[i] == es@[i]@
        },
        rd@.messages == rd.messages@,
        rd@.must_sync == rd.must_sync,
{
}

/// Whatever a caller leaves in the public fields of a ready value, all else in it stays as it
/// was.
pub proof fn public_fields_are_apart(
    rd: Ready,
    committed_entries: Option<Vec<Entry>>,
    messages: Vec<Message>,
)
    ensures
        rd.with_public_fields(committed_entries, messages)@ == (ReadyView {
            committed_entries: optional_entry_views(committed_entries),
            messages: messages@,
            ..rd@
        }),
{
}

/// The entries of a ready value are the unsaved ones of the state that it was made in, also once
/// the caller has taken the messages and the committed entries out.
pub proof fn entries_outlast_what_is_taken<T, C>(
    raft: Raft<T, C>,
    prev_ss: SoftState,
    prev_hs: HardState,
    since_idx: Option<u64>,
    rd: Ready,
    committed_entries: Option<Vec<Entry>>,
    messages: Vec<Message>,
)
    requires
        rd@ == ReadyView::of(raft, prev_ss, prev_hs, since_idx),
    ensures
        rd.with_public_fields(committed_entries, messages)@.entries == entry_views(
            raft.raft_log.unstable.entries@,
        ),
{
    public_fields_are_apart(rd, committed_entries, messages);
}

/// A node without threads or timers of its own.
pub struct RawNode<T, C> {
    /// The state of the node.
    pub raft: Raft<T, C>,
    prev_ss: SoftState,
    prev_hs: HardState,
}

#[verifier::ext_equal]
pub struct RawNodeView<T, C> {
    pub raft: Raft<T, C>,
    /// The soft state that the application has seen.
    pub prev_ss: SoftState,
    /// The hard state that the application has seen.
    pub prev_hs: HardState,
}

impl<T, C> View for RawNode<T, C> {
    type V = RawNodeView<T, C>;

    closed spec fn view(&self) -> RawNodeView<T, C> {
        RawNodeView { raft: self.raft, prev_ss: self.prev_ss, prev_hs: self.prev_hs }
    }
}

/// The view of a node shows each field of it.
proof fn node_view_shows_each_field<T, C>(node: RawNode<T, C>)
    ensures
        node@.raft == node.raft,
        node@.prev_ss == node.prev_ss,
        node@.prev_hs == node.prev_hs,
{
}

impl<T, C> RawNodeView<T, C> {
    /// Whether there is something for the application to do, committed entries counting from
    /// `applied_idx`, or else from what is applied.
    pub open spec fn has_ready(self, applied_idx: Option<u64>) -> bool {
        let log = self.raft.raft_log;
        let since = match applied_idx {
            Some(idx) => idx,
            None => log.applied,
        };
        let hs = self.raft.spec_hard_state();
        ||| self.raft.msgs@.len() > 0
        ||| log.unstable.entries@.len() > 0
        ||| self.raft.read_states@.len() > 0
        ||| log.unstable.snapshot matches Some(s) && s@.index() != 0
        ||| log.committed_since(since).len() > 0
        ||| self.raft.spec_soft_state() != self.prev_ss
        ||| hs != HardState::empty() && hs != self.prev_hs
    }

    /// Whether `post` is this node once the application has saved what `rd` told it to save.
    pub open spec fn saved(self, rd: ReadyView, post: RawNodeView<T, C>) -> bool {
        let log = self.raft.raft_log;
        let unsaved = log.unstable.entries@;
        let n = if rd.entries.len() > 0 {
            last_position(unsaved, rd.entries.last().index, rd.entries.last().term) + 1
        } else {
            0
        };
        // The application has seen the states that it was shown.
        &&& post.prev_ss == (match rd.ss {
            Some(ss) => ss,
            None => self.prev_ss,
        })
        &&& post.prev_hs == (match rd.hs {
            Some(hs) if hs != HardState::empty() => hs,
            _ => self.prev_hs,
        })
        // Its entries are saved, unless the log has been overwritten meanwhile.
        &&& post.raft.raft_log.stable@ == log.stable@ + unsaved.take(n)
        &&& post.raft.raft_log.unstable.entries@ == unsaved.skip(n)
        // Its snapshot is saved, unless another one has come in meanwhile.
        &&& post.raft.raft_log.unstable.snapshot == (match log.unstable.snapshot {
            Some(s) if rd.snapshot == SnapshotView::empty() || s@.index() != rd.snapshot.index()
                => Some(s),
            _ => None,
        })
        &&& post.raft.raft_log.committed == log.committed
        &&& post.raft.raft_log.applied == log.applied
        // The read requests that it answered are done with.
        &&& post.raft.read_states@ == (if rd.read_states.len() > 0 {
            Seq::empty()
        } else {
            self.raft.read_states@
        })
        &&& post.raft == (Raft {
            raft_log: post.raft.raft_log,
            read_states: post.raft.read_states,
            ..self.raft
        })
        // If there was nothing to save, nothing at all has changed.
        &&& rd.saves_nothing() ==> post == self
    }
}

/// The proposal of an entry.
pub open spec fn propose_message(id: u64, context: Seq<u8>, data: Seq<u8>) -> MessageView {
    MessageView {
        from: id,
        entries: seq![EntryView { data, context, ..EntryView::empty() }],
        ..MessageView::of_type(MessageType::MsgPropose)
    }
}

/// The proposal of a change of members. It does not say whom it is from.
pub open spec fn conf_change_message(context: Seq<u8>, cc: ConfChangeView) -> MessageView {
    MessageView {
        entries: seq![
            EntryView {
                entry_type: EntryType::EntryConfChange,
                data: conf_change_bytes(cc),
                context,
                ..EntryView::empty()
            },
        ],
        ..MessageView::of_type(MessageType::MsgPropose)
    }
}

/// The report that a node cannot be reached.
pub open spec fn unreachable_message(id: u64) -> MessageView {
    MessageView { from: id, ..MessageView::of_type(MessageType::MsgUnreachable) }
}

/// The report of what became of a snapshot that was sent to a node.
pub open spec fn snap_status_message(id: u64, status: SnapshotStatus) -> MessageView {
    MessageView {
        from: id,
        reject: status is Failure,
        ..MessageView::of_type(MessageType::MsgSnapStatus)
    }
}

/// The request to make a node the leader.
pub open spec fn transfer_leader_message(transferee: u64) -> MessageView {
    MessageView { from: transferee, ..MessageView::of_type(MessageType::MsgTransferLeader) }
}

/// The request of a read state.
pub open spec fn read_index_message(rctx: Seq<u8>) -> MessageView {
    MessageView {
        entries: seq![EntryView { data: rctx, ..EntryView::empty() }],
        ..MessageView::of_type(MessageType::MsgReadIndex)
    }
}

/// Whether a change of members is about no node, and so changes nothing.
pub open spec fn conf_change_is_noop(cc: ConfChangeView) -> bool {
    cc.node_id == INVALID_ID && cc.change_type !is BeginMembershipChange
}

/// The members that a change of members reports, given the outcome of the change itself.
pub open spec fn conf_change_outcome<T, C>(
    done: Result<(), Error>,
    raft: Raft<T, C>,
    res: Result<ConfState, Error>,
) -> bool {
    match done {
        Ok(_) => res matches Ok(cs) && cs@ == (ConfStateView {
            nodes: raft.prs.configuration.voters@,
            learners: raft.prs.configuration.learners@,
        }),
        Err(e) => res == Err::<ConfState, Error>(e),
    }
}

/// That reported members are reported once: of a change of no node, if the members that were
/// tracked before it are; of any other, if the members in force after it are.
pub open spec fn members_once<T, C>(
    cc: ConfChangeView,
    pre: Raft<T, C>,
    post: Raft<T, C>,
    cs: ConfState,
) -> bool {
    (if conf_change_is_noop(cc) {
        pre.prs.wf()
    } else {
        post.prs.configuration.wf()
    }) ==> cs.nodes@.no_duplicates() && cs.learners@.no_duplicates()
}

impl<T, C: Consensus<T>> RawNode<T, C> {
    /// Sets up a node. The application is taken to have seen its soft and hard state.
    pub fn new(config: &Config<C::Options>, store: T) -> (res: Result<RawNode<T, C>, Error>)
        requires
            config.id != INVALID_ID,
        ensures
            exists|made: Result<Raft<T, C>, Error>| #[trigger]
                call_ensures(C::new, (config, store), made) && match made {
                    Ok(raft) => res matches Ok(node) && node@ == (RawNodeView {
                        raft,
                        prev_ss: raft.spec_soft_state(),
                        prev_hs: raft.spec_hard_state(),
                    }),
                    Err(e) => res == Err::<RawNode<T, C>, Error>(e),
                },
    {
        match C::new(config, store) {
            Ok(raft) => {
                let prev_hs = raft.hard_state();
                let prev_ss = raft.soft_state();
                Ok(RawNode { raft, prev_ss, prev_hs })
            },
            Err(e) => Err(e),
        }
    }

    /// Takes note of what the application has saved.
    fn commit_ready(&mut self, rd: Ready)
        ensures
            old(self)@.saved(rd@, final(self)@),
    {
        match rd.ss {
            Some(ss) => {
                self.prev_ss = ss;
            },
            None => {},
        }
        match rd.hs {
            Some(hs) => {
                if hs != HardState::default() {
                    self.prev_hs = hs;
                }
            },
            None => {},
        }
        if !rd.entries.is_empty() {
            let e = &rd.entries[rd.entries.len() - 1];
            self.raft.raft_log.stable_to(e.index, e.term);
        }
        if !rd.snapshot.is_default() {
            self.raft.raft_log.stable_snap_to(rd.snapshot.index());
        }
        if !rd.read_states.is_empty() {
            self.raft.read_states.clear();
        }
        proof {
            let pre = old(self).raft.raft_log;
            let unsaved = pre.unstable.entries@;
            let post = self.raft.raft_log;
            if rd.entries@.len() == 0 {
                assert(post.stable@ =~= pre.stable@ + unsaved.take(0));
                assert(post.unstable.entries@ =~= unsaved.skip(0));
            } else {
                assert(rd@.entries.last() == rd.entries@.last()@);
            }
        }
    }

    /// Takes note of what the application has applied.
    fn commit_apply(&mut self, applied: u64)
        ensures
            exists|r: &mut Raft<T, C>| #[trigger]
                call_ensures(C::commit_apply, (r, applied), ()) && *r == old(self)@.raft && *final(r)
                    == final(self)@.raft,
            final(self)@ == (RawNodeView { raft: final(self)@.raft, ..old(self)@ }),
    {
        C::commit_apply(&mut self.raft, applied);
    }

    /// Advances the logical clock by a single tick.
    ///
    /// True if there will probably be something ready that needs to be handled.
    pub fn tick(&mut self) -> (res: bool)
        ensures
            exists|r: &mut Raft<T, C>| #[trigger]
                call_ensures(C::tick, (r,), res) && *r == old(self)@.raft && *final(r)
                    == final(self)@.raft,
            final(self)@ == (RawNodeView { raft: final(self)@.raft, ..old(self)@ }),
    {
        C::tick(&mut self.raft)
    }

    /// Makes the node stand for election.
    pub fn campaign(&mut self) -> (res: Result<(), Error>)
        ensures
            exists|r: &mut Raft<T, C>, m: Message| #[trigger]
                call_ensures(C::step, (r, m), res) && m@ == MessageView::of_type(MessageType::MsgHup)
                    && *r == old(self)@.raft && *final(r) == final(self)@.raft,
            final(self)@ == (RawNodeView { raft: final(self)@.raft, ..old(self)@ }),
    {
        let m = Message::of_type(MessageType::MsgHup);
        C::step(&mut self.raft, m)
    }

    /// Proposes that data be appended to the log.
    pub fn propose(&mut self, context: Vec<u8>, data: Vec<u8>) -> (res: Result<(), Error>)
        ensures
            exists|r: &mut Raft<T, C>, m: Message| #[trigger]
                call_ensures(C::step, (r, m), res) && m@ == propose_message(
                    old(self)@.raft.id,
                    context@,
                    data@,
                ) && *r == old(self)@.raft && *final(r) == final(self)@.raft,
            final(self)@ == (RawNodeView { raft: final(self)@.raft, ..old(self)@ }),
    {
        let mut m = Message::of_type(MessageType::MsgPropose);
        m.from = self.raft.id;
        let mut e = Entry::default();
        e.data = data;
        e.context = context;
        m.entries = vec![e];
        assert(m@ =~~= propose_message(self.raft.id, context@, data@));
        C::step(&mut self.raft, m)
    }

    /// Broadcasts heartbeats to all the followers.
    ///
    /// If the node is not the leader, nothing will happen.
    pub fn ping(&mut self)
        ensures
            old(self)@.raft.state is Leader ==> exists|r: &mut Raft<T, C>| #[trigger]
                call_ensures(C::ping, (r,), ()) && *r == old(self)@.raft && *final(r)
                    == final(self)@.raft,
            old(self)@.raft.state !is Leader ==> final(self)@ == old(self)@,
            final(self)@ == (RawNodeView { raft: final(self)@.raft, ..old(self)@ }),
    {
        if self.raft.state == StateRole::Leader {
            C::ping(&mut self.raft);
        }
    }

    /// Proposes a change of members.
    pub fn propose_conf_change(&mut self, context: Vec<u8>, cc: ConfChange) -> (res: Result<
        (),
        Error,
    >)
        ensures
            exists|r: &mut Raft<T, C>, m: Message| #[trigger]
                call_ensures(C::step, (r, m), res) && m@ == conf_change_message(context@, cc@) && *r
                    == old(self)@.raft && *final(r) == final(self)@.raft,
            final(self)@ == (RawNodeView { raft: final(self)@.raft, ..old(self)@ }),
    {
        let data = encode_conf_change(&cc);
        let mut m = Message::of_type(MessageType::MsgPropose);
        let mut e = Entry::default();
        e.entry_type = EntryType::EntryConfChange;
        e.data = data;
        e.context = context;
        m.entries = vec![e];
        assert(m@ =~~= conf_change_message(context@, cc@));
        C::step(&mut self.raft, m)
    }

    /// Applies a change of members that has been committed, and reports the members then. A
    /// change of no node, other than the beginning of a change of many, changes nothing. If the
    /// consensus algorithm refuses the change, its error is passed on.
    pub fn try_apply_conf_change(&mut self, cc: &ConfChange) -> (res: Result<ConfState, Error>)
        ensures
            conf_change_is_noop(cc@) ==> {
                &&& final(self)@ == old(self)@
                &&& res matches Ok(cs) && cs@ == (ConfStateView {
                    nodes: old(self)@.raft.prs.voter_ids@,
                    learners: old(self)@.raft.prs.learner_ids@,
                })
            },
            !conf_change_is_noop(cc@) && cc.change_type is AddNode ==> exists|
                r: &mut Raft<T, C>,
                done: Result<(), Error>,
            | #[trigger]
                call_ensures(C::add_node, (r, cc.node_id), done) && *r == old(self)@.raft && *final(r)
                    == final(self)@.raft && conf_change_outcome(done, final(self)@.raft, res),
            !conf_change_is_noop(cc@) && cc.change_type is AddLearnerNode ==> exists|
                r: &mut Raft<T, C>,
                done: Result<(), Error>,
            | #[trigger]
                call_ensures(C::add_learner, (r, cc.node_id), done) && *r == old(self)@.raft && *final(r)
                    == final(self)@.raft && conf_change_outcome(done, final(self)@.raft, res),
            !conf_change_is_noop(cc@) && cc.change_type is RemoveNode ==> exists|
                r: &mut Raft<T, C>,
                done: Result<(), Error>,
            | #[trigger]
                call_ensures(C::remove_node, (r, cc.node_id), done) && *r == old(self)@.raft && *final(r)
                    == final(self)@.raft && conf_change_outcome(done, final(self)@.raft, res),
            !conf_change_is_noop(cc@) && cc.change_type is BeginMembershipChange ==> exists|
                r: &mut Raft<T, C>,
                done: Result<(), Error>,
            | #[trigger]
                call_ensures(C::begin_membership_change, (r, cc), done) && *r == old(self)@.raft && *final(r)
                    == final(self)@.raft && conf_change_outcome(done, final(self)@.raft, res),
            !conf_change_is_noop(cc@) && cc.change_type is FinalizeMembershipChange ==> exists|
                r: &mut Raft<T, C>,
                done: Result<(), Error>,
            | #[trigger]
                call_ensures(C::finalize_membership_change, (r,), done) && *r == old(self)@.raft && *final(r)
                    == final(self)@.raft && conf_change_outcome(done, final(self)@.raft, res),
            // Each member is reported once, where the sets of members hold each id once.
            res matches Ok(cs) ==> members_once(cc@, old(self)@.raft, final(self)@.raft, cs),
            final(self)@ == (RawNodeView { raft: final(self)@.raft, ..old(self)@ }),
    {
        if cc.node_id == INVALID_ID && cc.change_type != ConfChangeType::BeginMembershipChange {
            let cs = ConfState {
                nodes: self.raft.prs.voter_ids.clone(),
                learners: self.raft.prs.learner_ids.clone(),
            };
            return Ok(cs);
        }
        let nid = cc.node_id;
        let done = match cc.change_type {
            ConfChangeType::AddNode => C::add_node(&mut self.raft, nid),
            ConfChangeType::AddLearnerNode => C::add_learner(&mut self.raft, nid),
            ConfChangeType::RemoveNode => C::remove_node(&mut self.raft, nid),
            ConfChangeType::BeginMembershipChange => C::begin_membership_change(
                &mut self.raft,
                cc,
            ),
            ConfChangeType::FinalizeMembershipChange => C::finalize_membership_change(
                &mut self.raft,
            ),
        };
        match done {
            Ok(_) => Ok(self.raft.prs.configuration.to_conf_state()),
            Err(e) => Err(e),
        }
    }

    /// Applies a change of members that has been committed, and reports the members then. A
    /// change of no node, other than the beginning of a change of many, changes nothing.
    ///
    /// The beginning or the end of a change of many members must be one that the consensus
    /// algorithm does not refuse. Where it may, use `try_apply_conf_change`.
    pub fn apply_conf_change(&mut self, cc: &ConfChange) -> (res: Result<ConfState, Error>)
        requires
            cc.change_type is BeginMembershipChange ==> forall|
                r: &mut Raft<T, C>,
                done: Result<(), Error>,
            | #[trigger]
                call_ensures(C::begin_membership_change, (r, cc), done) && *r == old(self)@.raft
                    ==> done is Ok,
            !conf_change_is_noop(cc@) && cc.change_type is FinalizeMembershipChange ==> forall|
                r: &mut Raft<T, C>,
                done: Result<(), Error>,
            | #[trigger]
                call_ensures(C::finalize_membership_change, (r,), done) && *r == old(self)@.raft
                    ==> done is Ok,
        ensures
            conf_change_is_noop(cc@) ==> {
                &&& final(self)@ == old(self)@
                &&& res matches Ok(cs) && cs@ == (ConfStateView {
                    nodes: old(self)@.raft.prs.voter_ids@,
                    learners: old(self)@.raft.prs.learner_ids@,
                })
            },
            !conf_change_is_noop(cc@) && cc.change_type is AddNode ==> exists|
                r: &mut Raft<T, C>,
                done: Result<(), Error>,
            | #[trigger]
                call_ensures(C::add_node, (r, cc.node_id), done) && *r == old(self)@.raft && *final(r)
                    == final(self)@.raft && conf_change_outcome(done, final(self)@.raft, res),
            !conf_change_is_noop(cc@) && cc.change_type is AddLearnerNode ==> exists|
                r: &mut Raft<T, C>,
                done: Result<(), Error>,
            | #[trigger]
                call_ensures(C::add_learner, (r, cc.node_id), done) && *r == old(self)@.raft && *final(r)
                    == final(self)@.raft && conf_change_outcome(done, final(self)@.raft, res),
            !conf_change_is_noop(cc@) && cc.change_type is RemoveNode ==> exists|
                r: &mut Raft<T, C>,
                done: Result<(), Error>,
            | #[trigger]
                call_ensures(C::remove_node, (r, cc.node_id), done) && *r == old(self)@.raft && *final(r)
                    == final(self)@.raft && conf_change_outcome(done, final(self)@.raft, res),
            !conf_change_is_noop(cc@) && cc.change_type is BeginMembershipChange ==> exists|
                r: &mut Raft<T, C>,
                done: Result<(), Error>,
            | #[trigger]
                call_ensures(C::begin_membership_change, (r, cc), done) && *r == old(self)@.raft && *final(r)
                    == final(self)@.raft && conf_change_outcome(done, final(self)@.raft, res),
            !conf_change_is_noop(cc@) && cc.change_type is FinalizeMembershipChange ==> exists|
                r: &mut Raft<T, C>,
                done: Result<(), Error>,
            | #[trigger]
                call_ensures(C::finalize_membership_change, (r,), done) && *r == old(self)@.raft && *final(r)
                    == final(self)@.raft && conf_change_outcome(done, final(self)@.raft, res),
            cc.change_type is BeginMembershipChange ==> res is Ok,
            cc.change_type is FinalizeMembershipChange ==> res is Ok,
            // Each member is reported once, where the sets of members hold each id once.
            res matches Ok(cs) ==> members_once(cc@, old(self)@.raft, final(self)@.raft, cs),
            final(self)@ == (RawNodeView { raft: final(self)@.raft, ..old(self)@ }),
    {
        self.try_apply_conf_change(cc)
    }

    /// Takes in a message from the network.
    pub fn step(&mut self, m: Message) -> (res: Result<(), Error>)
        ensures
            // Local messages are not expected from the network.
            local_msg(m.msg_type) ==> res == Err::<(), Error>(Error::StepLocalMsg) && final(self)@
                == old(self)@,
            // Nor are answers from strangers.
            !local_msg(m.msg_type) && response_msg(m.msg_type)
                && !old(self)@.raft.prs.peers@.contains(m.from) ==> res == Err::<(), Error>(
                Error::StepPeerNotFound,
            ) && final(self)@ == old(self)@,
            // All else reaches the consensus algorithm.
            !local_msg(m.msg_type) && (!response_msg(m.msg_type)
                || old(self)@.raft.prs.peers@.contains(m.from)) ==> exists|r: &mut Raft<T, C>|
                #[trigger] call_ensures(C::step, (r, m), res) && *r == old(self)@.raft && *final(r)
                    == final(self)@.raft,
            final(self)@ == (RawNodeView { raft: final(self)@.raft, ..old(self)@ }),
    {
        if is_local_msg(m.msg_type) {
            return Err(Error::StepLocalMsg);
        }
        if self.raft.prs.contains(m.from) || !is_response_msg(m.msg_type) {
            return C::step(&mut self.raft, m);
        }
        Err(Error::StepPeerNotFound)
    }

    /// What is ready, with the committed entries above an index. The messages are taken out.
    pub fn ready_since(&mut self, applied_idx: u64) -> (rd: Ready)
        ensures
            rd@ == ReadyView::of(
                old(self)@.raft,
                old(self)@.prev_ss,
                old(self)@.prev_hs,
                Some(applied_idx),
            ),
            rd@.messages == old(self)@.raft.msgs@,
            final(self)@.raft.msgs@.len() == 0,
            final(self)@ == (RawNodeView {
                raft: Raft { msgs: final(self)@.raft.msgs, ..old(self)@.raft },
                ..old(self)@
            }),
    {
        let prev_ss = self.prev_ss;
        let prev_hs = self.prev_hs;
        Ready::new(&mut self.raft, &prev_ss, &prev_hs, Some(applied_idx))
    }

    /// What is ready now, with the committed entries that are not applied. The messages are
    /// taken out.
    pub fn ready(&mut self) -> (rd: Ready)
        ensures
            rd@ == ReadyView::of(old(self)@.raft, old(self)@.prev_ss, old(self)@.prev_hs, None),
            rd@.messages == old(self)@.raft.msgs@,
            final(self)@.raft.msgs@.len() == 0,
            final(self)@ == (RawNodeView {
                raft: Raft { msgs: final(self)@.raft.msgs, ..old(self)@.raft },
                ..old(self)@
            }),
    {
        let prev_ss = self.prev_ss;
        let prev_hs = self.prev_hs;
        Ready::new(&mut self.raft, &prev_ss, &prev_hs, None)
    }

    /// Whether something is ready, with committed entries counting from an index, or else from
    /// what is applied.
    pub fn has_ready_since(&self, applied_idx: Option<u64>) -> (b: bool)
        ensures
            b == self@.has_ready(applied_idx),
    {
        let raft = &self.raft;
        if !raft.msgs.is_empty() || raft.raft_log.unstable_entries().is_some() {
            return true;
        }
        if !raft.read_states.is_empty() {
            return true;
        }
        match self.get_snap() {
            Some(s) => {
                if !is_empty_snap(s) {
                    return true;
                }
            },
            None => {},
        }
        let has_unapplied_entries = match applied_idx {
            None => raft.raft_log.has_next_entries(),
            Some(idx) => raft.raft_log.has_next_entries_since(idx),
        };
        if has_unapplied_entries {
            return true;
        }
        if raft.soft_state() != self.prev_ss {
            return true;
        }
        let hs = raft.hard_state();
        if hs != HardState::default() && hs != self.prev_hs {
            return true;
        }
        false
    }

    /// Whether something is ready.
    pub fn has_ready(&self) -> (b: bool)
        ensures
            b == self@.has_ready(None),
    {
        self.has_ready_since(None)
    }

    /// The snapshot that has come in and is not saved, if there is one.
    pub fn get_snap(&self) -> (r: Option<&Snapshot>)
        ensures
            r is Some <==> self@.raft.raft_log.unstable.snapshot is Some,
            r matches Some(s) ==> *s == self@.raft.raft_log.unstable.snapshot->0,
    {
        self.raft.get_snap()
    }

    /// Notes that the application has saved and applied what the last ready value held.
    pub fn advance(&mut self, rd: Ready)
        ensures
            exists|mid: RawNodeView<T, C>| #[trigger]
                old(self)@.saved(rd@, mid) && if mid.prev_hs.commit != 0 {
                    &&& exists|r: &mut Raft<T, C>| #[trigger]
                        call_ensures(C::commit_apply, (r, mid.prev_hs.commit), ()) && *r == mid.raft
                            && *final(r) == final(self)@.raft
                    &&& final(self)@ == (RawNodeView { raft: final(self)@.raft, ..mid })
                } else {
                    final(self)@ == mid
                },
    {
        self.advance_append(rd);
        let commit_idx = self.prev_hs.commit;
        if commit_idx != 0 {
            // In most cases, the hard state seen last and the one in the ready value will be
            // the same, because when there are new entries to apply a hard state with an
            // updated commit index has just been handed out. On initial startup the two
            // differ: no hard state is handed out until something changes, but entries that
            // are committed and not applied are (and entries committed before may be part of
            // the snapshot, even if there are no committed entries). So all committed entries
            // are marked as applied, whether the hard state was handed out or not.
            self.advance_apply(commit_idx);
        }
    }

    /// Notes that the application has saved what a ready value held.
    pub fn advance_append(&mut self, rd: Ready)
        ensures
            old(self)@.saved(rd@, final(self)@),
    {
        self.commit_ready(rd);
    }

    /// Notes that the application has applied the log up to an index.
    pub fn advance_apply(&mut self, applied: u64)
        ensures
            exists|r: &mut Raft<T, C>| #[trigger]
                call_ensures(C::commit_apply, (r, applied), ()) && *r == old(self)@.raft && *final(r)
                    == final(self)@.raft,
            final(self)@ == (RawNodeView { raft: final(self)@.raft, ..old(self)@ }),
    {
        self.commit_apply(applied);
    }

    /// The status of the node.
    pub fn status(&self) -> (s: Status<'_>)
        ensures
            s.id == self@.raft.id,
            s.hs == self@.raft.spec_hard_state(),
            s.ss == self@.raft.spec_soft_state(),
            s.applied == self@.raft.raft_log.applied,
            s.progress is Some <==> self@.raft.state is Leader,
            s.progress matches Some(p) ==> *p == self@.raft.prs,
    {
        Status::new(&self.raft)
    }

    /// Reports that a node could not be reached by the last message sent to it.
    pub fn report_unreachable(&mut self, id: u64)
        ensures
            exists|r: &mut Raft<T, C>, m: Message, res: Result<(), Error>| #[trigger]
                call_ensures(C::step, (r, m), res) && m@ == unreachable_message(id) && *r
                    == old(self)@.raft && *final(r) == final(self)@.raft,
            final(self)@ == (RawNodeView { raft: final(self)@.raft, ..old(self)@ }),
    {
        let mut m = Message::of_type(MessageType::MsgUnreachable);
        m.from = id;
        // Whether it is refused does not matter.
        let _ = C::step(&mut self.raft, m);
    }

    /// Reports what became of a snapshot that was sent to a node.
    pub fn report_snapshot(&mut self, id: u64, status: SnapshotStatus)
        ensures
            exists|r: &mut Raft<T, C>, m: Message, res: Result<(), Error>| #[trigger]
                call_ensures(C::step, (r, m), res) && m@ == snap_status_message(id, status) && *r
                    == old(self)@.raft && *final(r) == final(self)@.raft,
            final(self)@ == (RawNodeView { raft: final(self)@.raft, ..old(self)@ }),
    {
        let rej = status == SnapshotStatus::Failure;
        let mut m = Message::of_type(MessageType::MsgSnapStatus);
        m.from = id;
        m.reject = rej;
        // Whether it is refused does not matter.
        let _ = C::step(&mut self.raft, m);
    }

    /// Tries to transfer leadership to a node.
    pub fn transfer_leader(&mut self, transferee: u64)
        ensures
            exists|r: &mut Raft<T, C>, m: Message, res: Result<(), Error>| #[trigger]
                call_ensures(C::step, (r, m), res) && m@ == transfer_leader_message(transferee) && *r
                    == old(self)@.raft && *final(r) == final(self)@.raft,
            final(self)@ == (RawNodeView { raft: final(self)@.raft, ..old(self)@ }),
    {
        let mut m = Message::of_type(MessageType::MsgTransferLeader);
        m.from = transferee;
        let _ = C::step(&mut self.raft, m);
    }

    /// Requests a read state, which a later ready value will hold, with the same context.
    /// Once the application has applied more than its read index, linearizable reads that were
    /// asked for before this request can be served.
    pub fn read_index(&mut self, rctx: Vec<u8>)
        ensures
            exists|r: &mut Raft<T, C>, m: Message, res: Result<(), Error>| #[trigger]
                call_ensures(C::step, (r, m), res) && m@ == read_index_message(rctx@) && *r
                    == old(self)@.raft && *final(r) == final(self)@.raft,
            final(self)@ == (RawNodeView { raft: final(self)@.raft, ..old(self)@ }),
    {
        let mut m = Message::of_type(MessageType::MsgReadIndex);
        let mut e = Entry::default();
        e.data = rctx;
        m.entries = vec![e];
        assert(m@ =~~= read_index_message(rctx@));
        let _ = C::step(&mut self.raft, m);
    }

    /// The state of the node, to read.
    pub fn raft(&self) -> (raft: &Raft<T, C>)
        ensures
            *raft == self@.raft,
    {
        &self.raft
    }

    /// The state of the node, to change.
    pub fn mut_raft(&mut self) -> (raft: &mut Raft<T, C>)
        ensures
            *raft == old(self)@.raft,
            final(self)@ == (RawNodeView { raft: *final(raft), ..old(self)@ }),
    {
        &mut self.raft
    }

    /// The store, to read.
    pub fn get_store(&self) -> (store: &T)
        ensures
            *store == self@.raft.store,
    {
        &self.raft.store
    }

    /// The store, to change.
    pub fn mut_store(&mut self) -> (store: &mut T)
        ensures
            *store == old(self)@.raft.store,
            final(self)@ == (RawNodeView {
                raft: Raft { store: *final(store), ..old(self)@.raft },
                ..old(self)@
            }),
    {
        &mut self.raft.store
    }

    /// Sets whether empty commit messages are not broadcast.
    pub fn skip_bcast_commit(&mut self, skip: bool)
        ensures
            final(self)@ == (RawNodeView {
                raft: Raft { skip_bcast_commit: skip, ..old(self)@.raft },
                ..old(self)@
            }),
    {
        self.raft.skip_bcast_commit = skip;
    }

    /// Sets whether append messages are batched.
    pub fn set_batch_append(&mut self, batch_append: bool)
        ensures
            final(self)@ == (RawNodeView {
                raft: Raft { batch_append, ..old(self)@.raft },
                ..old(self)@
            }),
    {
        self.raft.batch_append = batch_append;
    }
}

} // verus!
