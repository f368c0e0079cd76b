use raw_node::eraftpb::{
    ConfChange, ConfChangeType, ConfState, Entry, EntryType, HardState, Message, MessageType,
    Snapshot, SnapshotMetadata,
};
use raw_node::raft::{
    Config, Configuration, Consensus, Error, ProgressSet, Raft, ReadState, SoftState, StateRole,
};
use raw_node::raft_log::{RaftLog, Unstable};
use raw_node::raw_node::{
    is_empty_snap, is_local_msg, is_response_msg, Peer, RawNode, Ready, SnapshotStatus,
};

/// A consensus algorithm that notes what it is called with and answers as it was told to.
struct Script {
    id: u64,
    messages: Vec<Message>,
    calls: Vec<(&'static str, u64)>,
    answer: Result<(), Error>,
    tick: bool,
}

impl Script {
    fn called(&self) -> Vec<(&'static str, u64)> {
        self.calls.clone()
    }
}

fn answer(raft: &Raft<Vec<u8>, Script>) -> Result<(), Error> {
    match &raft.consensus.answer {
        Ok(()) => Ok(()),
        Err(Error::ProposalDropped) => Err(Error::ProposalDropped),
        Err(Error::Exists(id)) => Err(Error::Exists(*id)),
        Err(Error::NotExists(id)) => Err(Error::NotExists(*id)),
        Err(Error::ViolatesContract(s)) => Err(Error::ViolatesContract(s.clone())),
        Err(Error::Store(s)) => Err(Error::Store(s.clone())),
        Err(_) => unreachable!(),
    }
}

impl Consensus<Vec<u8>> for Script {
    type Options = bool;

    fn new(config: &Config<bool>, store: Vec<u8>) -> Result<Raft<Vec<u8>, Script>, Error> {
        if !config.options {
            return Err(Error::ConfigInvalid(format!("node {} is not welcome", config.id)));
        }
        Ok(Raft {
            id: config.id,
            term: 1,
            vote: 0,
            leader_id: 0,
            state: StateRole::Follower,
            raft_log: RaftLog {
                stable: Vec::new(),
                unstable: Unstable { snapshot: None, entries: Vec::new() },
                committed: 0,
                applied: 0,
            },
            msgs: Vec::new(),
            read_states: Vec::new(),
            prs: ProgressSet {
                peers: vec![1, 2, 3],
                voter_ids: vec![1, 2],
                learner_ids: vec![3],
                configuration: Configuration { voters: vec![1], learners: vec![2] },
            },
            skip_bcast_commit: false,
            batch_append: false,
            store,
            consensus: Script {
                id: config.id,
                messages: Vec::new(),
                calls: Vec::new(),
                answer: Ok(()),
                tick: false,
            },
        })
    }

    fn tick(raft: &mut Raft<Vec<u8>, Script>) -> bool {
        raft.consensus.calls.push(("tick", 0));
        raft.consensus.tick
    }

    fn step(raft: &mut Raft<Vec<u8>, Script>, m: Message) -> Result<(), Error> {
        raft.consensus.calls.push(("step", m.from));
        raft.consensus.messages.push(m);
        answer(raft)
    }

    fn ping(raft: &mut Raft<Vec<u8>, Script>) {
        raft.consensus.calls.push(("ping", 0));
    }

    fn commit_apply(raft: &mut Raft<Vec<u8>, Script>, applied: u64) {
        raft.consensus.calls.push(("commit_apply", applied));
        raft.raft_log.applied = applied;
    }

    fn add_node(raft: &mut Raft<Vec<u8>, Script>, id: u64) -> Result<(), Error> {
        raft.consensus.calls.push(("add_node", id));
        raft.prs.configuration.voters.push(id);
        answer(raft)
    }

    fn add_learner(raft: &mut Raft<Vec<u8>, Script>, id: u64) -> Result<(), Error> {
        raft.consensus.calls.push(("add_learner", id));
        raft.prs.configuration.learners.push(id);
        answer(raft)
    }

    fn remove_node(raft: &mut Raft<Vec<u8>, Script>, id: u64) -> Result<(), Error> {
        raft.consensus.calls.push(("remove_node", id));
        raft.prs.configuration.voters.retain(|v| *v != id);
        answer(raft)
    }

    fn begin_membership_change(
        raft: &mut Raft<Vec<u8>, Script>,
        cc: &ConfChange,
    ) -> Result<(), Error> {
        raft.consensus.calls.push(("begin", cc.start_index));
        answer(raft)
    }

    fn finalize_membership_change(raft: &mut Raft<Vec<u8>, Script>) -> Result<(), Error> {
        raft.consensus.calls.push(("finalize", 0));
        answer(raft)
    }
}

type Node = RawNode<Vec<u8>, Script>;

fn node() -> Node {
    match Node::new(&Config { id: 7, options: true }, vec![9]) {
        Ok(n) => n,
        Err(_) => unreachable!(),
    }
}

fn entry(index: u64, term: u64) -> Entry {
    Entry { index, term, data: vec![index as u8], ..Entry::default() }
}

fn snapshot(index: u64) -> Snapshot {
    Snapshot {
        data: vec![1, 2],
        metadata: Some(SnapshotMetadata { conf_state: None, index, term: 1 }),
    }
}

fn message(t: MessageType, from: u64) -> Message {
    Message { msg_type: t, from, ..Message::default() }
}

fn indices(es: &[Entry]) -> Vec<u64> {
    es.iter().map(|e| e.index).collect()
}

fn committed(rd: &Ready) -> Vec<u64> {
    match &rd.committed_entries {
        Some(es) => indices(es),
        None => unreachable!(),
    }
}

#[test]
fn test_is_local_msg() {
    let tests = vec![
        (MessageType::MsgHup, true),
        (MessageType::MsgBeat, true),
        (MessageType::MsgUnreachable, true),
        (MessageType::MsgSnapStatus, true),
        (MessageType::MsgCheckQuorum, true),
        (MessageType::MsgPropose, false),
        (MessageType::MsgAppend, false),
        (MessageType::MsgAppendResponse, false),
        (MessageType::MsgRequestVote, false),
        (MessageType::MsgRequestVoteResponse, false),
        (MessageType::MsgSnapshot, false),
        (MessageType::MsgHeartbeat, false),
        (MessageType::MsgHeartbeatResponse, false),
        (MessageType::MsgTransferLeader, false),
        (MessageType::MsgTimeoutNow, false),
        (MessageType::MsgReadIndex, false),
        (MessageType::MsgReadIndexResp, false),
        (MessageType::MsgRequestPreVote, false),
        (MessageType::MsgRequestPreVoteResponse, false),
    ];
    for (msg_type, result) in tests {
        assert_eq!(is_local_msg(msg_type), result);
    }
}

#[test]
fn response_messages() {
    let tests = vec![
        (MessageType::MsgHup, false),
        (MessageType::MsgBeat, false),
        (MessageType::MsgUnreachable, true),
        (MessageType::MsgSnapStatus, false),
        (MessageType::MsgCheckQuorum, false),
        (MessageType::MsgPropose, false),
        (MessageType::MsgAppend, false),
        (MessageType::MsgAppendResponse, true),
        (MessageType::MsgRequestVote, false),
        (MessageType::MsgRequestVoteResponse, true),
        (MessageType::MsgSnapshot, false),
        (MessageType::MsgHeartbeat, false),
        (MessageType::MsgHeartbeatResponse, true),
        (MessageType::MsgTransferLeader, false),
        (MessageType::MsgTimeoutNow, false),
        (MessageType::MsgReadIndex, false),
        (MessageType::MsgReadIndexResp, false),
        (MessageType::MsgRequestPreVote, false),
        (MessageType::MsgRequestPreVoteResponse, true),
    ];
    for (msg_type, result) in tests {
        assert_eq!(is_response_msg(msg_type), result);
    }
}

#[test]
fn empty_snapshots() {
    assert!(is_empty_snap(&Snapshot::default()));
    assert!(is_empty_snap(&snapshot(0)));
    assert!(!is_empty_snap(&snapshot(1)));
    assert!(Snapshot::default().is_default());
    assert!(!snapshot(0).is_default());
    assert!(!Snapshot {
        data: Vec::new(),
        metadata: Some(SnapshotMetadata { conf_state: None, index: 0, term: 0 }),
    }
    .is_default());
}

#[test]
fn default_values() {
    let p = Peer::default();
    assert_eq!(p.id, 0);
    assert!(p.context.is_none());
    let rd = Ready::default();
    assert!(rd.ss().is_none() && rd.hs().is_none() && !rd.must_sync());
    assert!(rd.read_states().is_empty() && rd.entries().is_empty());
    assert!(rd.snapshot().is_default() && rd.committed_entries.is_none());
    assert!(rd.messages.is_empty());
}

#[test]
fn new_node() {
    let mut n = node();
    assert_eq!(n.raft.id, 7);
    assert_eq!(n.raft.consensus.id, 7);
    assert!(!n.has_ready());
    let rd = n.ready();
    assert!(rd.ss().is_none());
    assert!(rd.hs().is_none());
    assert_eq!(rd.committed_entries, Some(Vec::new()));
}

#[test]
fn new_node_refused() {
    match Node::new(&Config { id: 8, options: false }, Vec::new()) {
        Ok(_) => unreachable!(),
        Err(e) => {
            assert_eq!(e, Error::ConfigInvalid("node 8 is not welcome".to_string()));
        }
    }
}

#[test]
fn committed_entries_on_startup() {
    // No hard state is shown until something changes, but entries to be applied are.
    let mut raft = match Script::new(&Config { id: 7, options: true }, Vec::new()) {
        Ok(r) => r,
        Err(_) => unreachable!(),
    };
    raft.raft_log.stable = vec![entry(1, 1), entry(2, 1)];
    let mut n = node();
    n.raft = raft;
    assert!(!n.has_ready());
    n.raft.raft_log.committed = 2;
    assert!(n.has_ready());
    assert_eq!(committed(&n.ready()), vec![1, 2]);
}

#[test]
fn ready_holds_everything() {
    let mut n = node();
    n.raft.msgs = vec![message(MessageType::MsgAppend, 7)];
    n.raft.raft_log.stable = vec![entry(1, 1), entry(2, 1)];
    n.raft.raft_log.unstable.entries = vec![entry(3, 2), entry(4, 2)];
    n.raft.raft_log.unstable.snapshot = Some(snapshot(1));
    n.raft.raft_log.committed = 3;
    n.raft.raft_log.applied = 1;
    n.raft.read_states = vec![ReadState { index: 3, request_ctx: vec![5] }];
    n.raft.term = 2;
    n.raft.state = StateRole::Leader;
    n.raft.leader_id = 7;
    let rd = n.ready();
    assert_eq!(rd.messages, vec![message(MessageType::MsgAppend, 7)]);
    assert_eq!(rd.entries(), &[entry(3, 2), entry(4, 2)]);
    assert_eq!(rd.committed_entries, Some(vec![entry(2, 1), entry(3, 2)]));
    assert_eq!(rd.snapshot(), &snapshot(1));
    assert_eq!(rd.read_states(), &[ReadState { index: 3, request_ctx: vec![5] }]);
    assert_eq!(rd.ss(), Some(&SoftState { leader_id: 7, raft_state: StateRole::Leader }));
    assert_eq!(rd.hs(), Some(&HardState { term: 2, vote: 0, commit: 3 }));
    assert!(rd.must_sync());
    assert!(n.raft.msgs.is_empty());
}

#[test]
fn second_ready_lacks_messages() {
    let mut n = node();
    n.raft.msgs = vec![message(MessageType::MsgAppend, 7)];
    n.raft.raft_log.unstable.entries = vec![entry(1, 1)];
    let first = n.ready();
    let second = n.ready();
    assert_eq!(first.messages.len(), 1);
    assert!(second.messages.is_empty());
    assert_eq!(first.entries(), second.entries());
}

#[test]
fn ready_from_an_index() {
    let mut n = node();
    n.raft.raft_log.stable = vec![entry(1, 1), entry(2, 1), entry(3, 1), entry(4, 1)];
    n.raft.raft_log.committed = 3;
    n.raft.raft_log.applied = 1;
    assert_eq!(committed(&n.ready()), vec![2, 3]);
    assert_eq!(committed(&n.ready_since(1)), vec![2, 3]);
    assert_eq!(committed(&n.ready_since(0)), vec![1, 2, 3]);
    assert_eq!(committed(&n.ready_since(2)), vec![3]);
    assert_eq!(committed(&n.ready_since(3)), Vec::<u64>::new());
    assert_eq!(committed(&n.ready_since(u64::MAX)), Vec::<u64>::new());
}

#[test]
fn synchronous_writes() {
    // A new commit index alone need not be written synchronously.
    let mut n = node();
    n.raft.raft_log.committed = 5;
    let rd = n.ready();
    assert_eq!(rd.hs(), Some(&HardState { term: 1, vote: 0, commit: 5 }));
    assert!(!rd.must_sync());
    n.raft.vote = 2;
    assert!(n.ready().must_sync());
    n.raft.vote = 0;
    n.raft.term = 2;
    assert!(n.ready().must_sync());
    // Nor need entries.
    let mut n = node();
    n.raft.raft_log.unstable.entries = vec![entry(1, 1)];
    assert!(!n.ready().must_sync());
}

#[test]
fn each_reason_to_be_ready() {
    let mut n = node();
    n.raft.msgs = vec![message(MessageType::MsgAppend, 7)];
    assert!(n.has_ready());

    let mut n = node();
    n.raft.raft_log.unstable.entries = vec![entry(1, 1)];
    assert!(n.has_ready());

    let mut n = node();
    n.raft.read_states = vec![ReadState { index: 1, request_ctx: Vec::new() }];
    assert!(n.has_ready());

    let mut n = node();
    n.raft.raft_log.unstable.snapshot = Some(snapshot(0));
    assert!(!n.has_ready());
    assert_eq!(n.get_snap(), Some(&snapshot(0)));
    n.raft.raft_log.unstable.snapshot = Some(snapshot(3));
    assert!(n.has_ready());
    assert_eq!(n.get_snap(), Some(&snapshot(3)));

    let mut n = node();
    n.raft.leader_id = 2;
    assert!(n.has_ready());

    let mut n = node();
    n.raft.vote = 2;
    assert!(n.has_ready());

    // A hard state that has gone back to nothing does not count.
    let mut n = node();
    n.raft.term = 0;
    assert!(!n.has_ready());
    assert_eq!(n.ready().hs(), Some(&HardState::default()));
}

#[test]
fn committed_entries_are_a_reason_to_be_ready() {
    let mut n = node();
    n.raft.raft_log.stable = vec![entry(1, 1), entry(2, 1)];
    n.raft.raft_log.committed = 2;
    let rd = n.ready();
    n.advance_append(rd);
    assert!(n.has_ready());
    assert!(n.has_ready_since(Some(1)));
    assert!(!n.has_ready_since(Some(2)));
    n.advance_apply(2);
    assert!(!n.has_ready());
}

#[test]
fn nothing_ready_after_advance() {
    let mut n = node();
    n.raft.msgs = vec![message(MessageType::MsgAppend, 7)];
    n.raft.raft_log.unstable.entries = vec![entry(1, 1), entry(2, 1)];
    n.raft.raft_log.unstable.snapshot = Some(snapshot(4));
    n.raft.raft_log.committed = 2;
    n.raft.read_states = vec![ReadState { index: 3, request_ctx: vec![5] }];
    n.raft.vote = 3;
    n.raft.leader_id = 3;
    assert!(n.has_ready());
    let rd = n.ready();
    n.advance(rd);
    assert!(!n.has_ready());
    assert_eq!(n.raft.consensus.called(), vec![("commit_apply", 2)]);
    assert_eq!(indices(&n.raft.raft_log.stable), vec![1, 2]);
    assert!(n.raft.raft_log.unstable.entries.is_empty());
    assert!(n.raft.raft_log.unstable.snapshot.is_none());
    assert!(n.raft.read_states.is_empty());
}

#[test]
fn advance_applies_nothing_before_the_first_commit() {
    let mut n = node();
    n.raft.raft_log.unstable.entries = vec![entry(1, 1)];
    let rd = n.ready();
    n.advance(rd);
    assert!(n.raft.consensus.called().is_empty());
}

#[test]
fn advance_applies_what_was_committed_before() {
    // The commit index that was seen last counts, though the ready value shows no hard state.
    let mut n = node();
    n.raft.raft_log.committed = 4;
    let rd = n.ready();
    n.advance(rd);
    let rd = n.ready();
    assert!(rd.hs().is_none());
    n.advance(rd);
    assert_eq!(
        n.raft.consensus.called(),
        vec![("commit_apply", 4), ("commit_apply", 4)]
    );
}

#[test]
fn later_entries_stay_unsaved() {
    let mut n = node();
    n.raft.raft_log.unstable.entries = vec![entry(1, 1), entry(2, 1)];
    let rd = n.ready();
    n.raft.raft_log.unstable.entries.push(entry(3, 1));
    n.raft.raft_log.unstable.snapshot = Some(snapshot(9));
    n.advance_append(rd);
    assert_eq!(indices(&n.raft.raft_log.stable), vec![1, 2]);
    assert_eq!(indices(&n.raft.raft_log.unstable.entries), vec![3]);
    assert_eq!(n.get_snap(), Some(&snapshot(9)));
}

#[test]
fn overwritten_entries_stay_unsaved() {
    let mut n = node();
    n.raft.raft_log.unstable.entries = vec![entry(1, 1), entry(2, 1)];
    n.raft.raft_log.unstable.snapshot = Some(snapshot(4));
    let rd = n.ready();
    n.raft.raft_log.unstable.entries = vec![entry(1, 1), entry(2, 2)];
    n.raft.raft_log.unstable.snapshot = Some(snapshot(9));
    n.advance_append(rd);
    assert!(n.raft.raft_log.stable.is_empty());
    assert_eq!(indices(&n.raft.raft_log.unstable.entries), vec![1, 2]);
    assert_eq!(n.get_snap(), Some(&snapshot(9)));
}

#[test]
fn later_read_states_go_with_the_ones_handed_out() {
    let mut n = node();
    n.raft.read_states = vec![ReadState { index: 3, request_ctx: vec![5] }];
    let rd = n.ready();
    n.raft.read_states.push(ReadState { index: 4, request_ctx: vec![6] });
    n.advance_append(rd);
    assert!(n.raft.read_states.is_empty());
    n.raft.read_states.push(ReadState { index: 4, request_ctx: vec![6] });
    n.advance_append(Ready::default());
    assert_eq!(n.raft.read_states.len(), 1);
}

#[test]
fn saving_nothing_changes_nothing() {
    let mut n = node();
    n.raft.raft_log.stable = vec![entry(1, 1)];
    n.raft.raft_log.unstable.entries = vec![entry(2, 1)];
    n.raft.raft_log.unstable.snapshot = Some(snapshot(4));
    n.raft.read_states = vec![ReadState { index: 3, request_ctx: vec![5] }];
    n.raft.vote = 3;
    n.raft.leader_id = 3;
    let before = n.ready();
    let mut rd = Ready::default();
    rd.messages = vec![message(MessageType::MsgAppend, 7)];
    rd.committed_entries = Some(vec![entry(2, 1)]);
    n.advance_append(rd);
    n.advance_append(Ready::default());
    assert_eq!(n.ready(), before);
    assert_eq!(indices(&n.raft.raft_log.stable), vec![1]);
    assert!(n.raft.consensus.called().is_empty());
}

#[test]
fn empty_hard_state_is_not_noted() {
    let mut n = node();
    n.raft.term = 0;
    let rd = n.ready();
    n.advance_append(rd);
    assert_eq!(n.ready().hs(), Some(&HardState::default()));
}

#[test]
fn ticks() {
    let mut n = node();
    assert!(!n.tick());
    n.raft.consensus.tick = true;
    assert!(n.tick());
    assert_eq!(n.raft.consensus.called(), vec![("tick", 0), ("tick", 0)]);
}

#[test]
fn campaigns() {
    let mut n = node();
    assert_eq!(n.campaign(), Ok(()));
    assert_eq!(n.raft.consensus.messages, vec![Message::default()]);
    assert_eq!(n.raft.consensus.messages[0].msg_type, MessageType::MsgHup);
}

#[test]
fn proposes() {
    let mut n = node();
    assert_eq!(n.propose(vec![1], vec![2, 3]), Ok(()));
    let e = Entry { data: vec![2, 3], context: vec![1], ..Entry::default() };
    let m = Message { entries: vec![e], ..message(MessageType::MsgPropose, 7) };
    assert_eq!(n.raft.consensus.messages, vec![m]);
    n.raft.consensus.answer = Err(Error::ProposalDropped);
    assert_eq!(n.propose(Vec::new(), Vec::new()), Err(Error::ProposalDropped));
}

#[test]
fn pings_only_as_leader() {
    let mut n = node();
    for role in vec![StateRole::Follower, StateRole::Candidate, StateRole::PreCandidate] {
        n.raft.state = role;
        n.ping();
        assert!(n.raft.consensus.called().is_empty());
    }
    n.raft.state = StateRole::Leader;
    n.ping();
    assert_eq!(n.raft.consensus.called(), vec![("ping", 0)]);
}

#[test]
fn proposes_conf_change() {
    let mut n = node();
    let cc = ConfChange {
        id: 300,
        change_type: ConfChangeType::AddLearnerNode,
        node_id: 5,
        context: vec![0xff],
        ..ConfChange::default()
    };
    assert_eq!(n.propose_conf_change(vec![8], cc), Ok(()));
    let e = Entry {
        entry_type: EntryType::EntryConfChange,
        data: vec![0x08, 0xac, 0x02, 0x10, 0x02, 0x18, 0x05, 0x22, 0x01, 0xff],
        context: vec![8],
        ..Entry::default()
    };
    let m = Message { entries: vec![e], ..message(MessageType::MsgPropose, 0) };
    assert_eq!(n.raft.consensus.messages, vec![m]);
    n.raft.consensus.answer = Err(Error::ProposalDropped);
    assert_eq!(
        n.propose_conf_change(Vec::new(), ConfChange::default()),
        Err(Error::ProposalDropped)
    );
}

fn conf_change(change_type: ConfChangeType, node_id: u64) -> ConfChange {
    ConfChange { change_type, node_id, start_index: 11, ..ConfChange::default() }
}

#[test]
fn applies_conf_changes() {
    let mut n = node();
    let cs = n.apply_conf_change(&conf_change(ConfChangeType::AddNode, 4));
    assert_eq!(cs, Ok(ConfState { nodes: vec![1, 4], learners: vec![2] }));
    let cs = n.apply_conf_change(&conf_change(ConfChangeType::AddLearnerNode, 5));
    assert_eq!(cs, Ok(ConfState { nodes: vec![1, 4], learners: vec![2, 5] }));
    let cs = n.apply_conf_change(&conf_change(ConfChangeType::RemoveNode, 1));
    assert_eq!(cs, Ok(ConfState { nodes: vec![4], learners: vec![2, 5] }));
    let cs = n.apply_conf_change(&conf_change(ConfChangeType::BeginMembershipChange, 0));
    assert_eq!(cs, Ok(ConfState { nodes: vec![4], learners: vec![2, 5] }));
    let cs = n.apply_conf_change(&conf_change(ConfChangeType::FinalizeMembershipChange, 1));
    assert_eq!(cs, Ok(ConfState { nodes: vec![4], learners: vec![2, 5] }));
    assert_eq!(
        n.raft.consensus.called(),
        vec![
            ("add_node", 4),
            ("add_learner", 5),
            ("remove_node", 1),
            ("begin", 11),
            ("finalize", 0)
        ]
    );
}

#[test]
fn conf_changes_of_no_node() {
    let mut n = node();
    let types = vec![
        ConfChangeType::AddNode,
        ConfChangeType::RemoveNode,
        ConfChangeType::AddLearnerNode,
        ConfChangeType::FinalizeMembershipChange,
    ];
    for t in types {
        let cs = n.apply_conf_change(&conf_change(t, 0));
        assert_eq!(cs, Ok(ConfState { nodes: vec![1, 2], learners: vec![3] }));
    }
    assert!(n.raft.consensus.called().is_empty());
}

#[test]
fn refused_conf_changes() {
    let mut n = node();
    n.raft.consensus.answer = Err(Error::Exists(4));
    let cs = n.apply_conf_change(&conf_change(ConfChangeType::AddNode, 4));
    assert_eq!(cs, Err(Error::Exists(4)));
    n.raft.consensus.answer = Err(Error::NotExists(9));
    let cs = n.apply_conf_change(&conf_change(ConfChangeType::RemoveNode, 9));
    assert_eq!(cs, Err(Error::NotExists(9)));
}

#[test]
fn refused_changes_of_many() {
    let mut n = node();
    n.raft.consensus.answer = Err(Error::ViolatesContract("pending".to_string()));
    let cs = n.try_apply_conf_change(&conf_change(ConfChangeType::BeginMembershipChange, 0));
    assert_eq!(cs, Err(Error::ViolatesContract("pending".to_string())));
    let cs = n.try_apply_conf_change(&conf_change(ConfChangeType::FinalizeMembershipChange, 1));
    assert_eq!(cs, Err(Error::ViolatesContract("pending".to_string())));
    assert_eq!(n.raft.consensus.called(), vec![("begin", 11), ("finalize", 0)]);
    n.raft.consensus.answer = Ok(());
    let cs = n.try_apply_conf_change(&conf_change(ConfChangeType::AddNode, 4));
    assert_eq!(cs, Ok(ConfState { nodes: vec![1, 4], learners: vec![2] }));
}

#[test]
fn entries_outlast_what_is_taken() {
    let mut n = node();
    n.raft.msgs = vec![message(MessageType::MsgAppend, 7)];
    n.raft.raft_log.stable = vec![entry(1, 1)];
    n.raft.raft_log.unstable.entries = vec![entry(2, 1), entry(3, 1)];
    n.raft.raft_log.committed = 2;
    let mut rd = n.ready();
    assert_eq!(rd.messages(), &[message(MessageType::MsgAppend, 7)]);
    assert_eq!(rd.committed_entries(), Some(&vec![entry(1, 1), entry(2, 1)]));
    assert_eq!(rd.take_messages(), vec![message(MessageType::MsgAppend, 7)]);
    assert_eq!(rd.take_committed_entries(), Some(vec![entry(1, 1), entry(2, 1)]));
    assert!(rd.messages().is_empty());
    assert!(rd.committed_entries().is_none());
    assert_eq!(rd.entries(), &[entry(2, 1), entry(3, 1)]);

    let mut rd = n.ready();
    rd.committed_entries = None;
    rd.messages = Vec::new();
    assert_eq!(rd.entries(), &[entry(2, 1), entry(3, 1)]);
}

#[test]
fn state_of_the_node() {
    let mut n = node();
    n.mut_raft().term = 5;
    assert_eq!(n.raft().term, 5);
    assert_eq!(n.raft().id, 7);
}

#[test]
fn steps() {
    let mut n = node();
    let local = vec![
        MessageType::MsgHup,
        MessageType::MsgBeat,
        MessageType::MsgUnreachable,
        MessageType::MsgSnapStatus,
        MessageType::MsgCheckQuorum,
    ];
    for t in local {
        assert_eq!(n.step(message(t, 1)), Err(Error::StepLocalMsg));
        assert_eq!(n.step(message(t, 9)), Err(Error::StepLocalMsg));
    }
    assert_eq!(
        n.step(message(MessageType::MsgAppendResponse, 9)),
        Err(Error::StepPeerNotFound)
    );
    assert!(n.raft.consensus.called().is_empty());
    assert_eq!(n.step(message(MessageType::MsgAppendResponse, 3)), Ok(()));
    assert_eq!(n.step(message(MessageType::MsgAppend, 9)), Ok(()));
    n.raft.consensus.answer = Err(Error::Store("gone".to_string()));
    assert_eq!(
        n.step(message(MessageType::MsgHeartbeat, 1)),
        Err(Error::Store("gone".to_string()))
    );
    assert_eq!(n.raft.consensus.called(), vec![("step", 3), ("step", 9), ("step", 1)]);
}

#[test]
fn requests_and_the_network() {
    let mut n = node();
    n.report_unreachable(2);
    n.report_snapshot(2, SnapshotStatus::Failure);
    n.report_snapshot(3, SnapshotStatus::Finish);
    n.transfer_leader(4);
    n.read_index(vec![6, 7]);
    let e = Entry { data: vec![6, 7], ..Entry::default() };
    assert_eq!(
        n.raft.consensus.messages,
        vec![
            message(MessageType::MsgUnreachable, 2),
            Message { reject: true, ..message(MessageType::MsgSnapStatus, 2) },
            message(MessageType::MsgSnapStatus, 3),
            message(MessageType::MsgTransferLeader, 4),
            Message { entries: vec![e], ..message(MessageType::MsgReadIndex, 0) },
        ]
    );
    // The first three are not taken from the network, the others are.
    let mut other = node();
    let mut taken = Vec::new();
    while let Some(m) = n.raft.consensus.messages.pop() {
        taken.push(other.step(m).is_ok());
    }
    assert_eq!(taken, vec![true, true, false, false, false]);
}

#[test]
fn refused_reports_are_ignored() {
    let mut n = node();
    n.raft.consensus.answer = Err(Error::ProposalDropped);
    n.report_unreachable(2);
    n.report_snapshot(2, SnapshotStatus::Finish);
    n.transfer_leader(4);
    n.read_index(Vec::new());
    assert_eq!(n.raft.consensus.messages.len(), 4);
}

#[test]
fn status_of_leader_and_follower() {
    let mut n = node();
    n.raft.raft_log.applied = 3;
    n.raft.raft_log.committed = 4;
    n.raft.vote = 2;
    {
        let s = n.status();
        assert_eq!(s.id, 7);
        assert_eq!(s.applied, 3);
        assert_eq!(s.hs, HardState { term: 1, vote: 2, commit: 4 });
        assert_eq!(s.ss, SoftState { leader_id: 0, raft_state: StateRole::Follower });
        assert!(s.progress.is_none());
    }
    n.raft.state = StateRole::Leader;
    let s = n.status();
    match s.progress {
        Some(p) => {
            assert_eq!(p.voter_ids, vec![1, 2]);
            assert!(p.contains(3) && !p.contains(4));
        }
        None => unreachable!(),
    }
}

#[test]
fn store_and_settings() {
    let mut n = node();
    assert_eq!(n.get_store(), &vec![9]);
    n.mut_store().push(10);
    assert_eq!(n.get_store(), &vec![9, 10]);
    n.skip_bcast_commit(true);
    assert!(n.raft.skip_bcast_commit && !n.raft.batch_append);
    n.set_batch_append(true);
    n.skip_bcast_commit(false);
    assert!(!n.raft.skip_bcast_commit && n.raft.batch_append);
}
