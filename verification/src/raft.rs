//! The state of a node that a raw node reads, and the consensus algorithm that
//! moves it.
//!
//! [`Raft`] holds that state as plain values. [`Consensus`] is the algorithm. Its
//! methods promise nothing: whatever is proved of a raw node holds with every
//! algorithm, and the contracts say of each call what it was made on and what
//! became of its outcome.

use vstd::prelude::*;

use crate::eraftpb::{ConfChange, ConfState, ConfStateView, HardState, Message, Snapshot};
use crate::raft_log::RaftLog;

verus! {

/// Why a request was refused.
#[derive(Debug, PartialEq, Eq)]
pub enum Error {
    /// A message came in that only the node itself may send.
    StepLocalMsg,
    /// A response came in from a node that is not a peer.
    StepPeerNotFound,
    /// A proposal cannot be taken now.
    ProposalDropped,
    /// The configuration cannot be used.
    ConfigInvalid(String),
    /// The node is a member already.
    Exists(u64),
    /// The node is not a member.
    NotExists(u64),
    /// A change of members breaks the rules for such changes.
    ViolatesContract(String),
    /// The store failed.
    Store(String),
}

/// The part that a node plays in its group.
#[derive(Debug, Clone, Copy, PartialEq, Eq, Structural)]
pub enum StateRole {
    Follower,
    Candidate,
    Leader,
    PreCandidate,
}

/// The state of a node that need not survive a restart.
#[derive(Debug, Clone, Copy, PartialEq, Eq, Structural)]
pub struct SoftState {
    /// The leader as far as the node knows, or 0.
    pub leader_id: u64,
    pub raft_state: StateRole,
}

/// The answer to a read request: reads are linearizable once this index is applied.
#[derive(Debug, PartialEq, Eq)]
pub struct ReadState {
    pub index: u64,
    pub request_ctx: Vec<u8>,
}

#[verifier::ext_equal]
pub struct ReadStateView {
    pub index: u64,
    pub request_ctx: Seq<u8>,
}

impl View for ReadState {
    type V = ReadStateView;

    open spec fn view(&self) -> ReadStateView {
        ReadStateView { index: self.index, request_ctx: self.request_ctx@ }
    }
}

impl Clone for ReadState {
    fn clone(&self) -> (r: ReadState)
        ensures
            r@ == self@,
    {
        ReadState { index: self.index, request_ctx: self.request_ctx.clone() }
    }
}

/// The views of the read states of a list, in order.
pub open spec fn read_state_views(states: Seq<ReadState>) -> Seq<ReadStateView> {
    states.map_values(|r: ReadState| r@)
}

/// The voters and the learners of a group, each id once.
#[derive(Debug)]
pub struct Configuration {
    pub voters: Vec<u64>,
    pub learners: Vec<u64>,
}

impl Configuration {
    /// Neither list holds an id twice: each is a set.
    pub open spec fn wf(self) -> bool {
        &&& self.voters@.no_duplicates()
        &&& self.learners@.no_duplicates()
    }

    /// The members as they are reported to the application.
    pub fn to_conf_state(&self) -> (c: ConfState)
        ensures
            c@ == (ConfStateView { nodes: self.voters@, learners: self.learners@ }),
    {
        ConfState { nodes: self.voters.clone(), learners: self.learners.clone() }
    }
}

/// The members that a node keeps track of, each id once in each list.
#[derive(Debug)]
pub struct ProgressSet {
    /// Every node whose progress is tracked.
    pub peers: Vec<u64>,
    /// Every node that votes now or will vote after the change under way.
    pub voter_ids: Vec<u64>,
    /// Every node that learns now or will learn after the change under way.
    pub learner_ids: Vec<u64>,
    /// The members in force.
    pub configuration: Configuration,
}

impl ProgressSet {
    /// No list holds an id twice: each is a set.
    pub open spec fn wf(self) -> bool {
        &&& self.peers@.no_duplicates()
        &&& self.voter_ids@.no_duplicates()
        &&& self.learner_ids@.no_duplicates()
        &&& self.configuration.wf()
    }

    /// Whether the progress of a node is tracked.
    pub fn contains(&self, id: u64) -> (b: bool)
        ensures
            b == self.peers@.contains(id),
    {
        let mut i: usize = 0;
        while i < self.peers.len()
            invariant
                i <= self.peers.len(),
                forall|k: int| 0 <= k < i ==> self.peers@[k] != id,
            decreases self.peers.len() - i,
        {
            if self.peers[i] == id {
                return true;
            }
            i = i + 1;
        }
        false
    }
}

/// How to set up a node.
#[derive(Debug)]
pub struct Config<O> {
    /// The id of the node. Must not be 0.
    pub id: u64,
    /// What else the consensus algorithm wants to know.
    pub options: O,
}

/// The state of a node.
#[derive(Debug)]
pub struct Raft<T, C> {
    pub id: u64,
    /// The current term.
    pub term: u64,
    /// Whom the node votes for in this term, or 0.
    pub vote: u64,
    /// The leader as far as the node knows, or 0.
    pub leader_id: u64,
    pub state: StateRole,
    pub raft_log: RaftLog,
    /// The messages that wait to be sent.
    pub msgs: Vec<Message>,
    /// The answered read requests that the application has not seen.
    pub read_states: Vec<ReadState>,
    pub prs: ProgressSet,
    /// Whether empty commit messages are not broadcast.
    pub skip_bcast_commit: bool,
    /// Whether append messages are batched.
    pub batch_append: bool,
    /// The store of the application.
    pub store: T,
    /// What the consensus algorithm keeps for itself.
    pub consensus: C,
}

/// A consensus algorithm on the state of a node. Nothing is required of an implementation.
pub trait Consensus<T>: Sized {
    /// What the algorithm wants to know when a node is set up.
    type Options;

    /// Sets up a node from what the store holds.
    fn new(config: &Config<Self::Options>, store: T) -> Result<Raft<T, Self>, Error>;

    /// Advances the logical clock by a tick. True if something is probably ready then.
    fn tick(raft: &mut Raft<T, Self>) -> bool;

    /// Takes a message in.
    fn step(raft: &mut Raft<T, Self>, m: Message) -> Result<(), Error>;

    /// Sends a heartbeat to every follower. Only called on a leader.
    fn ping(raft: &mut Raft<T, Self>);

    /// Notes that the application has applied the log up to an index.
    fn commit_apply(raft: &mut Raft<T, Self>, applied: u64);

    /// Makes a node a voter.
    fn add_node(raft: &mut Raft<T, Self>, id: u64) -> Result<(), Error>;

    /// Makes a node a learner.
    fn add_learner(raft: &mut Raft<T, Self>, id: u64) -> Result<(), Error>;

    /// Takes a node out of the group.
    fn remove_node(raft: &mut Raft<T, Self>, id: u64) -> Result<(), Error>;

    /// Begins a change of many members at once.
    fn begin_membership_change(raft: &mut Raft<T, Self>, cc: &ConfChange) -> Result<(), Error>;

    /// Ends a change of many members at once.
    fn finalize_membership_change(raft: &mut Raft<T, Self>) -> Result<(), Error>;
}

impl<T, C> Raft<T, C> {
    /// What need not survive a restart.
    pub open spec fn spec_soft_state(self) -> SoftState {
        SoftState { leader_id: self.leader_id, raft_state: self.state }
    }

    /// What must survive a restart besides the log.
    pub open spec fn spec_hard_state(self) -> HardState {
        HardState { term: self.term, vote: self.vote, commit: self.raft_log.committed }
    }

    /// What need not survive a restart.
    pub fn soft_state(&self) -> (ss: SoftState)
        ensures
            ss == self.spec_soft_state(),
    {
        SoftState { leader_id: self.leader_id, raft_state: self.state }
    }

    /// What must survive a restart besides the log.
    pub fn hard_state(&self) -> (hs: HardState)
        ensures
            hs == self.spec_hard_state(),
    {
        HardState { term: self.term, vote: self.vote, commit: self.raft_log.committed }
    }

    /// The snapshot that has come in and is not saved, if there is one.
    pub fn get_snap(&self) -> (s: Option<&Snapshot>)
        ensures
            s is Some <==> self.raft_log.unstable.snapshot is Some,
            s matches Some(s) ==> *s == self.raft_log.unstable.snapshot->0,
    {
        self.raft_log.unstable.snapshot.as_ref()
    }
}

/// What a node can say about itself.
#[derive(Debug)]
pub struct Status<'a> {
    pub id: u64,
    pub hs: HardState,
    pub ss: SoftState,
    pub applied: u64,
    /// The members as the leader tracks them. Only a leader has them.
    pub progress: Option<&'a ProgressSet>,
}

impl<'a> Status<'a> {
    /// The status of a node.
    pub fn new<T, C>(raft: &'a Raft<T, C>) -> (s: Status<'a>)
        ensures
            s.id == raft.id,
            s.hs == raft.spec_hard_state(),
            s.ss == raft.spec_soft_state(),
            s.applied == raft.raft_log.applied,
            s.progress is Some <==> raft.state is Leader,
            s.progress matches Some(p) ==> *p == raft.prs,
    {
        Status {
            id: raft.id,
            hs: raft.hard_state(),
            ss: raft.soft_state(),
            applied: raft.raft_log.applied,
            progress: match raft.state {
                StateRole::Leader => Some(&raft.prs),
                _ => None,
            },
        }
    }
}

} // verus!
