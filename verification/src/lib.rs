//! The raw node of a Raft group, with every function's behaviour stated and
//! proved.
//!
//! A [`raw_node::RawNode`] sits between an application and a consensus core. It
//! turns the application's requests into messages for the core, keeps messages
//! that must not come from the network away from it, and tells the application
//! through [`raw_node::Ready`] values what has to be saved, sent and applied.

use vstd::prelude::*;

pub mod eraftpb;
pub mod laws;
pub mod laws_operations;
pub mod laws_ready;
pub mod laws_requests;
pub mod laws_values;
pub mod raft;
pub mod raft_log;
pub mod raw_node;
pub mod wire;

verus! {

/// The id that no node has.
pub const INVALID_ID: u64 = 0;

} // verus!
