use std::sync::Arc;
use vstd::prelude::*;

use crate::rlog::config::SECONDARY_COUNT;

verus! {

/// A message as clients submit it.
#[derive(Debug, Clone)]
pub struct Message {
    pub text: String,
}

/// How many nodes (the master included) must hold a message before the
/// master answers the client.
#[derive(Debug, Clone, Copy)]
pub struct WriteConcern(pub usize);

impl Default for WriteConcern {
    /// By default every node must hold the message.
    fn default() -> (wc: Self)
        ensures
            wc.0 == SECONDARY_COUNT + 1,
    {
        WriteConcern(SECONDARY_COUNT + 1)
    }
}

/// The position of a message in the replicated log.
#[derive(Debug, Clone, Copy, PartialEq, Eq, Structural, Hash, PartialOrd, Ord)]
pub struct MessageID(pub usize);

impl Default for MessageID {
    fn default() -> (id: Self)
        ensures
            id.0 == 0,
    {
        MessageID(0)
    }
}

/// Whether the master must see enough live secondaries before accepting a message.
#[derive(Debug, Clone, Copy)]
pub struct QuorumAppend(pub bool);

impl Default for QuorumAppend {
    fn default() -> (q: Self)
        ensures
            !q.0,
    {
        QuorumAppend(false)
    }
}

/// A client's request to the master.
#[derive(Debug, Clone)]
pub struct MasterMessageRequest {
    pub msg_ptr: Arc<Message>,
    pub wc: WriteConcern,
    pub quorum_append: QuorumAppend,
}

/// The master's replication request to a secondary.
#[derive(Debug, Clone)]
pub struct SecondaryMessageRequest {
    pub msg_ptr: Arc<Message>,
    pub id: MessageID,
}

/// One entry of a node's message listing.
#[derive(Debug, Clone)]
pub struct MessageResponse {
    pub msg_ptr: Arc<Message>,
    pub id: usize,
}

} // verus!
