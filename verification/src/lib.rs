//! A replicated message log: a master node that accepts messages, assigns
//! them sequential identifiers and replicates them to secondary nodes, and
//! secondaries that store what they receive and list the gap-free prefix.

pub mod rlog;
pub mod master;
pub mod secondary;
pub mod messages;
