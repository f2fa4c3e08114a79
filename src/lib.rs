//! Peer coordination for a self-organizing radio-mesh node: parent election
//! from scans, the node's boot identity, link-status reading, the topology of
//! attached peers, and the in-process event bus that drives them.

pub mod seqs;
pub mod bounded;
pub mod message;
pub mod selector;
pub mod identity;
pub mod link;
pub mod topology;
pub mod bus;
pub mod node;
