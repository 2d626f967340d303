//! A minimal user-space TCP endpoint: the sequence-space arithmetic, the
//! per-connection state machine and the packet writer, with their contracts.

pub mod connection;
pub mod inbound;
pub mod seqnum;
pub mod state;
pub mod wire;
