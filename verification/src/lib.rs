//! Coordination of local development sessions of a federated supergraph:
//! the leader's registry of subgraphs and its replies, the composition
//! driver and the router's lifecycle, the watcher of one subgraph's source,
//! and the framing of messages on the local socket.
//!
//! The library decides and computes; sockets, channels, threads, the
//! composer and the router process belong to its caller.

pub mod codec;
pub mod laws;
pub mod leader;
pub mod messages;
pub mod order;
pub mod publish;
pub mod registry;
pub mod router;
pub mod text;
pub mod types;
pub mod version;
pub mod watcher;
