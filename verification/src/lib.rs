//! Verified building blocks of a blockchain node and of the services around it.
//!
//! - [`node`]: the nodes of the consensus graph, with their signatures and certificates.
//! - [`indexer`]: the cache worker, which copies a fullnode's transaction stream into a cache, and
//!   the data service, which streams cached transactions to clients.
//! - [`monitoring`]: the monitoring of peers.
//! - [`primitives`]: the plain values that these share.
//!
//! The services alternate between outside work and decisions. The decisions are made here, by
//! sessions: a session is told what the last piece of outside work came to, and answers with the
//! next one.

pub mod indexer;
pub mod monitoring;
pub mod node;
pub mod node_laws;
pub mod primitives;
