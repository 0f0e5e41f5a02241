//! The transaction indexer: the frames that travel between its services, the worker that fills the
//! cache from a fullnode's stream, and the service that streams cached transactions to clients.

pub mod chunk_order_laws;
pub mod config;
pub mod datastream;
pub mod frame_laws;
pub mod run_laws;
pub mod service;
pub mod service_laws;
pub mod serving_laws;
pub mod session_laws;
pub mod worker;
pub mod worker_laws;
