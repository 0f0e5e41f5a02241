//! The monitoring of peers: when a peer is asked for news of itself, what has been learned of the
//! peers, and a stand-in for the peers that answers the questions.

pub mod config;
pub mod messages;
pub mod mock_server;
pub mod peer_laws;
pub mod peer_states;
pub mod peers;
pub mod request_tracker;
pub mod tracker_laws;
