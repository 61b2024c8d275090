//! Peer state of a shared listening room: chat history, peer names, a music queue,
//! synchronised playback, votes, and the promotion of relayed connections.
pub mod address;
pub mod collections;
pub mod effect;
pub mod history;
pub mod laws;
pub mod model;
pub mod names;
pub mod peer;
pub mod playback;
pub mod queue;
pub mod routes;
pub mod session;
pub mod sync;
pub mod text;
pub mod time;
pub mod vote;
