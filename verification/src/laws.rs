//! What holds of a room as a whole.
pub mod addressing;
pub mod ballots;
pub mod basics;
pub mod finding;
pub mod going_on;
pub mod history;
pub mod joining;
pub mod leading;
pub mod linking;
pub mod measuring;
pub mod music;
pub mod orders;
pub mod peers;
pub mod playing;
pub mod queueing;
pub mod rest;
pub mod room;
pub mod session;
pub mod shelter;
pub mod talking;
pub mod votes;
