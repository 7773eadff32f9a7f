//! What holds of the server as a whole.

pub mod clients;
pub mod course;
pub mod games;
pub mod invariants;
pub mod lists;
pub mod messages;
pub mod names;
pub mod orders;
pub mod packets;
pub mod players;
pub mod replays;
pub mod reports;
pub mod sessions;
pub mod texts;
pub mod ticks;
pub mod views;
