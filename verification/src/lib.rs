//! The rules of a hockey game server: who is on the rink, which messages reach
//! whom, what every client is told after each tick, and what goes into the replay.
//!
//! The physics of the rink, the packing of fields into bytes and the socket are
//! left to the caller: the functions here say what to hand to them and what to
//! do with their answers.

pub mod text;
pub mod game;
pub mod net;
pub mod message;
pub mod player;
pub mod matches;
pub mod buffer;
pub mod server;
pub mod session;
pub mod lookup;
pub mod commands;
pub mod wire;
pub mod replay;
pub mod tick;
pub mod protocol;
pub mod master;
pub mod laws;
