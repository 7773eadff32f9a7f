//! Messages from clients.

use crate::commands::{chat_view, HQMClientUpdate, HQMCommandAction};
use crate::net::HQMSocketAddr;
use crate::player::{is_random_id, player_at, HQMServerPlayerIndex};
use crate::server::{HQMServer, HQMServerView};
use std::rc::Rc;
use vstd::prelude::*;

verus! {

/// A message from a client.
#[allow(inconsistent_fields)]
pub enum HQMClientToServerMessage {
    Join { version: u32, player_name: String },
    Update { update: HQMClientUpdate, chat: Option<(u8, String)> },
    Exit,
    ServerInfo { version: u32, ping: u32 },
}

/// What is left to do for a message from a client.
#[allow(inconsistent_fields)]
pub enum HQMClientAction {
    Nothing,
    /// Let the rules of the game know of a newcomer, then announce the name.
    Joined { player_index: HQMServerPlayerIndex, player_name: String },
    /// Do what a player's chat asks for.
    Command { player_index: HQMServerPlayerIndex, action: HQMCommandAction },
    /// Let the rules of the game know that a player is about to go, then carry out
    /// the departure.
    Exiting { player_index: HQMServerPlayerIndex, player_name: Rc<String> },
    /// Answer a client that asks about the server.
    SendInfo { ping: u32 },
}

impl HQMServerView {
    /// Whether the server is `after`, and `action` is left to do, after a message
    /// from a client.
    pub open spec fn handles(
        self,
        addr: HQMSocketAddr,
        message: HQMClientToServerMessage,
        time: u64,
        after: Self,
        action: HQMClientAction,
    ) -> bool {
        match message {
            HQMClientToServerMessage::Join { version, player_name } => if self.admits(
                addr,
                version,
            ) && self.free_slot() is Some {
                let index = self.free_slot()->0;
                let p = player_at(after.players, index);
                &&& p is Some
                &&& is_random_id(p->0.id)
                &&& after == self.with_newcomer(index, player_name@, addr, p->0.id)
                &&& action matches HQMClientAction::Joined { player_index, player_name: name }
                    && player_index == index && name@ == player_name@
            } else {
                after == self && action == HQMClientAction::Nothing
            },
            HQMClientToServerMessage::Update { update, chat } => match self.slot_of(addr) {
                Some(index) => action matches HQMClientAction::Command { player_index, action: left }
                    && player_index == index && (after, left@) == self.after_update(
                    addr,
                    update,
                    chat_view(chat),
                    time,
                ),
                None => after == self && action == HQMClientAction::Nothing,
            },
            HQMClientToServerMessage::Exit => after == self && match self.slot_of(addr) {
                Some(index) => action matches HQMClientAction::Exiting { player_index, player_name }
                    && player_index == index && player_at(self.players, index) is Some && (
                *player_name)@ == player_at(self.players, index)->0.player_name,
                None => action == HQMClientAction::Nothing,
            },
            HQMClientToServerMessage::ServerInfo { version, ping } => after == self && action
                == (HQMClientAction::SendInfo { ping }),
        }
    }
}

impl HQMServer {
    /// Takes a message from a client, which came at `time_received` by the clock of
    /// the ticks, and says what is left to do for it.
    pub fn handle_message(
        &mut self,
        addr: HQMSocketAddr,
        command: HQMClientToServerMessage,
        time_received: u64,
    ) -> (r: HQMClientAction)
        requires
            old(self)@.wf(),
        ensures
            final(self)@.wf(),
            old(self)@.handles(addr, command, time_received, final(self)@, r),
    {
        match command {
            HQMClientToServerMessage::Join { version, player_name } => {
                let joined = self.player_join(addr, version, player_name.clone());
                match joined {
                    Some(player_index) => HQMClientAction::Joined { player_index, player_name },
                    None => HQMClientAction::Nothing,
                }
            },
            HQMClientToServerMessage::Update { update, chat } => {
                match self.player_update(addr, update, chat, time_received) {
                    Some((player_index, action)) => HQMClientAction::Command {
                        player_index,
                        action,
                    },
                    None => HQMClientAction::Nothing,
                }
            },
            HQMClientToServerMessage::Exit => {
                match self.player_exit(addr) {
                    Some((player_index, player_name)) => HQMClientAction::Exiting {
                        player_index,
                        player_name,
                    },
                    None => HQMClientAction::Nothing,
                }
            },
            HQMClientToServerMessage::ServerInfo { version: _, ping } => HQMClientAction::SendInfo {
                ping,
            },
        }
    }
}

} // verus!
