//! Laws on messages from clients.

use crate::commands::{chat_view, HQMClientUpdate};
use crate::net::HQMSocketAddr;
use crate::player::player_at;
use crate::protocol::{HQMClientAction, HQMClientToServerMessage};
use crate::server::HQMServerView;
use vstd::prelude::*;

verus! {

/// A client that asks about the server is answered with the number that it sent, whoever
/// it is; nothing changes.
pub proof fn law_questions(
    s: HQMServerView,
    addr: HQMSocketAddr,
    version: u32,
    ping: u32,
    received: u64,
    after: HQMServerView,
    action: HQMClientAction,
)
    requires
        s.handles(
            addr,
            HQMClientToServerMessage::ServerInfo { version, ping },
            received,
            after,
            action,
        ),
    ensures
        after == s,
        action is SendInfo,
        action->ping == ping,
{
}

/// A client that says goodbye is seen off if it is on the server, by its slot and name;
/// nothing changes yet.
pub proof fn law_goodbyes(
    s: HQMServerView,
    addr: HQMSocketAddr,
    received: u64,
    after: HQMServerView,
    action: HQMClientAction,
)
    requires
        s.handles(addr, HQMClientToServerMessage::Exit, received, after, action),
    ensures
        after == s,
        s.slot_of(addr) is None ==> action is Nothing,
        s.slot_of(addr) is Some ==> {
            &&& action is Exiting
            &&& action->Exiting_player_index == s.slot_of(addr)->0
            &&& player_at(s.players, s.slot_of(addr)->0) is Some
            &&& (*action->Exiting_player_name)@ == player_at(
                s.players,
                s.slot_of(addr)->0,
            )->0.player_name
        },
{
}

/// A client that asks to join becomes a newcomer in the first free slot, under the name
/// that it gave, if it is let in and there is one; else nothing changes, and it is not
/// answered.
pub proof fn law_joining(
    s: HQMServerView,
    addr: HQMSocketAddr,
    version: u32,
    player_name: String,
    received: u64,
    after: HQMServerView,
    action: HQMClientAction,
)
    requires
        s.handles(
            addr,
            HQMClientToServerMessage::Join { version, player_name },
            received,
            after,
            action,
        ),
    ensures
        s.admits(addr, version) && s.free_slot() is Some ==> {
            let slot = s.free_slot()->0;
            &&& action is Joined
            &&& action->Joined_player_index == slot
            &&& action->Joined_player_name@ == player_name@
            &&& exists|id: u128|
                after == #[trigger] s.with_newcomer(slot, player_name@, addr, id)
        },
        !(s.admits(addr, version) && s.free_slot() is Some) ==> after == s && action is Nothing,
{
    if s.admits(addr, version) && s.free_slot() is Some {
        let slot = s.free_slot()->0;
        let id = player_at(after.players, slot)->0.id;
        assert(after == s.with_newcomer(slot, player_name@, addr, id));
    }
}

/// What a client reports is taken over in the slot of its address, and what its chat asks
/// for is left to do for that slot; a stranger's report changes nothing.
pub proof fn law_reporting(
    s: HQMServerView,
    addr: HQMSocketAddr,
    update: HQMClientUpdate,
    chat: Option<(u8, String)>,
    received: u64,
    after: HQMServerView,
    action: HQMClientAction,
)
    requires
        s.handles(
            addr,
            HQMClientToServerMessage::Update { update, chat },
            received,
            after,
            action,
        ),
    ensures
        s.slot_of(addr) is None ==> after == s && action is Nothing,
        s.slot_of(addr) is Some ==> {
            &&& action is Command
            &&& action->Command_player_index == s.slot_of(addr)->0
            &&& (after, action->action@) == s.after_update(
                addr,
                update,
                match chat {
                    Some((rep, line)) => Some((rep, line@)),
                    None => None,
                },
                received,
            )
        },
{
    assert(chat_view(chat) == match chat {
        Some((rep, line)) => Some((rep, line@)),
        None => None,
    });
}

} // verus!
