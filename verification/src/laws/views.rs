//! Laws that tie the mathematical views to the values that they describe.

use crate::buffer::buffer_bytes;
use crate::commands::HQMCommandAction;
use crate::game::{HQMObjectIndex, HQMTeam};
use crate::message::{HQMMessage, HQMServerMessages};
use crate::net::{HQMBanList, HQMIpAddr};
use crate::player::{
    HQMNetworkPlayerData, HQMServerPlayer, HQMServerPlayerIndex, HQMServerPlayerList,
};
use crate::server::HQMServer;
use crate::tick::{HQMTickAction, HQMTickPhase};
use crate::wire::{update_views, HQMUpdate, HQMWireField};
use std::borrow::Cow;
use std::rc::Rc;
use vstd::prelude::*;

verus! {

/// A message tells of a player what it was made with.
pub proof fn law_player_messages(
    player_name: Rc<String>,
    object: Option<(HQMObjectIndex, HQMTeam)>,
    player_index: HQMServerPlayerIndex,
    in_server: bool,
)
    ensures
        ({
            let m = HQMMessage::PlayerUpdate { player_name, object, player_index, in_server }@;
            &&& m is PlayerUpdate
            &&& m->player_name == (*player_name)@
            &&& m->object == object
            &&& m->PlayerUpdate_player_index == player_index
            &&& m->in_server == in_server
        }),
{
}

/// A message tells of a goal what it was made with.
pub proof fn law_goal_messages(
    team: HQMTeam,
    goal_player_index: Option<HQMServerPlayerIndex>,
    assist_player_index: Option<HQMServerPlayerIndex>,
)
    ensures
        ({
            let m = HQMMessage::Goal { team, goal_player_index, assist_player_index }@;
            &&& m is Goal
            &&& m->team == team
            &&& m->goal_player_index == goal_player_index
            &&& m->assist_player_index == assist_player_index
        }),
{
}

/// A message holds the words that it was made with.
pub proof fn law_chat_messages(
    player_index: Option<HQMServerPlayerIndex>,
    message: Cow<'static, str>,
)
    ensures
        ({
            let m = HQMMessage::Chat { player_index, message }@;
            &&& m is Chat
            &&& m->Chat_player_index == player_index
            &&& m->message == message@
        }),
{
}

/// The lists of messages are what their members say, in order.
pub proof fn law_message_lists(m: HQMServerMessages, i: int)
    ensures
        m@.persistent_messages.len() == m.persistent_messages@.len(),
        m@.replay_messages.len() == m.replay_messages@.len(),
        m@.waiting_messages.len() == m.waiting_messages@.len(),
        0 <= i < m.persistent_messages@.len() ==> m@.persistent_messages[i]
            == (*m.persistent_messages@[i])@,
        0 <= i < m.replay_messages@.len() ==> m@.replay_messages[i] == (*m.replay_messages@[i])@,
        0 <= i < m.waiting_messages@.len() ==> m@.waiting_messages[i].0
            == m.waiting_messages@[i].0 && m@.waiting_messages[i].1 == (
        *m.waiting_messages@[i].1)@,
{
}

/// What is known of a client is what stands in its fields.
pub proof fn law_clients(d: HQMNetworkPlayerData, i: int)
    ensures
        d@.addr == d.addr,
        d@.client_version == d.client_version,
        d@.inactivity == d.inactivity,
        d@.known_packet == d.known_packet,
        d@.known_msgpos == d.known_msgpos,
        d@.chat_rep == d.chat_rep,
        d@.deltatime == d.deltatime,
        d@.last_ping == d.last_ping@,
        d@.view_player_index == d.view_player_index,
        d@.game_id == d.game_id,
        d@.messages.len() == d.messages@.len(),
        0 <= i < d.messages@.len() ==> d@.messages[i] == (*d.messages@[i])@,
{
}

/// What is known of a player is what stands in the player's fields.
pub proof fn law_players(p: HQMServerPlayer)
    ensures
        p@.player_name == (*p.player_name)@,
        p@.object == p.object,
        p@.id == p.id,
        p@.data == p.data->data@,
        p@.is_admin == p.is_admin,
        p@.is_muted == p.is_muted,
        p@.hand == p.hand,
        p@.mass == p.mass,
        p@.input == p.input,
        p@.stick_limit == p.stick_limit,
{
}

/// Who is in a slot is who stands at that place of the list.
pub proof fn law_player_lists(l: HQMServerPlayerList, i: int)
    ensures
        l@.len() == l.players@.len(),
        0 <= i < l.players@.len() && l.players@[i] is Some ==> l@[i] == Some(l.players@[i]->0@),
        0 <= i < l.players@.len() && l.players@[i] is None ==> l@[i] is None,
{
}

/// The state of a server is what stands in its fields.
pub proof fn law_servers(s: HQMServer, i: int)
    ensures
        s@.players == s.players@,
        s@.messages == s.messages@,
        s@.ban_list == s.ban_list@,
        s@.allow_join == s.allow_join,
        s@.config == s.config,
        s@.values == s.values,
        s@.requested_replays == s.requested_replays@,
        s@.game_id == s.game_id,
        s@.game_step == s.game_step,
        s@.is_muted == s.is_muted,
        s@.start_time == s.start_time,
        s@.has_current_game_been_active == s.has_current_game_been_active,
        s@.packet == s.packet,
        s@.replay_data == buffer_bytes(s.replay_data),
        s@.replay_msg_pos == s.replay_msg_pos,
        s@.replay_last_packet == s.replay_last_packet,
        s@.saved_packets == s.saved_packets@,
        s@.saved_pings == s.saved_pings@,
        s@.saved_history == s.saved_history@,
        s@.history_length == s.history_length,
        s@.replay_queue.len() == s.replay_queue@.len(),
        0 <= i < s.replay_queue@.len() ==> s@.replay_queue[i].data == s.replay_queue@[i].data@
            && s@.replay_queue[i].force_view == s.replay_queue@[i].force_view,
        s@.saved_events.len() == s.saved_events@.len(),
        0 <= i < s.saved_events@.len() ==> s@.saved_events[i].0 == s.saved_events@[i].0
            && s@.saved_events[i].1 == s.saved_events@[i].1@,
{
}

/// A host is banned exactly if its address is in the list for its version.
pub proof fn law_bans(bans: HQMBanList, v4: u32, v6: u128)
    ensures
        bans@.contains(HQMIpAddr::V4(v4)) <==> bans.v4@.contains(v4),
        bans@.contains(HQMIpAddr::V6(v6)) <==> bans.v6@.contains(v6),
{
}

/// A packet goes to its address, and holds its fields in order.
pub proof fn law_packets(updates: Seq<HQMUpdate>, k: int, i: int)
    requires
        0 <= k < updates.len(),
        0 <= i < updates[k].fields@.len(),
    ensures
        ({
            let sent = update_views(updates);
            let field = sent[k].1[i];
            &&& sent.len() == updates.len()
            &&& sent[k].0 == updates[k].addr
            &&& sent[k].1.len() == updates[k].fields@.len()
            &&& match updates[k].fields@[i] {
                HQMWireField::Bytes(bytes) => field is Bytes && field->Bytes_0 == bytes@,
                HQMWireField::PaddedBytes { width, bytes } => field is PaddedBytes && field->width
                    == width && field->PaddedBytes_bytes == bytes@,
                HQMWireField::Byte(value) => field is Byte && field->Byte_0 == value,
                HQMWireField::Word(value) => field is Word && field->Word_0 == value,
                HQMWireField::Bits { count, value } => field is Bits && field->count == count
                    && field->value == value,
                HQMWireField::Objects { current_packet, known_packet } => field is Objects
                    && field->current_packet == current_packet && field->known_packet
                    == known_packet,
                HQMWireField::Message(message) => field is Message && field->Message_0 == (
                *message)@,
                HQMWireField::ReplayFix => field is ReplayFix,
            }
        }),
{
}

/// What is left to do for a chat line is what stands in the action.
pub proof fn law_command_actions(action: HQMCommandAction)
    ensures
        match action {
            HQMCommandAction::Nothing => action@ is Nothing,
            HQMCommandAction::SetAllowJoin(allow) => action@ is SetAllowJoin
                && action@->SetAllowJoin_0 == allow,
            HQMCommandAction::MutePlayer(i) => action@ is MutePlayer && action@->MutePlayer_0 == i,
            HQMCommandAction::UnmutePlayer(i) => action@ is UnmutePlayer
                && action@->UnmutePlayer_0 == i,
            HQMCommandAction::MuteChat => action@ is MuteChat,
            HQMCommandAction::UnmuteChat => action@ is UnmuteChat,
            HQMCommandAction::KickPlayer { player_index, ban } => action@ is KickPlayer
                && action@->player_index == player_index && action@->KickPlayer_ban == ban,
            HQMCommandAction::KickAllMatching { name, ban } => action@ is KickAllMatching
                && action@->name == name@ && action@->KickAllMatching_ban == ban,
            HQMCommandAction::ClearBans => action@ is ClearBans,
            HQMCommandAction::AdminLogin { password } => action@ is AdminLogin && action@->password
                == password@,
            HQMCommandAction::RestartServer => action@ is RestartServer,
            HQMCommandAction::SetHand(hand) => action@ is SetHand && action@->SetHand_0 == hand,
            HQMCommandAction::ReportPing { player_name, pings } => action@ is ReportPing
                && action@->player_name == (*player_name)@ && action@->pings == pings@,
            HQMCommandAction::Behaviour { command, arg } => action@ is Behaviour
                && action@->command == command@ && action@->arg == arg@,
        },
{
}

/// What to do next in a tick is what stands in the action.
pub proof fn law_tick_actions<P>(action: HQMTickAction<P>)
    ensures
        match action {
            HQMTickAction::Rest => action@ is Rest,
            HQMTickAction::AskInitialValues => action@ is AskInitialValues,
            HQMTickAction::EnterNewGame(game) => action@ is EnterNewGame
                && action@->EnterNewGame_0.puck_slots == game.puck_slots
                && action@->EnterNewGame_0.physics_configuration == game.physics_configuration && (
            game.replay is Some <==> action@->EnterNewGame_0.replay is Some) && (
            game.replay is Some ==> {
                let stored = action@->EnterNewGame_0.replay->0;
                &&& stored.time == game.replay->0.time@
                &&& stored.server_name == game.replay->0.server_name@
                &&& stored.file_name == game.replay->0.file_name@
                &&& stored.data == buffer_bytes(game.replay->0.data)
            }),
            HQMTickAction::TellGameStarted => action@ is TellGameStarted,
            HQMTickAction::TellExit(i) => action@ is TellExit && action@->TellExit_0 == i,
            HQMTickAction::TakeOffRink(object) => action@ is TakeOffRink && action@->TakeOffRink_0
                == object,
            HQMTickAction::TellBeforeTick => action@ is TellBeforeTick,
            HQMTickAction::Simulate(inputs) => action@ is Simulate && action@->Simulate_0 == inputs@,
            HQMTickAction::LimitPucks(touches) => action@ is LimitPucks && action@->LimitPucks_0
                == touches@,
            HQMTickAction::AskReplay => action@ is AskReplay,
            HQMTickAction::WriteReplay(fields) => action@ is WriteReplay
                && action@->WriteReplay_0.len() == fields@.len() && forall|i: int|
                0 <= i < fields@.len() ==> #[trigger] action@->WriteReplay_0[i] == fields@[i]@,
            HQMTickAction::Send(updates) => action@ is Send && action@->Send_0.len()
                == updates@.len(),
        },
{
}

/// Where in a tick the server is, is what stands in the phase.
pub proof fn law_tick_phases(phase: HQMTickPhase)
    ensures
        match phase {
            HQMTickPhase::Idle => phase@ is Idle,
            HQMTickPhase::Abandoned => phase@ is Abandoned,
            HQMTickPhase::Restarted => phase@ is Restarted,
            HQMTickPhase::Starting => phase@ is Starting,
            HQMTickPhase::Exiting { inactive, next } => phase@ is Exiting
                && phase@->Exiting_inactive == inactive@ && phase@->Exiting_next == next,
            HQMTickPhase::Clearing { inactive, next } => phase@ is Clearing
                && phase@->Clearing_inactive == inactive@ && phase@->Clearing_next == next,
            HQMTickPhase::Stepping => phase@ is Stepping,
            HQMTickPhase::Simulating => phase@ is Simulating,
            HQMTickPhase::Watching => phase@ is Watching,
            HQMTickPhase::Deciding => phase@ is Deciding,
            HQMTickPhase::Recording => phase@ is Recording,
            HQMTickPhase::Sending => phase@ is Sending,
        },
{
}

} // verus!
