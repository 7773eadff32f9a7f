//! Laws on the lists of a server: messages, players, and what is kept for a while.

use crate::game::{HQMGameValues, HQMObjectPacket, HQMServerConfiguration, HQMTeam};
use crate::message::{
    chat_message, HQMMessageView, HQMServerMessagesView, HQMWaitingMessageReceiver,
};
use crate::net::HQMIpAddr;
use crate::player::{player_at, HQMServerPlayerIndex, HQMServerPlayerView};
use crate::server::{recorded, HQMServerView};
use crate::session::lemma_told_all_keeps;
use vstd::prelude::*;

verus! {

/// Chat says who speaks, or that the server does, and the words.
pub proof fn law_chat(sender: Option<HQMServerPlayerIndex>, message: Seq<char>)
    ensures
        chat_message(sender, message) == (HQMMessageView::Chat { player_index: sender, message }),
{
}

/// A message for everyone waits for everyone behind all others. It is told to those who
/// join later exactly if it lasts, and recorded exactly if it is for the replay.
pub proof fn law_messages_for_everyone(
    m: HQMServerMessagesView,
    message: HQMMessageView,
    persistent: bool,
    replay: bool,
)
    ensures
        ({
            let t = m.global(message, persistent, replay);
            &&& t.waiting_messages == m.waiting_messages.push(
                (HQMWaitingMessageReceiver::All, message),
            )
            &&& persistent ==> t.persistent_messages == m.persistent_messages.push(message)
            &&& !persistent ==> t.persistent_messages == m.persistent_messages
            &&& replay ==> t.replay_messages == m.replay_messages.push(message)
            &&& !replay ==> t.replay_messages == m.replay_messages
        }),
{
}

/// A message for one player waits for that player behind all others, and stands
/// nowhere else.
pub proof fn law_messages_for_one(
    m: HQMServerMessagesView,
    message: HQMMessageView,
    receiver: HQMServerPlayerIndex,
)
    ensures
        ({
            let t = m.directed(message, receiver);
            &&& t.waiting_messages == m.waiting_messages.push(
                (HQMWaitingMessageReceiver::Specific(receiver), message),
            )
            &&& t.persistent_messages == m.persistent_messages
            &&& t.replay_messages == m.replay_messages
        }),
{
}

/// Chat of a player for everyone says who speaks; it is recorded, but not told to those
/// who join later.
pub proof fn law_chat_of_players(
    m: HQMServerMessagesView,
    line: Seq<char>,
    sender: HQMServerPlayerIndex,
)
    ensures
        ({
            let t = m.user_chat(line, sender);
            let chat = HQMMessageView::Chat { player_index: Some(sender), message: line };
            &&& t.waiting_messages == m.waiting_messages.push(
                (HQMWaitingMessageReceiver::All, chat),
            )
            &&& t.replay_messages == m.replay_messages.push(chat)
            &&& t.persistent_messages == m.persistent_messages
        }),
{
}

/// Chat for one player says who speaks, and stands nowhere else.
pub proof fn law_chat_for_one(
    m: HQMServerMessagesView,
    line: Seq<char>,
    receiver: HQMServerPlayerIndex,
    sender: Option<HQMServerPlayerIndex>,
)
    ensures
        ({
            let t = m.directed_chat(line, receiver, sender);
            &&& t.waiting_messages == m.waiting_messages.push(
                (
                    HQMWaitingMessageReceiver::Specific(receiver),
                    HQMMessageView::Chat { player_index: sender, message: line },
                ),
            )
            &&& t.replay_messages == m.replay_messages
            &&& t.persistent_messages == m.persistent_messages
        }),
{
}

/// A goal is told to everyone and to those who join later, and recorded: for which team it
/// was, who scored, and who assisted.
pub proof fn law_goals(
    m: HQMServerMessagesView,
    team: HQMTeam,
    scorer: Option<HQMServerPlayerIndex>,
    assistant: Option<HQMServerPlayerIndex>,
)
    ensures
        ({
            let t = m.goal(team, scorer, assistant);
            let told = t.waiting_messages.last().1;
            &&& told is Goal
            &&& told->team == team
            &&& told->goal_player_index == scorer
            &&& told->assist_player_index == assistant
            &&& t.waiting_messages == m.waiting_messages.push(
                (HQMWaitingMessageReceiver::All, told),
            )
            &&& t.replay_messages == m.replay_messages.push(told)
            &&& t.persistent_messages == m.persistent_messages.push(told)
        }),
{
}

/// A message for everyone is for the player in every slot; one for a player is for the
/// player in that slot alone.
pub proof fn law_receivers(index: HQMServerPlayerIndex, i: int)
    ensures
        HQMWaitingMessageReceiver::All.includes(i),
        HQMWaitingMessageReceiver::Specific(index).includes(i) <==> i == index.0,
{
}

/// What the server tells one player waits for that player as chat of the server, and
/// changes nothing else.
pub proof fn law_lines_for_one(
    s: HQMServerView,
    line: Seq<char>,
    receiver: HQMServerPlayerIndex,
)
    ensures
        ({
            let t = s.told(line, receiver);
            &&& t.messages.waiting_messages == s.messages.waiting_messages.push(
                (
                    HQMWaitingMessageReceiver::Specific(receiver),
                    HQMMessageView::Chat { player_index: None, message: line },
                ),
            )
            &&& t.messages.persistent_messages == s.messages.persistent_messages
            &&& t.messages.replay_messages == s.messages.replay_messages
            &&& t == (HQMServerView { messages: t.messages, ..s })
        }),
{
}

/// What the server tells one player in several lines waits for that player in their
/// order.
pub proof fn law_several_lines_for_one(
    s: HQMServerView,
    lines: Seq<Seq<char>>,
    receiver: HQMServerPlayerIndex,
)
    ensures
        ({
            let t = s.told_all(lines, receiver);
            &&& t.messages.waiting_messages == s.messages.waiting_messages + Seq::new(
                lines.len(),
                |k: int|
                    (
                        HQMWaitingMessageReceiver::Specific(receiver),
                        HQMMessageView::Chat { player_index: None, message: lines[k] },
                    ),
            )
            &&& t.messages.persistent_messages == s.messages.persistent_messages
            &&& t.messages.replay_messages == s.messages.replay_messages
            &&& t == (HQMServerView { messages: t.messages, ..s })
        }),
    decreases lines.len(),
{
    lemma_told_all_keeps(s.messages, lines, receiver);
    let t = s.told_all(lines, receiver);
    let waiting = s.messages.waiting_messages + Seq::new(
        lines.len(),
        |k: int|
            (
                HQMWaitingMessageReceiver::Specific(receiver),
                HQMMessageView::Chat { player_index: None, message: lines[k] },
            ),
    );
    if lines.len() > 0 {
        law_several_lines_for_one(s, lines.drop_last(), receiver);
    }
    assert(t.messages.waiting_messages =~= waiting);
}

/// What the server tells everyone waits for everyone as chat of the server, and is
/// recorded, but not told to those who join later; nothing else changes.
pub proof fn law_lines_for_everyone(s: HQMServerView, line: Seq<char>)
    ensures
        ({
            let t = s.announced(line);
            let chat = HQMMessageView::Chat { player_index: None, message: line };
            &&& t.messages.waiting_messages == s.messages.waiting_messages.push(
                (HQMWaitingMessageReceiver::All, chat),
            )
            &&& t.messages.replay_messages == s.messages.replay_messages.push(chat)
            &&& t.messages.persistent_messages == s.messages.persistent_messages
            &&& t == (HQMServerView { messages: t.messages, ..s })
        }),
{
}

/// Another player in a slot is found there, and no other slot changes.
pub proof fn law_slots(
    s: HQMServerView,
    index: HQMServerPlayerIndex,
    player: Option<HQMServerPlayerView>,
    i: HQMServerPlayerIndex,
)
    requires
        index.0 < s.players.len(),
    ensures
        ({
            let t = s.with_player(index, player);
            &&& t.players.len() == s.players.len()
            &&& t.players[index.0 as int] == player
            &&& i != index ==> player_at(t.players, i) == player_at(s.players, i)
            &&& t == (HQMServerView { players: t.players, ..s })
        }),
{
}

/// Nobody is in a slot that does not exist; in any other, who is there.
pub proof fn law_players_by_slot(
    players: Seq<Option<HQMServerPlayerView>>,
    i: HQMServerPlayerIndex,
)
    ensures
        i.0 < players.len() ==> player_at(players, i) == players[i.0 as int],
        i.0 >= players.len() ==> player_at(players, i) is None,
{
}

/// A list that keeps the latest entries has the latest in front, the others behind it in
/// their order, and drops the oldest when it is full.
pub proof fn law_latest_entries<T>(s: Seq<T>, x: T, n: nat)
    requires
        n > 0,
    ensures
        ({
            let t = recorded(s, x, n);
            &&& t[0] == x
            &&& t.len() <= n
            &&& s.len() < n ==> t.len() == s.len() + 1
            &&& s.len() >= n ==> t.len() == n
            &&& forall|i: int| 0 < i < t.len() ==> #[trigger] t[i] == s[i - 1]
        }),
{
}

/// When one more tick is made known to clients, its objects and its time come first; of
/// the ticks before, the latest are kept. Its number follows that of the tick before.
pub proof fn law_ticks_are_kept(s: HQMServerView, packets: [HQMObjectPacket; 32], now: u64)
    requires
        s.wf(),
    ensures
        ({
            let t = s.after_packets(packets, now);
            &&& t.saved_packets[0] == packets
            &&& t.saved_pings[0] == now
            &&& s.saved_packets.len() < 192 ==> t.saved_packets.len() == s.saved_packets.len() + 1
            &&& s.saved_packets.len() == 192 ==> t.saved_packets.len() == 192
            &&& s.saved_pings.len() < 100 ==> t.saved_pings.len() == s.saved_pings.len() + 1
            &&& s.saved_pings.len() == 100 ==> t.saved_pings.len() == 100
            &&& forall|i: int|
                0 < i < t.saved_packets.len() ==> #[trigger] t.saved_packets[i]
                    == s.saved_packets[i - 1]
            &&& forall|i: int|
                0 < i < t.saved_pings.len() ==> #[trigger] t.saved_pings[i] == s.saved_pings[i - 1]
            &&& s.packet < u32::MAX ==> t.packet == s.packet + 1
            &&& s.packet == u32::MAX ==> t.packet == 0
            &&& t == (HQMServerView {
                saved_packets: t.saved_packets,
                saved_pings: t.saved_pings,
                packet: t.packet,
                ..s
            })
        }),
{
}

/// When a step is kept that can be shown again, it comes first, with its number; of the
/// steps before, the latest are kept, as far as the history may be long.
pub proof fn law_steps_are_kept(s: HQMServerView, packets: [HQMObjectPacket; 32])
    ensures
        ({
            let t = s.with_history(packets);
            &&& s.history_length == 0 ==> t.saved_history.len() == 0
            &&& s.history_length > 0 ==> {
                &&& t.saved_history[0].game_step == s.game_step
                &&& t.saved_history[0].packets == packets
                &&& s.saved_history.len() < s.history_length ==> t.saved_history.len()
                    == s.saved_history.len() + 1
                &&& s.saved_history.len() >= s.history_length ==> t.saved_history.len()
                    == s.history_length
                &&& forall|i: int|
                    0 < i < t.saved_history.len() ==> #[trigger] t.saved_history[i]
                        == s.saved_history[i - 1]
            }
            &&& t == (HQMServerView { saved_history: t.saved_history, ..s })
        }),
{
}

/// A server on which nobody has been yet: every slot is free, everyone may join and speak,
/// and nothing has been said, played, recorded or kept of the first game.
pub proof fn law_first_games(config: HQMServerConfiguration, values: HQMGameValues)
    ensures
        ({
            let s = HQMServerView::initial(config, values);
            &&& s.players.len() == 64
            &&& forall|i: int| 0 <= i < 64 ==> (#[trigger] s.players[i]) is None
            &&& s.messages.persistent_messages.len() == 0
            &&& s.messages.replay_messages.len() == 0
            &&& s.messages.waiting_messages.len() == 0
            &&& s.ban_list == Set::<HQMIpAddr>::empty()
            &&& s.allow_join
            &&& !s.is_muted
            &&& s.config == config
            &&& s.values == values
            &&& s.replay_queue.len() == 0
            &&& s.requested_replays.len() == 0
            &&& s.game_id == 1
            &&& s.game_step == u32::MAX
            &&& s.start_time == 0
            &&& !s.has_current_game_been_active
            &&& s.packet == u32::MAX
            &&& s.replay_data.len() == 0
            &&& s.replay_msg_pos == 0
            &&& s.replay_last_packet == u32::MAX
            &&& s.saved_packets.len() == 0
            &&& s.saved_pings.len() == 0
            &&& s.saved_history.len() == 0
            &&& s.history_length == 0
            &&& s.saved_events.len() == 0
        }),
{
}

} // verus!
