//! Laws on new games, on the recording of a game, and on play that is shown again.

use crate::commands::chat_view;
use crate::game::{HQMGameValues, HQMInitialGameValues, ReplayEnabled};
use crate::message::{HQMServerMessagesView, HQMWaitingMessageReceiver};
use crate::net::HQMSocketAddr;
use crate::player::{
    everyone, lemma_picked_complete, lemma_picked_ordered, lemma_picked_sound, lives_at,
    picked, HQMNetworkPlayerDataView, HQMServerPlayerIndex, HQMServerPlayerView,
};
use crate::protocol::{HQMClientAction, HQMClientToServerMessage};
use crate::replay::{all_restarted, introduced, packed_replay, time_text, ReplayRequest};
use crate::server::{HQMServerView, ReplayElementView};
use crate::session::lemma_first_slot;
use crate::tick::{HQMTickEvent, HQMTickPhaseView};
use super::messages::{introductions, lemma_introduced};
use super::reports::law_reports_are_all;
use super::sessions::entry;
use vstd::bytes::spec_u32_to_le_bytes;
use vstd::prelude::*;

verus! {

/// The score board of a new game is the one that it starts from, entry by entry, whatever
/// the board showed before.
pub proof fn law_new_score_boards(s: HQMServerView, values: HQMGameValues)
    ensures
        ({
            let board = s.after_new_game(values).values;
            &&& board.red_score == values.red_score
            &&& board.blue_score == values.blue_score
            &&& board.period == values.period
            &&& board.time == values.time
            &&& board.goal_message_timer == values.goal_message_timer
            &&& board.game_over == values.game_over
            &&& board.rules_state == values.rules_state
        }),
{
}

/// Two games that start from the same values show the same board, whatever was before.
pub proof fn law_new_games_forget_the_score(
    s: HQMServerView,
    t: HQMServerView,
    values: HQMGameValues,
)
    ensures
        s.after_new_game(values).values == t.after_new_game(values).values,
{
}

/// A new game has the next number. Nothing has been recorded, shown, sent or kept of it,
/// and it has not begun. The settings, the bans, who may join and speak, and what was
/// asked to be shown stay as they are.
pub proof fn law_new_games_start_over(s: HQMServerView, values: HQMGameValues)
    requires
        s.game_id < u32::MAX,
    ensures
        ({
            let t = s.after_new_game(values);
            &&& t.game_id == s.game_id + 1
            &&& t.replay_data.len() == 0
            &&& t.replay_msg_pos == 0
            &&& t.replay_last_packet == u32::MAX
            &&& t.packet == u32::MAX
            &&& t.game_step == u32::MAX
            &&& t.saved_packets.len() == 0
            &&& t.saved_pings.len() == 0
            &&& t.saved_history.len() == 0
            &&& t.replay_queue.len() == 0
            &&& !t.has_current_game_been_active
            &&& t.config == s.config
            &&& t.ban_list == s.ban_list
            &&& t.allow_join == s.allow_join
            &&& t.is_muted == s.is_muted
            &&& t.start_time == s.start_time
            &&& t.requested_replays == s.requested_replays
            &&& t.history_length == s.history_length
            &&& t.saved_events == s.saved_events
            &&& t.players.len() == s.players.len()
        }),
{
}

/// When a new game begins, a player becomes a spectator who sees the rink through the own
/// eyes, and who has been told and has acknowledged nothing; all else of the player stays.
pub proof fn law_players_of_a_new_game(s: HQMServerView, values: HQMGameValues, i: int)
    requires
        s.wf(),
        0 <= i < s.players.len(),
    ensures
        ({
            let t = s.after_new_game(values);
            let p = s.players[i]->0;
            let q = t.players[i]->0;
            &&& t.players[i] is Some <==> s.players[i] is Some
            &&& s.players[i] is Some ==> {
                &&& q.object is None
                &&& q.data.known_msgpos == 0
                &&& q.data.known_packet == u32::MAX
                &&& q.data.messages.len() == 0
                &&& q.data.view_player_index.0 == i
                &&& q == (HQMServerPlayerView {
                    object: None,
                    data: HQMNetworkPlayerDataView {
                        known_msgpos: q.data.known_msgpos,
                        known_packet: q.data.known_packet,
                        messages: q.data.messages,
                        view_player_index: q.data.view_player_index,
                        ..p.data
                    },
                    ..p
                })
            }
        }),
{
}

/// When a new game begins, everyone, those who join later, and the replay are told of
/// each player once, in the order of their slots: by slot and name, and as a spectator.
pub proof fn law_introductions(s: HQMServerView, values: HQMGameValues)
    requires
        s.wf(),
    ensures
        ({
            let t = s.after_new_game(values);
            let told = t.messages.persistent_messages;
            &&& t.messages.replay_messages == told
            &&& t.messages.waiting_messages.len() == told.len()
            &&& forall|k: int|
                0 <= k < told.len() ==> #[trigger] t.messages.waiting_messages[k] == (
                    HQMWaitingMessageReceiver::All,
                    told[k],
                )
            &&& forall|i: int|
                0 <= i < s.players.len() && (#[trigger] s.players[i]) is Some ==> told.contains(
                    entry(s.players[i]->0.player_name, None, HQMServerPlayerIndex(i as usize)),
                )
            &&& forall|k: int|
                0 <= k < told.len() ==> (#[trigger] told[k]) is PlayerUpdate && {
                    let slot = told[k]->PlayerUpdate_player_index;
                    &&& slot.0 < s.players.len()
                    &&& s.players[slot.0 as int] is Some
                    &&& told[k] == entry(s.players[slot.0 as int]->0.player_name, None, slot)
                }
            &&& forall|j: int, k: int|
                0 <= j < k < told.len() ==> (#[trigger] told[j])->PlayerUpdate_player_index.0 < (
                #[trigger] told[k])->PlayerUpdate_player_index.0
        }),
{
    let t = s.after_new_game(values);
    let restarted = all_restarted(s.players);
    let players = picked(restarted, everyone(), 0);
    lemma_introduced(players, 0);
    lemma_waiting(players);
    let told = t.messages.persistent_messages;
    assert forall|k: int| 0 <= k < told.len() implies (#[trigger] told[k]) is PlayerUpdate && {
        let slot = told[k]->PlayerUpdate_player_index;
        &&& slot.0 < s.players.len()
        &&& s.players[slot.0 as int] is Some
        &&& told[k] == entry(s.players[slot.0 as int]->0.player_name, None, slot)
    } by {
        lemma_picked_sound(restarted, everyone(), 0, k);
        assert(told[k] == players[k].1.update_message(players[k].0));
    }
    assert forall|j: int, k: int| 0 <= j < k < told.len() implies (
    #[trigger] told[j])->PlayerUpdate_player_index.0 < (
    #[trigger] told[k])->PlayerUpdate_player_index.0 by {
        lemma_picked_ordered(restarted, everyone(), 0, j, k);
        assert(told[j] == players[j].1.update_message(players[j].0));
        assert(told[k] == players[k].1.update_message(players[k].0));
    }
    assert forall|i: int|
        0 <= i < s.players.len() && (#[trigger] s.players[i]) is Some implies told.contains(
        entry(s.players[i]->0.player_name, None, HQMServerPlayerIndex(i as usize)),
    ) by {
        assert(restarted[i] is Some);
        let k = lemma_picked_complete(restarted, everyone(), 0, i);
        assert(told[k] == entry(
            s.players[i]->0.player_name,
            None,
            HQMServerPlayerIndex(i as usize),
        ));
    }
}

proof fn lemma_waiting(players: Seq<(HQMServerPlayerIndex, HQMServerPlayerView)>)
    ensures
        ({
            let m = introduced(HQMServerMessagesView::none(), players);
            &&& m.waiting_messages.len() == introductions(players).len()
            &&& forall|k: int|
                0 <= k < players.len() ==> #[trigger] m.waiting_messages[k] == (
                    HQMWaitingMessageReceiver::All,
                    introductions(players)[k],
                )
        }),
    decreases players.len(),
{
    if players.len() > 0 {
        lemma_waiting(players.drop_last());
        let m = introduced(HQMServerMessagesView::none(), players);
        assert forall|k: int| 0 <= k < players.len() implies #[trigger] m.waiting_messages[k] == (
            HQMWaitingMessageReceiver::All,
            introductions(players)[k],
        ) by {
            if k < players.len() - 1 {
                assert(introductions(players)[k] == introductions(players.drop_last())[k]);
            }
        }
    }
}

/// A new game asks of the rink what it starts from, and hands over the recording of the
/// game before exactly if replays are on and something was recorded: all of it, behind a
/// zero and its length, under the name of the server and the time at which that game
/// began.
pub proof fn law_stored_games<P>(s: HQMServerView, v: HQMInitialGameValues<P>)
    ensures
        ({
            let game = s.new_game(v);
            let name = s.config.server_name@;
            let time = time_text(s.start_time, "%Y-%m-%dT%H%M%S"@);
            &&& game.puck_slots == v.puck_slots
            &&& game.physics_configuration == v.physics_configuration
            &&& game.replay is Some <==> s.config.replays_enabled == ReplayEnabled::On
                && s.replay_data.len() > 0
            &&& game.replay is Some ==> {
                &&& game.replay->0.server_name == name
                &&& game.replay->0.time == time
                &&& game.replay->0.file_name == name + "."@ + time + ".hrp"@
                &&& game.replay->0.data == spec_u32_to_le_bytes(0) + spec_u32_to_le_bytes(
                    s.replay_data.len() as u32,
                ) + s.replay_data
            }
        }),
{
}

/// A step of a tick, or a message from a client, with what it leaves behind.
pub enum Moment<P> {
    Tick { phase: HQMTickPhaseView, event: HQMTickEvent<P>, now: u64, time: i64 },
    Client {
        addr: HQMSocketAddr,
        message: HQMClientToServerMessage,
        received: u64,
        after: HQMServerView,
        action: HQMClientAction,
    },
}

impl<P> Moment<P> {
    /// Whether it can come while a server is in some state and its game goes on.
    #[verifier::opaque]
    pub open spec fn follows(self, s: HQMServerView) -> bool {
        match self {
            Moment::Tick { phase, event, now, time } => s.can_tick(phase, event) && !(
            phase is Abandoned),
            Moment::Client { addr, message, received, after, action } => s.handles(
                addr,
                message,
                received,
                after,
                action,
            ),
        }
    }

    /// The server afterwards.
    #[verifier::opaque]
    pub open spec fn after(self, s: HQMServerView) -> HQMServerView {
        match self {
            Moment::Tick { phase, event, now, time } => s.after_tick(
                phase,
                event,
                now,
                time,
            ).server,
            Moment::Client { addr, message, received, after, action } => after,
        }
    }

    /// What was written for the replay: the bytes of a recorded step.
    pub open spec fn written(self) -> Seq<u8> {
        match self {
            Moment::Tick { phase: HQMTickPhaseView::Recording, event, now, time } => match event {
                HQMTickEvent::ReplayWritten(bytes) => bytes@,
                _ => seq![],
            },
            _ => seq![],
        }
    }
}

/// The server after a course of events.
pub open spec fn course<P>(s: HQMServerView, events: Seq<Moment<P>>) -> HQMServerView
    decreases events.len(),
{
    if events.len() == 0 {
        s
    } else {
        events.last().after(course(s, events.drop_last()))
    }
}

/// Whether each of a course of events can follow those before it within one game.
pub open spec fn is_course<P>(s: HQMServerView, events: Seq<Moment<P>>) -> bool
    decreases events.len(),
{
    events.len() == 0 || (is_course(s, events.drop_last()) && course(s, events.drop_last()).wf()
        && events.last().follows(course(s, events.drop_last())))
}

/// The bytes of all steps that were recorded in a course of events, in order.
pub open spec fn all_written<P>(events: Seq<Moment<P>>) -> Seq<u8>
    decreases events.len(),
{
    if events.len() == 0 {
        seq![]
    } else {
        all_written(events.drop_last()) + events.last().written()
    }
}

/// A recorded step is added behind the recording; every other step of a tick, and every
/// message from a client, leaves the recording as it is, as long as the game goes on.
pub proof fn law_recordings_grow<P>(s: HQMServerView, event: Moment<P>)
    requires
        s.wf(),
        event.follows(s),
    ensures
        event.after(s).replay_data == s.replay_data + event.written(),
        event.after(s).config == s.config,
{
    reveal(Moment::follows);
    reveal(Moment::after);
    match event {
        Moment::Tick { phase, event: e, now, time } => {
            if !(phase is Recording) {
                assert(s.replay_data + event.written() =~= s.replay_data);
            }
        },
        Moment::Client { addr, message, received, after, action } => {
            assert(s.replay_data + event.written() =~= s.replay_data);
            if let HQMClientToServerMessage::Update { update, chat } = message {
                if let Some(index) = s.slot_of(addr) {
                    lemma_first_slot(
                        s.players,
                        lives_at(addr),
                        0,
                    );
                    law_reports_are_all(
                        s,
                        addr,
                        update,
                        chat_view(chat),
                        received,
                        index.0 as int,
                    );
                }
            }
        },
    }
}

/// Over any course of ticks and messages of one game, the recording is what it was before
/// with the bytes of all recorded steps behind it, in order.
pub proof fn law_recordings_are_complete<P>(s: HQMServerView, events: Seq<Moment<P>>)
    requires
        is_course(s, events),
    ensures
        course(s, events).replay_data == s.replay_data + all_written(events),
    decreases events.len(),
{
    if events.len() > 0 {
        law_recordings_are_complete(s, events.drop_last());
        law_recordings_grow(course(s, events.drop_last()), events.last());
        assert(course(s, events).replay_data =~= s.replay_data + all_written(events));
    } else {
        assert(s.replay_data + all_written(events) =~= s.replay_data);
    }
}

/// What is stored of a game, from its beginning to its end, is every step that was
/// recorded.
pub proof fn law_stored_games_are_complete<P>(
    s: HQMServerView,
    values: HQMGameValues,
    events: Seq<Moment<P>>,
    v: HQMInitialGameValues<P>,
)
    requires
        is_course(s.after_new_game(values), events),
        course(s.after_new_game(values), events).new_game(v).replay is Some,
    ensures
        (course(s.after_new_game(values), events).new_game(v).replay->0).data.skip(8)
            == all_written(events),
{
    law_recordings_are_complete(s.after_new_game(values), events);
    let end = course(s.after_new_game(values), events);
    assert(end.replay_data =~= all_written(events));
    vstd::bytes::lemma_auto_spec_u32_to_from_le_bytes();
    assert(packed_replay(end.replay_data).skip(8) =~= end.replay_data);
}

/// A request to show play again is kept behind the others exactly if it does not end
/// before it starts.
pub proof fn law_requests(s: HQMServerView, request: ReplayRequest)
    ensures
        request.0 <= request.1 ==> s.after_request(request) == (HQMServerView {
            requested_replays: s.requested_replays.push(request),
            ..s
        }),
        request.0 > request.1 ==> s.after_request(request) == s,
{
}

/// What a request brings are the steps of the history from the one at its start to the
/// one at its end: the oldest first, each as it was kept.
pub proof fn law_requested_steps(s: HQMServerView, request: ReplayRequest)
    requires
        s.wf(),
    ensures
        ({
            let first = if request.0 < s.game_step {
                s.game_step - request.0
            } else {
                0
            };
            let last = if request.1 < s.game_step {
                s.game_step - request.1
            } else {
                0
            };
            let ticks = s.requested_ticks(request);
            &&& ticks is Some <==> last < first
            &&& ticks is Some ==> {
                &&& ticks->0.len() == first - last + 1
                &&& ticks->0[0] == s.saved_history[first]
                &&& ticks->0.last() == s.saved_history[last]
                &&& forall|k: int|
                    0 <= k < ticks->0.len() ==> #[trigger] ticks->0[k] == s.saved_history[first
                        - k]
            }
            &&& s.can_show(request) <==> (ticks is Some ==> first < s.saved_history.len())
        }),
{
}

/// One request that brings something is put behind the queue with the view that it asks
/// for; one that brings nothing is not.
pub proof fn law_one_request(s: HQMServerView, request: ReplayRequest)
    ensures
        s.requested_ticks(request) is Some ==> s.queued(seq![request]) == seq![
            ReplayElementView {
                data: s.requested_ticks(request)->0,
                force_view: request.2,
            },
        ],
        s.requested_ticks(request) is None ==> s.queued(seq![request]).len() == 0,
        s.queued(seq![]).len() == 0,
{
    assert(seq![request].drop_first() =~= seq![]);
    assert(s.queued(seq![]) =~= seq![]);
    if s.requested_ticks(request) is Some {
        let shown = ReplayElementView {
            data: s.requested_ticks(request)->0,
            force_view: request.2,
        };
        assert(s.queued(seq![request]) =~= seq![shown]);
    }
}

/// Several requests bring what each of them brings, in their order.
pub proof fn law_several_requests(
    s: HQMServerView,
    first: Seq<ReplayRequest>,
    second: Seq<ReplayRequest>,
)
    ensures
        s.queued(first + second) == s.queued(first) + s.queued(second),
    decreases first.len(),
{
    if first.len() == 0 {
        assert(first + second =~= second);
        assert(s.queued(first) + s.queued(second) =~= s.queued(second));
    } else {
        law_several_requests(s, first.drop_first(), second);
        assert((first + second).drop_first() =~= first.drop_first() + second);
        assert(s.queued(first + second) =~= s.queued(first) + s.queued(second));
    }
}

/// At the end of a tick what was requested stands behind the queue, and is requested no
/// longer; nothing else changes.
pub proof fn law_requests_are_queued(s: HQMServerView)
    ensures
        ({
            let t = s.after_requests();
            &&& t.replay_queue == s.replay_queue + s.queued(s.requested_replays)
            &&& t.requested_replays.len() == 0
            &&& t == (HQMServerView {
                replay_queue: t.replay_queue,
                requested_replays: t.requested_replays,
                ..s
            })
        }),
{
}

/// A tick that is shown again is made known to clients as if it had just been, and is
/// taken off the stretch at the head of the queue; a stretch that is over is dropped.
pub proof fn law_shown_ticks(s: HQMServerView, now: u64)
    ensures
        ({
            let t = s.after_replay_tick(now);
            &&& s.shows_replay() <==> s.replay_queue.len() > 0 && s.replay_queue[0].data.len() > 0
            &&& s.shows_replay() ==> {
                let shown = s.replay_queue[0];
                let queued = HQMServerView { replay_queue: t.replay_queue, ..s };
                &&& t == queued.after_packets(shown.data[0].packets, now)
                &&& t.replay_queue.len() == s.replay_queue.len()
                &&& t.replay_queue[0].data == shown.data.skip(1)
                &&& t.replay_queue[0].force_view == shown.force_view
                &&& forall|i: int|
                    0 < i < s.replay_queue.len() ==> #[trigger] t.replay_queue[i]
                        == s.replay_queue[i]
            }
            &&& s.replay_queue.len() == 0 ==> t == s
            &&& s.replay_queue.len() > 0 && !s.shows_replay() ==> t == (HQMServerView {
                replay_queue: s.replay_queue.skip(1),
                ..s
            })
        }),
{
    if s.replay_queue.len() > 0 {
        assert(s.replay_queue.skip(1) =~= s.replay_queue.drop_first());
        assert(s.replay_queue[0].data.len() > 0 ==> s.replay_queue[0].data.skip(1)
            =~= s.replay_queue[0].data.drop_first());
    }
}

} // verus!
