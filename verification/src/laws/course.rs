//! Laws on what each step of a tick does.

use crate::game::{HQMInitialGameValues, HQMObjectPacket, HQMSimulationEvent, ReplayEnabled};
use crate::matches::by_name;
use crate::player::{
    everyone, lemma_picked_complete, lemma_picked_ordered, lemma_picked_sound, picked,
    HQMServerPlayerIndex,
};
use crate::server::HQMServerView;
use crate::session::{all_aged, is_inactive, HQMLeaving};
use crate::tick::{touches_of, HQMTickActionView, HQMTickEvent, HQMTickPhaseView, HQMTickStep};
use super::sessions::{law_player_counts, taken};
use vstd::prelude::*;

verus! {

/// While nobody is on the server, a tick does nothing, unless there was a game: then it
/// asks what the next one starts from.
pub proof fn law_empty_servers<P>(s: HQMServerView, event: HQMTickEvent<P>, now: u64, time: i64)
    requires
        taken(s.players, 0) == 0,
    ensures
        ({
            let next = s.after_tick(HQMTickPhaseView::Idle, event, now, time);
            &&& next.server == s
            &&& s.has_current_game_been_active ==> next.phase is Abandoned
                && next.action is AskInitialValues
            &&& !s.has_current_game_been_active ==> next.phase is Idle && next.action is Rest
        }),
{
    law_player_counts(s);
}

/// The first tick with a player begins the game, at the time of day; the rules are told,
/// and nothing else changes.
pub proof fn law_games_begin<P>(s: HQMServerView, event: HQMTickEvent<P>, now: u64, time: i64)
    requires
        taken(s.players, 0) > 0,
        !s.has_current_game_been_active,
    ensures
        ({
            let next = s.after_tick(HQMTickPhaseView::Idle, event, now, time);
            &&& next.server.start_time == time
            &&& next.server.has_current_game_been_active
            &&& next.server == (HQMServerView {
                start_time: next.server.start_time,
                has_current_game_been_active: next.server.has_current_game_been_active,
                ..s
            })
            &&& next.phase is Starting
            &&& next.action is TellGameStarted
        }),
{
    law_player_counts(s);
}

/// Once the rules know that the game has begun, the tick goes on as every later tick
/// does.
pub proof fn law_first_ticks<P>(
    s: HQMServerView,
    timer: HQMTickEvent<P>,
    done: HQMTickEvent<P>,
    now: u64,
    time: i64,
)
    requires
        taken(s.players, 0) > 0,
        s.has_current_game_been_active,
    ensures
        s.after_tick(HQMTickPhaseView::Idle, timer, now, time) == s.after_tick(
            HQMTickPhaseView::Starting,
            done,
            now,
            time,
        ),
{
    law_player_counts(s);
}

/// When a game was abandoned, the new one starts from what the rules said, and the rink is
/// handed what it needs.
pub proof fn law_abandoned_games<P>(
    s: HQMServerView,
    values: HQMInitialGameValues<P>,
    now: u64,
    time: i64,
)
    ensures
        ({
            let next = s.after_tick(
                HQMTickPhaseView::Abandoned,
                HQMTickEvent::InitialValues(values),
                now,
                time,
            );
            &&& next.server == s.after_new_game(values.values)
            &&& next.phase is Restarted
            &&& next.action == HQMTickActionView::<P>::EnterNewGame(s.new_game(values))
        }),
{
}

/// Behind an abandoned game everyone may join; nothing else changes, and the tick is over.
pub proof fn law_reopening<P>(s: HQMServerView, event: HQMTickEvent<P>, now: u64, time: i64)
    ensures
        ({
            let next = s.after_tick(HQMTickPhaseView::Restarted, event, now, time);
            &&& next.server.allow_join
            &&& next.server == (HQMServerView { allow_join: next.server.allow_join, ..s })
            &&& next.phase is Idle
            &&& next.action is Rest
        }),
{
}

/// Whether the player in a slot has been silent for so long that one more tick is too
/// long.
pub open spec fn is_silent(s: HQMServerView, i: int) -> bool {
    0 <= i < s.players.len() && s.players[i] is Some && s.players[i]->0.data.inactivity >= 500
}

/// While a game is on, a tick makes everyone's silence one tick longer, and sees off the
/// first player whose silence is then longer than five hundred ticks; if there is none, it
/// goes on to a step.
pub proof fn law_silent_players_are_seen_off<P>(
    s: HQMServerView,
    event: HQMTickEvent<P>,
    now: u64,
    time: i64,
)
    requires
        s.wf(),
        s.can_age(),
    ensures
        ({
            let next = s.after_tick(HQMTickPhaseView::Starting, event, now, time);
            let aged = HQMServerView { players: all_aged(s.players), ..s };
            &&& (forall|i: int| !(#[trigger] is_silent(s, i))) ==> next == aged.on_step::<P>(now)
            &&& (exists|i: int| #[trigger] is_silent(s, i)) ==> {
                &&& next.server == aged
                &&& next.phase is Exiting
                &&& next.action is TellExit
                &&& next.phase->Exiting_next == 0
                &&& next.action->TellExit_0 == next.phase->Exiting_inactive[0].0
                &&& forall|i: int|
                    #![trigger is_silent(s, i)]
                    is_silent(s, i) ==> next.phase->Exiting_inactive.contains(
                        (HQMServerPlayerIndex(i as usize), s.players[i]->0.player_name),
                    )
                &&& forall|k: int|
                    0 <= k < next.phase->Exiting_inactive.len() ==> {
                        let (slot, name) = #[trigger] next.phase->Exiting_inactive[k];
                        &&& is_silent(s, slot.0 as int)
                        &&& name == s.players[slot.0 as int]->0.player_name
                    }
                &&& forall|j: int, k: int|
                    0 <= j < k < next.phase->Exiting_inactive.len() ==> (
                    #[trigger] next.phase->Exiting_inactive[j]).0.0 < (
                    #[trigger] next.phase->Exiting_inactive[k]).0.0
            }
        }),
{
    let next = s.after_tick(HQMTickPhaseView::Starting, event, now, time);
    let players = all_aged(s.players);
    let found = picked(players, is_inactive(), 0);
    let list = by_name(found);
    if exists|i: int| #[trigger] is_silent(s, i) {
        let i = choose|i: int| #[trigger] is_silent(s, i);
        assert(players[i] is Some);
        let k = lemma_picked_complete(players, is_inactive(), 0, i);
        assert(list.len() > 0);
        assert(next.phase->Exiting_inactive == list);
    }
    assert forall|i: int| #![trigger is_silent(s, i)] is_silent(s, i) implies list.contains(
        (HQMServerPlayerIndex(i as usize), s.players[i]->0.player_name),
    ) by {
        assert(players[i] is Some);
        let k = lemma_picked_complete(players, is_inactive(), 0, i);
        assert(list[k] == (HQMServerPlayerIndex(i as usize), s.players[i]->0.player_name));
    }
    assert forall|k: int| 0 <= k < list.len() implies {
        let (slot, name) = #[trigger] list[k];
        &&& is_silent(s, slot.0 as int)
        &&& name == s.players[slot.0 as int]->0.player_name
    } by {
        lemma_picked_sound(players, is_inactive(), 0, k);
        assert(s.players[list[k].0.0 as int] is Some);
    }
    assert forall|j: int, k: int| 0 <= j < k < list.len() implies (#[trigger] list[j]).0.0 < (
    #[trigger] list[k]).0.0 by {
        lemma_picked_ordered(players, is_inactive(), 0, j, k);
    }
    if forall|i: int| !(#[trigger] is_silent(s, i)) {
        if list.len() > 0 {
            assert(is_silent(s, list[0].0.0 as int));
        }
    }
}

/// A player who is seen off has timed out, and the rink is rid of the player's object.
pub proof fn law_seeing_off<P>(
    s: HQMServerView,
    inactive: Seq<(HQMServerPlayerIndex, Seq<char>)>,
    next_place: usize,
    event: HQMTickEvent<P>,
    now: u64,
    time: i64,
)
    requires
        next_place < inactive.len(),
    ensures
        ({
            let (slot, name) = inactive[next_place as int];
            let next = s.after_tick(
                HQMTickPhaseView::Exiting { inactive, next: next_place },
                event,
                now,
                time,
            );
            &&& next.server == s.after_departure(slot, name, HQMLeaving::TimedOut)
            &&& next.phase == (HQMTickPhaseView::Clearing { inactive, next: next_place })
            &&& next.action == HQMTickActionView::<P>::TakeOffRink(s.object_of(slot))
        }),
{
}

/// Behind one player the next of the list is seen off, and behind the last the tick goes
/// on to a step.
pub proof fn law_seeing_off_goes_on<P>(
    s: HQMServerView,
    inactive: Seq<(HQMServerPlayerIndex, Seq<char>)>,
    place: usize,
    event: HQMTickEvent<P>,
    now: u64,
    time: i64,
)
    requires
        place < usize::MAX,
    ensures
        ({
            let next = s.after_tick(
                HQMTickPhaseView::Clearing { inactive, next: place },
                event,
                now,
                time,
            );
            &&& place + 1 < inactive.len() ==> {
                &&& next.server == s
                &&& next.phase is Exiting
                &&& next.phase->Exiting_inactive == inactive
                &&& next.phase->Exiting_next == place + 1
                &&& next.action == HQMTickActionView::<P>::TellExit(inactive[place + 1].0)
            }
            &&& place + 1 >= inactive.len() ==> next == s.on_step::<P>(now)
        }),
{
}

/// A step that is shown again is sent under its own number and with the view that is
/// forced on everyone; the number of the current step stays.
pub proof fn law_shown_steps<P>(s: HQMServerView, now: u64)
    requires
        s.replay_queue.len() > 0,
        s.replay_queue[0].data.len() > 0,
    ensures
        s.on_step::<P>(now) == s.after_replay_tick(now).on_sending::<P>(
            s.replay_queue[0].data[0].game_step,
            s.replay_queue[0].force_view,
        ),
        s.after_replay_tick(now).game_step == s.game_step,
{
}

/// A new step has the next number, and the rules prepare it.
pub proof fn law_new_steps<P>(s: HQMServerView, now: u64)
    requires
        s.replay_queue.len() == 0 || s.replay_queue[0].data.len() == 0,
    ensures
        ({
            let next = s.on_step::<P>(now);
            &&& s.game_step < u32::MAX ==> next.server.game_step == s.game_step + 1
            &&& s.game_step == u32::MAX ==> next.server.game_step == 0
            &&& next.server == (HQMServerView {
                game_step: next.server.game_step,
                ..s.after_replay_tick(now)
            })
            &&& next.phase is Stepping
            &&& next.action is TellBeforeTick
        }),
{
}

/// The touches of a step are those among its events, the latest first.
pub proof fn law_touches(events: Seq<HQMSimulationEvent>, event: HQMSimulationEvent)
    ensures
        touches_of(seq![]).len() == 0,
        event is PuckTouch ==> touches_of(events.push(event)) == seq![
            (event->player, event->puck),
        ] + touches_of(events),
        event is Other ==> touches_of(events.push(event)) == touches_of(events),
{
    assert(events.push(event).drop_last() =~= events);
}

/// When the rink has moved, the touches of the step come first, under its number; the
/// steps before are kept if nothing was touched, two of them at most. The pucks are
/// limited that were touched in the last of three.
pub proof fn law_moved_rinks<P>(
    s: HQMServerView,
    events: Vec<HQMSimulationEvent>,
    now: u64,
    time: i64,
)
    requires
        s.wf(),
    ensures
        ({
            let next = s.after_tick(
                HQMTickPhaseView::Simulating,
                HQMTickEvent::<P>::Simulated(events),
                now,
                time,
            );
            let t = next.server;
            let touches = touches_of(events@);
            &&& t == (HQMServerView { saved_events: t.saved_events, ..s })
            &&& t.saved_events[0] == (s.game_step, touches)
            &&& touches.len() > 0 ==> t.saved_events.len() == 1
            &&& touches.len() == 0 ==> {
                &&& s.saved_events.len() <= 2 ==> t.saved_events.len() == s.saved_events.len() + 1
                &&& s.saved_events.len() == 3 ==> t.saved_events.len() == 3
                &&& forall|i: int|
                    0 < i < t.saved_events.len() ==> #[trigger] t.saved_events[i]
                        == s.saved_events[i - 1]
            }
            &&& next.phase is Watching
            &&& next.action is LimitPucks
            &&& t.saved_events.len() == 3 ==> next.action->LimitPucks_0 == t.saved_events[2].1
            &&& t.saved_events.len() < 3 ==> next.action->LimitPucks_0.len() == 0
        }),
{
}

/// When the rules have seen a step, it is kept to be shown again, and made known to
/// clients. If replays are off, it is sent; else the rules are asked whether it is
/// recorded.
pub proof fn law_seen_steps<P>(
    s: HQMServerView,
    packets: [HQMObjectPacket; 32],
    now: u64,
    time: i64,
)
    ensures
        ({
            let next = s.after_tick(
                HQMTickPhaseView::Watching,
                HQMTickEvent::<P>::Packets(packets),
                now,
                time,
            );
            let kept = s.with_history(packets).after_packets(packets, now);
            &&& s.config.replays_enabled == ReplayEnabled::Off ==> next == kept.on_sending::<P>(
                s.game_step,
                None,
            )
            &&& s.config.replays_enabled != ReplayEnabled::Off ==> next == (HQMTickStep {
                server: kept,
                phase: HQMTickPhaseView::Deciding,
                action: HQMTickActionView::<P>::AskReplay,
            })
        }),
{
}

/// A step that is to be recorded is written for the replay; one that is not is sent.
pub proof fn law_decisions<P>(s: HQMServerView, now: u64, time: i64)
    ensures
        s.after_tick(
            HQMTickPhaseView::Deciding,
            HQMTickEvent::<P>::ReplayDecision(true),
            now,
            time,
        ) == (HQMTickStep {
            server: s.after_recording(),
            phase: HQMTickPhaseView::Recording,
            action: HQMTickActionView::<P>::WriteReplay(s.replay_fields()),
        }),
        s.after_tick(
            HQMTickPhaseView::Deciding,
            HQMTickEvent::<P>::ReplayDecision(false),
            now,
            time,
        ) == s.on_sending::<P>(s.game_step, None),
{
}

/// A step that was written is added to the recording, and sent.
pub proof fn law_written_steps<P>(s: HQMServerView, bytes: Vec<u8>, now: u64, time: i64)
    ensures
        ({
            let next = s.after_tick(
                HQMTickPhaseView::Recording,
                HQMTickEvent::<P>::ReplayWritten(bytes),
                now,
                time,
            );
            let longer = s.replay_data + bytes@;
            &&& next == HQMServerView { replay_data: longer, ..s }.on_sending::<P>(
                s.game_step,
                None,
            )
            &&& next.server.replay_data.len() == s.replay_data.len() + bytes@.len()
            &&& next.server.replay_data.take(s.replay_data.len() as int) == s.replay_data
            &&& next.server.replay_data.skip(s.replay_data.len() as int) == bytes@
        }),
{
    let longer = s.replay_data + bytes@;
    assert(longer.take(s.replay_data.len() as int) =~= s.replay_data);
    assert(longer.skip(s.replay_data.len() as int) =~= bytes@);
}

/// Sending hands the messages out first, and then tells every client.
pub proof fn law_sending<P>(
    s: HQMServerView,
    game_step: u32,
    force_view: Option<HQMServerPlayerIndex>,
)
    ensures
        s.on_sending::<P>(game_step, force_view) == (HQMTickStep {
            server: s.after_delivery(),
            phase: HQMTickPhaseView::Sending,
            action: HQMTickActionView::<P>::Send(s.after_delivery().updates(game_step, force_view)),
        }),
{
}

/// Once the clients know of a step, what was requested is queued, and the tick is over.
pub proof fn law_sent_steps<P>(s: HQMServerView, event: HQMTickEvent<P>, now: u64, time: i64)
    ensures
        s.after_tick(HQMTickPhaseView::Sending, event, now, time) == (HQMTickStep {
            server: s.after_requests(),
            phase: HQMTickPhaseView::Idle,
            action: HQMTickActionView::<P>::Rest,
        }),
{
}

/// Every client gets a packet of its own, in the order of the slots.
pub proof fn law_packets_by_slot(
    s: HQMServerView,
    game_step: u32,
    force_view: Option<HQMServerPlayerIndex>,
    k: int,
)
    requires
        s.wf(),
        0 <= k < s.updates(game_step, force_view).len(),
    ensures
        exists|i: int|
            0 <= i < s.players.len() && (#[trigger] s.players[i]) is Some && s.updates(
                game_step,
                force_view,
            )[k] == (
                s.players[i]->0.data.addr,
                s.update_fields(s.players[i]->0.data, game_step, force_view),
            ),
        s.updates(game_step, force_view).len() == taken(s.players, 0),
{
    let all = picked(s.players, everyone(), 0);
    lemma_picked_sound(s.players, everyone(), 0, k);
    let i = all[k].0.0 as int;
    assert(s.players[i] is Some);
    law_player_counts(s);
}

} // verus!
