//! Laws that hold of the server throughout: whatever clients send and however a tick
//! goes, nobody misses what lasts, and no two players come from the same address.

use crate::commands::chat_view;
use crate::game::{HQMGameValues, HQMServerConfiguration};
use crate::message::{chat_message, HQMMessageView};
use crate::net::HQMSocketAddr;
use crate::player::{everyone, is_free, lemma_picked_complete, player_at, HQMServerPlayerIndex};
use crate::protocol::{HQMClientAction, HQMClientToServerMessage};
use crate::server::HQMServerView;
use crate::session::{all_aged, lemma_first_slot, HQMLeaving};
use crate::tick::{HQMTickActionView, HQMTickEvent, HQMTickPhaseView};
use super::messages::{
    inbox, informed, law_delivery, law_delivery_informs, law_departures_inform,
    law_global_messages_inform, law_new_games_inform, law_newcomers_are_informed,
};
use super::players::{
    distinct_addresses, law_addresses_stay_distinct, law_departure, law_join, law_updates_inform,
};
use vstd::prelude::*;

verus! {

/// Whether nobody has missed what lasts, and no two players come from the same
/// address.
pub open spec fn sound(s: HQMServerView) -> bool {
    informed(s) && distinct_addresses(s.players)
}

/// A server on which nobody has been is sound.
pub proof fn law_initially_sound(
    config: HQMServerConfiguration,
    values: HQMGameValues,
)
    ensures
        sound(HQMServerView::initial(config, values)),
{
}

/// Soundness rests on who is in which slot, on what they have been told, and on what
/// waits for them.
proof fn lemma_as_sound(s: HQMServerView, t: HQMServerView)
    requires
        sound(s),
        t.players.len() == s.players.len(),
        t.messages.persistent_messages == s.messages.persistent_messages,
        forall|i: int|
            #![trigger t.players[i]]
            0 <= i < t.players.len() && t.players[i] is Some ==> s.players[i] is Some && inbox(t, i)
                == inbox(s, i) && t.players[i]->0.data.addr == s.players[i]->0.data.addr,
    ensures
        sound(t),
{
    assert forall|i: int, m: HQMMessageView|
        0 <= i < t.players.len() && t.players[i] is Some
            && t.messages.persistent_messages.contains(m) implies #[trigger] inbox(
        t,
        i,
    ).contains(m) by {
        assert(inbox(s, i).contains(m));
    }
    assert forall|i: int, j: int|
        0 <= i < j < t.players.len() && (#[trigger] t.players[i]) is Some && (
        #[trigger] t.players[j]) is Some implies t.players[i]->0.data.addr
        != t.players[j]->0.data.addr by {
        assert(s.players[i] is Some && s.players[j] is Some);
    }
}

/// The server is as sound after a player has gone.
proof fn lemma_departure_sound(
    s: HQMServerView,
    index: HQMServerPlayerIndex,
    name: Seq<char>,
    how: HQMLeaving,
)
    requires
        s.wf(),
        sound(s),
    ensures
        sound(s.after_departure(index, name, how)),
{
    let gone = s.without_player(index, true);
    law_departures_inform(s, index, true);
    if player_at(s.players, index) is Some {
        law_departure(s, index, true);
    }
    assert(gone.wf());
    law_global_messages_inform(gone, chat_message(None, name + how.announcement()), false, true);
}

/// The server is as sound when messages are handed out.
proof fn lemma_sending_sound(s: HQMServerView)
    requires
        s.wf(),
        sound(s),
    ensures
        sound(s.after_delivery()),
{
    law_delivery_informs(s);
    law_addresses_stay_distinct(s, s.values);
}

/// The server is as sound when a step begins.
proof fn lemma_step_sound<P>(s: HQMServerView, now: u64)
    requires
        s.wf(),
        sound(s),
    ensures
        sound(s.on_step::<P>(now).server),
{
    let shown = s.after_replay_tick(now);
    lemma_as_sound(s, shown);
    if s.shows_replay() {
        assert(shown.wf());
        lemma_sending_sound(shown);
    } else {
        lemma_as_sound(s, s.on_step::<P>(now).server);
    }
}

/// The server is as sound after the silent have grown older.
proof fn lemma_playing_sound<P>(s: HQMServerView, now: u64)
    requires
        s.wf(),
        s.can_age(),
        sound(s),
    ensures
        sound(s.on_playing::<P>(now).server),
{
    let aged = HQMServerView { players: all_aged(s.players), ..s };
    assert(aged.wf());
    lemma_as_sound(s, aged);
    lemma_step_sound::<P>(aged, now);
}

/// A sound server is sound after every step of a tick.
pub proof fn law_ticks_are_sound<P>(
    s: HQMServerView,
    phase: HQMTickPhaseView,
    event: HQMTickEvent<P>,
    now: u64,
    time: i64,
)
    requires
        s.wf(),
        s.can_tick(phase, event),
        sound(s),
    ensures
        sound(s.after_tick(phase, event, now, time).server),
{
    let after = s.after_tick(phase, event, now, time).server;
    match phase {
        HQMTickPhaseView::Idle => {
            if s.player_count() != 0 && s.has_current_game_been_active {
                lemma_playing_sound::<P>(s, now);
            } else {
                lemma_as_sound(s, after);
            }
        },
        HQMTickPhaseView::Abandoned => {
            let values = event->InitialValues_0.values;
            law_new_games_inform(s, values, 0);
            law_addresses_stay_distinct(s, values);
        },
        HQMTickPhaseView::Starting => {
            lemma_playing_sound::<P>(s, now);
        },
        HQMTickPhaseView::Exiting { inactive, next } => {
            let (index, name) = inactive[next as int];
            lemma_departure_sound(s, index, name, HQMLeaving::TimedOut);
        },
        HQMTickPhaseView::Clearing { inactive, next } => {
            lemma_step_sound::<P>(s, now);
        },
        HQMTickPhaseView::Watching => {
            let kept = s.with_history(event->Packets_0).after_packets(event->Packets_0, now);
            lemma_as_sound(s, kept);
            assert(kept.wf());
            lemma_sending_sound(kept);
        },
        HQMTickPhaseView::Deciding => {
            lemma_as_sound(s, s.after_recording());
            lemma_sending_sound(s);
        },
        HQMTickPhaseView::Recording => {
            let kept = HQMServerView {
                replay_data: s.replay_data + event->ReplayWritten_0@,
                ..s
            };
            lemma_as_sound(s, kept);
            assert(kept.wf());
            lemma_sending_sound(kept);
        },
        _ => {
            lemma_as_sound(s, after);
        },
    }
}

/// A sound server is sound after every message from a client.
pub proof fn law_clients_leave_the_server_sound(
    s: HQMServerView,
    addr: HQMSocketAddr,
    message: HQMClientToServerMessage,
    time: u64,
    after: HQMServerView,
    action: HQMClientAction,
)
    requires
        s.wf(),
        sound(s),
        s.handles(addr, message, time, after, action),
    ensures
        sound(after),
{
    match message {
        HQMClientToServerMessage::Join { version, player_name } => {
            if s.admits(addr, version) && s.free_slot() is Some {
                let index = s.free_slot()->0;
                let id = player_at(after.players, index)->0.id;
                lemma_first_slot(s.players, is_free(), 0);
                law_newcomers_are_informed(s, index, player_name@, addr, id);
                law_join(s, addr, version, player_name@, id);
            }
        },
        HQMClientToServerMessage::Update { update, chat } => {
            law_updates_inform(s, addr, update, chat_view(chat), time);
        },
        _ => {},
    }
}

/// At the end of a step every player has been told all that waited for that player,
/// and every client is sent what it is to know: as many packets as there are players,
/// one of them for each.
pub proof fn law_every_client_is_told<P>(
    s: HQMServerView,
    game_step: u32,
    force_view: Option<HQMServerPlayerIndex>,
    i: int,
)
    requires
        s.wf(),
        0 <= i < s.players.len(),
        s.players[i] is Some,
    ensures
        ({
            let step = s.on_sending::<P>(game_step, force_view);
            let p = step.server.players[i];
            &&& p is Some
            &&& p->0.data.messages == inbox(s, i)
            &&& step.action matches HQMTickActionView::Send(sent) && sent.len()
                == step.server.player_count() && sent.contains(
                (
                    p->0.data.addr,
                    step.server.update_fields(p->0.data, game_step, force_view),
                ),
            )
        }),
{
    let after = s.after_delivery();
    law_delivery(s, i);
    let k = lemma_picked_complete(after.players, everyone(), 0, i);
    let p = after.players[i]->0;
    assert(after.updates(game_step, force_view)[k] == (
        p.data.addr,
        after.update_fields(p.data, game_step, force_view),
    ));
}

} // verus!
