//! Laws on what clients report of themselves.

use crate::commands::{HQMClientUpdate, HQMCommandActionView};
use crate::game::HQMObjectPacket;
use crate::net::HQMSocketAddr;
use crate::player::{
    lemma_picked_complete, lemma_picked_sound, lives_at, picked,
    HQMNetworkPlayerDataView, HQMServerPlayerView,
};
use crate::server::HQMServerView;
use crate::session::lemma_first_slot;
use crate::tick::{on_rink, HQMTickEvent, HQMTickPhaseView};
use super::orders::law_chat_is_harmless;
use vstd::prelude::*;

verus! {

/// A client that is nowhere to be found changes nothing.
pub proof fn law_strangers_report_in_vain(
    s: HQMServerView,
    addr: HQMSocketAddr,
    update: HQMClientUpdate,
    chat: Option<(u8, Seq<char>)>,
    time: u64,
)
    requires
        s.slot_of(addr) is None,
    ensures
        s.after_update(addr, update, chat, time) == (s, HQMCommandActionView::Nothing),
{
}

/// The player after a client's report, chat and all.
pub open spec fn reported(
    s: HQMServerView,
    addr: HQMSocketAddr,
    update: HQMClientUpdate,
    chat: Option<(u8, Seq<char>)>,
    time: u64,
) -> HQMServerPlayerView {
    s.after_update(addr, update, chat, time).0.players[(s.slot_of(addr)->0).0 as int]->0
}

/// The server after a client's report and before its chat, with the chat's number.
proof fn lemma_before_chat(
    s: HQMServerView,
    addr: HQMSocketAddr,
    update: HQMClientUpdate,
    chat: Option<(u8, Seq<char>)>,
    time: u64,
) -> (h: HQMServerView)
    requires
        s.wf(),
        s.slot_of(addr) is Some,
    ensures
        ({
            let index = s.slot_of(addr)->0;
            let p = s.players[index.0 as int]->0;
            let ping = s.ping_sample(p, update.current_game_id, update.new_known_packet, time);
            let q = update.applied(p, ping);
            let new_chat = chat is Some && p.data.chat_rep != Some((chat->0).0);
            &&& index.0 < s.players.len()
            &&& s.players[index.0 as int] is Some
            &&& h.wf()
            &&& new_chat ==> h == s.with_player(index, Some(q.heard((chat->0).0)))
                && s.after_update(addr, update, chat, time) == h.after_chat((chat->0).1, index)
            &&& !new_chat ==> h == s.with_player(index, Some(q)) && s.after_update(
                addr,
                update,
                chat,
                time,
            ) == (h, HQMCommandActionView::Nothing)
        }),
{
    lemma_first_slot(s.players, lives_at(addr), 0);
    let index = s.slot_of(addr)->0;
    let p = s.players[index.0 as int]->0;
    let after = s.after_controls(index, p, update, time);
    let q = after.players[index.0 as int]->0;
    let new_chat = chat is Some && p.data.chat_rep != Some((chat->0).0);
    if new_chat {
        let h = after.with_player(index, Some(q.heard((chat->0).0)));
        assert(h.players =~= s.players.update(index.0 as int, Some(q.heard((chat->0).0))));
        assert(h =~= s.with_player(index, Some(q.heard((chat->0).0))));
        h
    } else {
        after
    }
}

/// After a client's report the player's input is, control by control, what the client
/// sent, whatever the chat.
pub proof fn law_controls(
    s: HQMServerView,
    addr: HQMSocketAddr,
    update: HQMClientUpdate,
    chat: Option<(u8, Seq<char>)>,
    time: u64,
)
    requires
        s.wf(),
        s.slot_of(addr) is Some,
    ensures
        ({
            let q = reported(s, addr, update, chat, time);
            &&& q.input.turn == update.input.turn
            &&& q.input.fwbw == update.input.fwbw
            &&& q.input.stick.0 == update.input.stick.0
            &&& q.input.stick.1 == update.input.stick.1
            &&& q.input.stick_angle == update.input.stick_angle
            &&& q.input.head_rot == update.input.head_rot
            &&& q.input.body_rot == update.input.body_rot
            &&& q.input.keys == update.input.keys
        }),
{
    let index = s.slot_of(addr)->0;
    let h = lemma_before_chat(s, addr, update, chat, time);
    if chat is Some {
        law_chat_is_harmless(h, (chat->0).1, index);
    }
    assert(s.after_update(addr, update, chat, time).0.players[index.0 as int] is Some);
}

/// After a client's report the server knows what the client has acknowledged, which game
/// it is in, what it can be told, and its clock, if it sent one; and the client has not
/// been silent.
pub proof fn law_acknowledgements(
    s: HQMServerView,
    addr: HQMSocketAddr,
    update: HQMClientUpdate,
    chat: Option<(u8, Seq<char>)>,
    time: u64,
)
    requires
        s.wf(),
        s.slot_of(addr) is Some,
    ensures
        ({
            let p = s.players[(s.slot_of(addr)->0).0 as int]->0;
            let q = reported(s, addr, update, chat, time);
            &&& q.data.known_packet == update.new_known_packet
            &&& q.data.known_msgpos == update.known_msgpos
            &&& q.data.game_id == update.current_game_id
            &&& q.data.client_version == update.client_version
            &&& q.data.inactivity == 0
            &&& update.deltatime is Some ==> q.data.deltatime == update.deltatime->0
            &&& update.deltatime is None ==> q.data.deltatime == p.data.deltatime
            &&& chat is Some ==> q.data.chat_rep == Some((chat->0).0)
            &&& chat is None ==> q.data.chat_rep == p.data.chat_rep
        }),
{
    let index = s.slot_of(addr)->0;
    let h = lemma_before_chat(s, addr, update, chat, time);
    if chat is Some {
        law_chat_is_harmless(h, (chat->0).1, index);
    }
    assert(s.after_update(addr, update, chat, time).0.players[index.0 as int] is Some);
}

/// A client's report changes nothing else of its player but whom the player views and
/// what the player has been told, and the round-trip times; nothing else of other players
/// but those first two; and nothing of the server but players and messages.
pub proof fn law_reports_are_all(
    s: HQMServerView,
    addr: HQMSocketAddr,
    update: HQMClientUpdate,
    chat: Option<(u8, Seq<char>)>,
    time: u64,
    i: int,
)
    requires
        s.wf(),
        s.slot_of(addr) is Some,
        0 <= i < s.players.len(),
        s.players[i] is Some,
    ensures
        ({
            let t = s.after_update(addr, update, chat, time).0;
            let p = s.players[i]->0;
            let q = t.players[i]->0;
            &&& t == (HQMServerView { players: t.players, messages: t.messages, ..s })
            &&& t.players.len() == s.players.len()
            &&& t.players[i] is Some
            &&& i != (s.slot_of(addr)->0).0 ==> q == (HQMServerPlayerView {
                data: HQMNetworkPlayerDataView {
                    view_player_index: q.data.view_player_index,
                    messages: q.data.messages,
                    ..p.data
                },
                ..p
            })
            &&& i == (s.slot_of(addr)->0).0 ==> q == (HQMServerPlayerView {
                input: q.input,
                data: HQMNetworkPlayerDataView { addr: p.data.addr, ..q.data },
                ..p
            })
        }),
{
    let index = s.slot_of(addr)->0;
    let h = lemma_before_chat(s, addr, update, chat, time);
    if chat is Some {
        law_chat_is_harmless(h, (chat->0).1, index);
    }
    let t = s.after_update(addr, update, chat, time).0;
    assert(t.players[i] is Some);
    assert(t.players[index.0 as int] is Some);
}

/// Without chat, or with chat that was heard before, a report is all that there is: the
/// messages, what anyone has been told and whom anyone views stay as they are, and
/// nothing is left to do.
pub proof fn law_quiet_reports(
    s: HQMServerView,
    addr: HQMSocketAddr,
    update: HQMClientUpdate,
    chat: Option<(u8, Seq<char>)>,
    time: u64,
)
    requires
        s.wf(),
        s.slot_of(addr) is Some,
        chat is None || s.players[(s.slot_of(addr)->0).0 as int]->0.data.chat_rep == Some(
            (chat->0).0,
        ),
    ensures
        ({
            let index = s.slot_of(addr)->0;
            let p = s.players[index.0 as int]->0;
            let (t, left) = s.after_update(addr, update, chat, time);
            let q = t.players[index.0 as int]->0;
            &&& left is Nothing
            &&& t == s.with_player(index, Some(q))
            &&& q.data.messages == p.data.messages
            &&& q.data.view_player_index == p.data.view_player_index
            &&& q.data.chat_rep == p.data.chat_rep
        }),
{
    let h = lemma_before_chat(s, addr, update, chat, time);
}

/// New chat is heard as if it came behind a report without chat.
pub proof fn law_new_chat(
    s: HQMServerView,
    addr: HQMSocketAddr,
    update: HQMClientUpdate,
    rep: u8,
    line: Seq<char>,
    time: u64,
)
    requires
        s.wf(),
        s.slot_of(addr) is Some,
        s.players[(s.slot_of(addr)->0).0 as int]->0.data.chat_rep != Some(rep),
    ensures
        ({
            let index = s.slot_of(addr)->0;
            let quiet = s.after_update(addr, update, None, time).0;
            let q = quiet.players[index.0 as int]->0;
            let noticed = HQMServerPlayerView {
                data: HQMNetworkPlayerDataView { chat_rep: Some(rep), ..q.data },
                ..q
            };
            s.after_update(addr, update, Some((rep, line)), time) == quiet.with_player(
                index,
                Some(noticed),
            ).after_chat(line, index)
        }),
{
    let index = s.slot_of(addr)->0;
    let h = lemma_before_chat(s, addr, update, Some((rep, line)), time);
    let quiet = lemma_before_chat(s, addr, update, None, time);
    let q = quiet.players[index.0 as int]->0;
    let noticed = HQMServerPlayerView {
        data: HQMNetworkPlayerDataView { chat_rep: Some(rep), ..q.data },
        ..q
    };
    assert(quiet.with_player(index, Some(noticed)).players =~= h.players);
    assert(quiet.with_player(index, Some(noticed)) =~= h);
}

/// The rink is given, for every player on it, the player's object and input, and nothing
/// else.
pub proof fn law_inputs<P>(s: HQMServerView, event: HQMTickEvent<P>, now: u64, time: i64, i: int)
    requires
        s.wf(),
        0 <= i < s.players.len(),
    ensures
        ({
            let next = s.after_tick(HQMTickPhaseView::Stepping, event, now, time);
            let inputs = next.action->Simulate_0;
            &&& next.server == s
            &&& next.phase is Simulating
            &&& next.action is Simulate
            &&& s.players[i] is Some && s.players[i]->0.object is Some ==> inputs.contains(
                ((s.players[i]->0.object->0).0, s.players[i]->0.input),
            )
            &&& forall|k: int|
                0 <= k < inputs.len() ==> exists|j: int|
                    0 <= j < s.players.len() && (#[trigger] s.players[j]) is Some
                        && s.players[j]->0.object is Some && #[trigger] inputs[k] == (
                        (s.players[j]->0.object->0).0,
                        s.players[j]->0.input,
                    )
        }),
{
    let on = picked(s.players, on_rink(), 0);
    let next = s.after_tick(HQMTickPhaseView::Stepping, event, now, time);
    let inputs = next.action->Simulate_0;
    if s.players[i] is Some && s.players[i]->0.object is Some {
        let k = lemma_picked_complete(s.players, on_rink(), 0, i);
        assert(inputs[k] == ((s.players[i]->0.object->0).0, s.players[i]->0.input));
    }
    assert forall|k: int| 0 <= k < inputs.len() implies exists|j: int|
        0 <= j < s.players.len() && (#[trigger] s.players[j]) is Some
            && s.players[j]->0.object is Some && #[trigger] inputs[k] == (
            (s.players[j]->0.object->0).0,
            s.players[j]->0.input,
        ) by {
        lemma_picked_sound(s.players, on_rink(), 0, k);
        let j = on[k].0.0 as int;
        assert(s.players[j] is Some);
    }
}

/// What a client sends is what the rink is given for the player's skater in the next
/// step.
pub proof fn law_controls_reach_the_rink<P>(
    s: HQMServerView,
    addr: HQMSocketAddr,
    update: HQMClientUpdate,
    chat: Option<(u8, Seq<char>)>,
    received: u64,
    event: HQMTickEvent<P>,
    now: u64,
    time: i64,
)
    requires
        s.wf(),
        s.slot_of(addr) is Some,
        s.players[(s.slot_of(addr)->0).0 as int]->0.object is Some,
    ensures
        ({
            let p = s.players[(s.slot_of(addr)->0).0 as int]->0;
            let t = s.after_update(addr, update, chat, received).0;
            let next = t.after_tick(HQMTickPhaseView::Stepping, event, now, time);
            next.action->Simulate_0.contains(((p.object->0).0, update.input))
        }),
{
    let index = s.slot_of(addr)->0;
    let i = index.0 as int;
    let h = lemma_before_chat(s, addr, update, chat, received);
    if chat is Some {
        law_chat_is_harmless(h, (chat->0).1, index);
    }
    let t = s.after_update(addr, update, chat, received).0;
    assert(t.players[i] is Some);
    assert(t.players[i]->0.input == update.input);
    let k = lemma_picked_complete(t.players, on_rink(), 0, i);
    let inputs = t.after_tick(HQMTickPhaseView::Stepping, event, now, time).action->Simulate_0;
    assert(inputs[k] == ((t.players[i]->0.object->0).0, t.players[i]->0.input));
}

/// The server after some more ticks, whose objects and times are given.
pub open spec fn after_ticks(
    s: HQMServerView,
    ticks: Seq<([HQMObjectPacket; 32], u64)>,
) -> HQMServerView
    decreases ticks.len(),
{
    if ticks.len() == 0 {
        s
    } else {
        after_ticks(s, ticks.drop_last()).after_packets(ticks.last().0, ticks.last().1)
    }
}

proof fn lemma_after_ticks(
    s: HQMServerView,
    ticks: Seq<([HQMObjectPacket; 32], u64)>,
)
    requires
        s.saved_pings.len() > 0,
        s.packet + ticks.len() <= u32::MAX,
        ticks.len() < 100,
    ensures
        ({
            let t = after_ticks(s, ticks);
            &&& t.packet == s.packet + ticks.len()
            &&& t.saved_pings.len() > ticks.len()
            &&& t.saved_pings[ticks.len() as int] == s.saved_pings[0]
        }),
    decreases ticks.len(),
{
    if ticks.len() > 0 {
        lemma_after_ticks(s, ticks.drop_last());
    }
}

/// A client that acknowledges a tick for the first time shows a round trip: the time from
/// that tick to the acknowledgement, however many ticks came in between, as long as the
/// tick is among the last hundred.
pub proof fn law_round_trips(
    s: HQMServerView,
    p: HQMServerPlayerView,
    packets: [HQMObjectPacket; 32],
    sent: u64,
    more: Seq<([HQMObjectPacket; 32], u64)>,
    received: u64,
)
    requires
        sent <= received,
        more.len() < 100,
        s.after_packets(packets, sent).packet + more.len() <= u32::MAX,
        p.data.known_packet < s.after_packets(packets, sent).packet,
    ensures
        after_ticks(s.after_packets(packets, sent), more).ping_sample(
            p,
            p.data.game_id,
            s.after_packets(packets, sent).packet,
            received,
        ) == Some((received - sent) as u64),
{
    lemma_after_ticks(s.after_packets(packets, sent), more);
}

/// No round trip is shown by a client of another game, by one that acknowledges nothing
/// new, of a tick that has not been, or is no longer known, or whose time is yet to come.
pub proof fn law_no_round_trips(
    s: HQMServerView,
    p: HQMServerPlayerView,
    game_id: u32,
    known_packet: u32,
    received: u64,
)
    ensures
        p.data.game_id != game_id || known_packet <= p.data.known_packet || known_packet > s.packet
            || s.packet - known_packet >= s.saved_pings.len() ==> s.ping_sample(
            p,
            game_id,
            known_packet,
            received,
        ) is None,
        known_packet <= s.packet && s.packet - known_packet < s.saved_pings.len()
            && s.saved_pings[s.packet - known_packet] > received ==> s.ping_sample(
            p,
            game_id,
            known_packet,
            received,
        ) is None,
{
}

/// A round trip comes first among those kept of the player; where there is none, those
/// stay as they are. A hundred are kept.
pub proof fn law_round_trips_are_kept(
    s: HQMServerView,
    addr: HQMSocketAddr,
    update: HQMClientUpdate,
    chat: Option<(u8, Seq<char>)>,
    time: u64,
)
    requires
        s.wf(),
        s.slot_of(addr) is Some,
    ensures
        ({
            let p = s.players[(s.slot_of(addr)->0).0 as int]->0;
            let old_pings = p.data.last_ping;
            let pings = reported(s, addr, update, chat, time).data.last_ping;
            let sample = s.ping_sample(
                p,
                update.current_game_id,
                update.new_known_packet,
                time,
            );
            &&& sample is None ==> pings == old_pings
            &&& sample is Some ==> {
                &&& pings[0] == sample->0
                &&& old_pings.len() < 100 ==> pings.len() == old_pings.len() + 1
                &&& old_pings.len() == 100 ==> pings.len() == 100
                &&& forall|i: int| 0 < i < pings.len() ==> #[trigger] pings[i] == old_pings[i - 1]
            }
        }),
{
    let index = s.slot_of(addr)->0;
    let h = lemma_before_chat(s, addr, update, chat, time);
    if chat is Some {
        law_chat_is_harmless(h, (chat->0).1, index);
    }
    assert(s.after_update(addr, update, chat, time).0.players[index.0 as int] is Some);
}

} // verus!
