//! Laws on what joining, leaving and playing for a team do.

use crate::game::{HQMClientVersion, HQMMuteStatus, HQMObjectIndex, HQMSkaterHand, HQMTeam};
use crate::message::{HQMMessageView, HQMWaitingMessageReceiver};
use crate::net::HQMSocketAddr;
use crate::player::{
    controls, everyone, first_slot, is_free, lives_at, picked, player_at,
    HQMNetworkPlayerDataView, HQMServerPlayerIndex, HQMServerPlayerView,
};
use crate::server::HQMServerView;
use crate::session::{all_aged, has_admin, lemma_first_slot, lines_of, HQMLeaving};
use super::lists::law_several_lines_for_one;
use vstd::prelude::*;

verus! {

/// The entry that everyone has of a player who is on the server.
pub open spec fn entry(
    name: Seq<char>,
    object: Option<(HQMObjectIndex, HQMTeam)>,
    slot: HQMServerPlayerIndex,
) -> HQMMessageView {
    HQMMessageView::PlayerUpdate {
        player_name: name,
        object,
        player_index: slot,
        in_server: true,
    }
}

/// A client is found in a slot exactly if it comes from that address, and nobody in a
/// slot before does.
pub proof fn law_clients_are_found(s: HQMServerView, addr: HQMSocketAddr, i: int)
    requires
        s.wf(),
        0 <= i < s.players.len(),
    ensures
        s.slot_of(addr) == Some(HQMServerPlayerIndex(i as usize)) <==> {
            &&& s.players[i] is Some
            &&& s.players[i]->0.data.addr == addr
            &&& forall|j: int|
                0 <= j < i && (#[trigger] s.players[j]) is Some ==> s.players[j]->0.data.addr
                    != addr
        },
        s.slot_of(addr) is Some ==> (s.slot_of(addr)->0).0 < s.players.len(),
        s.slot_of(addr) is None ==> forall|j: int|
            0 <= j < s.players.len() && (#[trigger] s.players[j]) is Some
                ==> s.players[j]->0.data.addr != addr,
{
    lemma_first_slot(s.players, lives_at(addr), 0);
    if let Some(k) = s.slot_of(addr) {
        assert(lives_at(addr)(s.players[k.0 as int]));
    }
    assert forall|j: int| 0 <= j < s.players.len() implies lives_at(addr)(
        #[trigger] s.players[j],
    ) == (s.players[j] is Some && s.players[j]->0.data.addr == addr) by {
    }
}

/// The first free slot is free, and none before it is.
pub proof fn law_free_slots(s: HQMServerView)
    requires
        s.wf(),
    ensures
        match s.free_slot() {
            Some(k) => {
                &&& k.0 < s.players.len()
                &&& s.players[k.0 as int] is None
                &&& forall|j: int| 0 <= j < k.0 ==> (#[trigger] s.players[j]) is Some
            },
            None => forall|j: int| 0 <= j < s.players.len() ==> (#[trigger] s.players[j]) is Some,
        },
{
    lemma_first_slot(s.players, is_free(), 0);
    assert forall|j: int| 0 <= j < s.players.len() implies is_free()(#[trigger] s.players[j])
        == (s.players[j] is None) by {
    }
}

/// The player who controls an object has it, and nobody in a slot before does.
pub proof fn law_object_owners(
    players: Seq<Option<HQMServerPlayerView>>,
    object: HQMObjectIndex,
)
    requires
        players.len() <= usize::MAX,
    ensures
        match first_slot(players, controls(object), 0) {
            Some(k) => {
                &&& k.0 < players.len()
                &&& players[k.0 as int] is Some
                &&& players[k.0 as int]->0.object is Some
                &&& (players[k.0 as int]->0.object->0).0 == object
                &&& forall|j: int|
                    0 <= j < k.0 && (#[trigger] players[j]) is Some && players[j]->0.object is Some
                        ==> (players[j]->0.object->0).0 != object
            },
            None => forall|j: int|
                0 <= j < players.len() && (#[trigger] players[j]) is Some
                    && players[j]->0.object is Some ==> (players[j]->0.object->0).0 != object,
        },
{
    lemma_first_slot(players, controls(object), 0);
    assert forall|j: int| 0 <= j < players.len() implies controls(object)(#[trigger] players[j])
        == (players[j] is Some && players[j]->0.object is Some && (players[j]->0.object->0).0
        == object) by {
    }
}

/// How many slots are taken, from one on.
pub open spec fn taken(players: Seq<Option<HQMServerPlayerView>>, from: int) -> nat
    decreases players.len() - from,
{
    if from < 0 || from >= players.len() {
        0
    } else if players[from] is Some {
        1 + taken(players, from + 1)
    } else {
        taken(players, from + 1)
    }
}

proof fn lemma_taken(players: Seq<Option<HQMServerPlayerView>>, from: int)
    requires
        0 <= from,
    ensures
        picked(players, everyone(), from).len() == taken(players, from),
    decreases players.len() - from,
{
    if from < players.len() {
        lemma_taken(players, from + 1);
    }
}

/// There are as many players as slots are taken.
pub proof fn law_player_counts(s: HQMServerView)
    ensures
        s.player_count() == taken(s.players, 0),
{
    lemma_taken(s.players, 0);
}

/// A client is let in exactly if there are fewer players than the server is for, its
/// version is right, nobody comes from its address, its host is not banned, whatever
/// the port, and joining is allowed.
pub proof fn law_admission(s: HQMServerView, addr: HQMSocketAddr, version: u32)
    requires
        s.wf(),
    ensures
        s.admits(addr, version) <==> {
            &&& taken(s.players, 0) < s.config.player_max
            &&& version == 55
            &&& forall|j: int|
                0 <= j < s.players.len() && (#[trigger] s.players[j]) is Some
                    ==> s.players[j]->0.data.addr != addr
            &&& !s.ban_list.contains(addr.ip)
            &&& s.allow_join
        },
{
    law_player_counts(s);
    law_clients_are_found(s, addr, 0);
    if let Some(k) = s.slot_of(addr) {
        law_clients_are_found(s, addr, k.0 as int);
    }
}

/// A newcomer is a spectator who has been told what those are told who join later, sees
/// the rink through the own eyes, has no rights, and has yet to be heard from. Nobody
/// else is affected.
pub proof fn law_newcomers(
    s: HQMServerView,
    index: HQMServerPlayerIndex,
    name: Seq<char>,
    addr: HQMSocketAddr,
    id: u128,
)
    requires
        s.wf(),
        index.0 < s.players.len(),
    ensures
        ({
            let t = s.with_newcomer(index, name, addr, id);
            let p = t.players[index.0 as int];
            &&& p is Some
            &&& p->0.player_name == name
            &&& p->0.id == id
            &&& p->0.object is None
            &&& !p->0.is_admin
            &&& p->0.is_muted == HQMMuteStatus::NotMuted
            &&& p->0.hand == HQMSkaterHand::Right
            &&& p->0.mass.bits == 0x3f80_0000
            &&& p->0.stick_limit.bits == 0
            &&& p->0.input.stick_angle.bits == 0
            &&& p->0.input.turn.bits == 0
            &&& p->0.input.fwbw.bits == 0
            &&& p->0.input.stick.0.bits == 0
            &&& p->0.input.stick.1.bits == 0
            &&& p->0.input.head_rot.bits == 0
            &&& p->0.input.body_rot.bits == 0
            &&& p->0.input.keys == 0
            &&& p->0.data.addr == addr
            &&& p->0.data.client_version == HQMClientVersion::Vanilla
            &&& p->0.data.inactivity == 0
            &&& p->0.data.known_packet == u32::MAX
            &&& p->0.data.known_msgpos == 0
            &&& p->0.data.chat_rep is None
            &&& p->0.data.deltatime == 0
            &&& p->0.data.last_ping.len() == 0
            &&& p->0.data.view_player_index == index
            &&& p->0.data.game_id == u32::MAX
            &&& p->0.data.messages == s.messages.persistent_messages
            &&& t.players.len() == s.players.len()
            &&& forall|j: int|
                0 <= j < s.players.len() && j != index.0 ==> #[trigger] t.players[j]
                    == s.players[j]
            &&& t == (HQMServerView { players: t.players, messages: t.messages, ..s })
        }),
{
}

/// Everyone, and those who join later, and the replay, are told of a newcomer by slot and
/// name; the newcomer alone is welcomed, line by line.
pub proof fn law_newcomers_are_introduced(
    s: HQMServerView,
    index: HQMServerPlayerIndex,
    name: Seq<char>,
    addr: HQMSocketAddr,
    id: u128,
)
    requires
        s.wf(),
        index.0 < s.players.len(),
    ensures
        ({
            let t = s.with_newcomer(index, name, addr, id);
            let known = entry(name, None, index);
            &&& t.messages.persistent_messages == s.messages.persistent_messages.push(known)
            &&& t.messages.replay_messages == s.messages.replay_messages.push(known)
            &&& t.messages.waiting_messages == s.messages.waiting_messages.push(
                (HQMWaitingMessageReceiver::All, known),
            ) + Seq::new(
                s.config.welcome@.len(),
                |k: int|
                    (
                        HQMWaitingMessageReceiver::Specific(index),
                        HQMMessageView::Chat { player_index: None, message: s.config.welcome@[k]@ },
                    ),
            )
        }),
{
    let known = entry(name, None, index);
    let lines = lines_of(s.config.welcome@);
    let shown = s.saying(s.messages.global(known, true, true));
    law_several_lines_for_one(shown, lines, index);
    let t = s.with_newcomer(index, name, addr, id);
    assert(t.messages == shown.told_all(lines, index).messages);
    assert(t.messages.waiting_messages =~= s.messages.waiting_messages.push(
        (HQMWaitingMessageReceiver::All, known),
    ) + Seq::new(
        s.config.welcome@.len(),
        |k: int|
            (
                HQMWaitingMessageReceiver::Specific(index),
                HQMMessageView::Chat { player_index: None, message: s.config.welcome@[k]@ },
            ),
    ));
}

/// A newcomer is announced to everyone by name.
pub proof fn law_joins_are_announced(s: HQMServerView, name: Seq<char>)
    ensures
        s.after_join(name) == s.announced(name + " joined"@),
{
}

/// For a player who is to play, the rink is asked for the player's own object, hand, mass
/// and stick limit; for nobody it is asked for nothing.
pub proof fn law_wanted_skaters(s: HQMServerView, index: HQMServerPlayerIndex)
    ensures
        player_at(s.players, index) is None ==> s.skater_wanted(index) is None,
        player_at(s.players, index) is Some ==> {
            let p = player_at(s.players, index)->0;
            let wanted = s.skater_wanted(index)->0;
            &&& s.skater_wanted(index) is Some
            &&& p.object is None ==> wanted.0 is None
            &&& p.object is Some ==> wanted.0 == Some((p.object->0).0)
            &&& wanted.1 == p.hand
            &&& wanted.2 == p.mass
            &&& wanted.3 == p.stick_limit
        },
{
}

/// Everyone and those who join later are told who has gone, and the replay if it is to
/// know; nothing changes but the slot, the messages, and whether joining is allowed.
pub proof fn law_departures_are_told(
    s: HQMServerView,
    index: HQMServerPlayerIndex,
    on_replay: bool,
)
    requires
        s.wf(),
        player_at(s.players, index) is Some,
    ensures
        ({
            let p = player_at(s.players, index)->0;
            let t = s.without_player(index, on_replay);
            let gone = HQMMessageView::PlayerUpdate {
                player_name: p.player_name,
                object: None,
                player_index: index,
                in_server: false,
            };
            &&& t.messages.persistent_messages == s.messages.persistent_messages.push(gone)
            &&& on_replay ==> t.messages.replay_messages == s.messages.replay_messages.push(gone)
            &&& !on_replay ==> t.messages.replay_messages == s.messages.replay_messages
            &&& t.messages.waiting_messages == s.messages.waiting_messages.push(
                (HQMWaitingMessageReceiver::All, gone),
            )
            &&& t.players == s.players.update(index.0 as int, None)
            &&& t == (HQMServerView {
                players: t.players,
                messages: t.messages,
                allow_join: t.allow_join,
                ..s
            })
        }),
{
}

/// Nothing happens when nobody is there to go.
pub proof fn law_nobody_departs(
    s: HQMServerView,
    index: HQMServerPlayerIndex,
    on_replay: bool,
)
    requires
        player_at(s.players, index) is None,
    ensures
        s.without_player(index, on_replay) == s,
{
}

/// A departure is announced to everyone by the name, in words that say how the player
/// went.
pub proof fn law_departures_are_announced(
    s: HQMServerView,
    index: HQMServerPlayerIndex,
    name: Seq<char>,
)
    ensures
        s.after_departure(index, name, HQMLeaving::Exited) == s.without_player(
            index,
            true,
        ).announced(name + " exited"@),
        s.after_departure(index, name, HQMLeaving::TimedOut) == s.without_player(
            index,
            true,
        ).announced(name + " timed out"@),
{
}

/// Someone is an administrator exactly if a player with those rights is in some slot.
pub proof fn law_administrators(players: Seq<Option<HQMServerPlayerView>>, i: int)
    requires
        0 <= i < players.len(),
        players[i] is Some,
    ensures
        players[i]->0.is_admin ==> has_admin(players),
        !players[i]->0.is_admin ==> has_admin(players) == has_admin(players.update(i, None)),
{
    let without = players.update(i, None);
    if !players[i]->0.is_admin && has_admin(players) {
        let k = choose|k: int|
            0 <= k < players.len() && (#[trigger] players[k]) is Some && players[k]->0.is_admin;
        assert(without[k] is Some && without[k]->0.is_admin);
    }
    if has_admin(without) {
        let k = choose|k: int|
            0 <= k < without.len() && (#[trigger] without[k]) is Some && without[k]->0.is_admin;
        assert(players[k] is Some && players[k]->0.is_admin);
    }
}

/// Where nobody has those rights, nobody is an administrator.
pub proof fn law_no_administrators(players: Seq<Option<HQMServerPlayerView>>)
    requires
        forall|i: int|
            0 <= i < players.len() && (#[trigger] players[i]) is Some ==> !players[i]->0.is_admin,
    ensures
        !has_admin(players),
{
}

/// The object of a player is the one that the player controls; a spectator has none, nor
/// does an empty slot.
pub proof fn law_objects(s: HQMServerView, index: HQMServerPlayerIndex)
    ensures
        player_at(s.players, index) is None ==> s.object_of(index) is None,
        player_at(s.players, index) is Some ==> {
            let object = player_at(s.players, index)->0.object;
            &&& object is None ==> s.object_of(index) is None
            &&& object is Some ==> s.object_of(index) == Some((object->0).0)
        },
{
}

/// Everyone, those who join later, and the replay are told the new entry of a player; the
/// player is the one given; nothing else changes.
pub proof fn law_assignments(
    s: HQMServerView,
    index: HQMServerPlayerIndex,
    player: HQMServerPlayerView,
)
    requires
        s.wf(),
        index.0 < s.players.len(),
    ensures
        ({
            let t = s.with_assignment(index, player);
            let known = entry(player.player_name, player.object, index);
            &&& t.players == s.players.update(index.0 as int, Some(player))
            &&& t.messages.persistent_messages == s.messages.persistent_messages.push(known)
            &&& t.messages.replay_messages == s.messages.replay_messages.push(known)
            &&& t.messages.waiting_messages == s.messages.waiting_messages.push(
                (HQMWaitingMessageReceiver::All, known),
            )
            &&& t == (HQMServerView { players: t.players, messages: t.messages, ..s })
        }),
{
}

/// A spectator for whom an object was created plays with it for the team asked for, and
/// sees the rink through the own eyes; nothing else of the player changes.
pub proof fn law_spectators_join_a_team(
    s: HQMServerView,
    index: HQMServerPlayerIndex,
    team: HQMTeam,
    skater_found: bool,
    object: HQMObjectIndex,
)
    requires
        s.wf(),
        player_at(s.players, index) is Some,
        player_at(s.players, index)->0.object is None,
    ensures
        ({
            let p = player_at(s.players, index)->0;
            let (t, r) = s.after_spawn(index, team, skater_found, Some(object));
            let q = t.players[index.0 as int]->0;
            &&& r == Some(object)
            &&& t == s.with_assignment(index, q)
            &&& q.object == Some((object, team))
            &&& q.data.view_player_index == index
            &&& q == (HQMServerPlayerView { object: q.object, data: q.data, ..p })
            &&& q.data == (HQMNetworkPlayerDataView {
                view_player_index: q.data.view_player_index,
                ..p.data
            })
            &&& s.after_spawn(index, team, skater_found, None) == (s, None::<HQMObjectIndex>)
        }),
{
}

/// A player who has an object keeps it, and plays for the team asked for if the skater
/// was placed anew; nothing else of the player changes.
pub proof fn law_players_change_the_team(
    s: HQMServerView,
    index: HQMServerPlayerIndex,
    team: HQMTeam,
    skater_found: bool,
    created: Option<HQMObjectIndex>,
)
    requires
        s.wf(),
        player_at(s.players, index) is Some,
        player_at(s.players, index)->0.object is Some,
    ensures
        ({
            let p = player_at(s.players, index)->0;
            let (t, r) = s.after_spawn(index, team, skater_found, created);
            let q = t.players[index.0 as int]->0;
            &&& r is None
            &&& !skater_found ==> t == s
            &&& skater_found ==> {
                &&& t == s.with_assignment(index, q)
                &&& q.object == Some(((p.object->0).0, team))
                &&& q == (HQMServerPlayerView { object: q.object, ..p })
            }
        }),
{
}

/// A player whose object was taken off the rink is a spectator; nothing else of the
/// player changes. Where it was not, or there is none, nothing happens.
pub proof fn law_moves_to_the_spectators(
    s: HQMServerView,
    index: HQMServerPlayerIndex,
    removed: bool,
)
    requires
        s.wf(),
    ensures
        ({
            let (t, r) = s.after_move(index, removed);
            let q = t.players[index.0 as int]->0;
            &&& r <==> removed && player_at(s.players, index) is Some && player_at(
                s.players,
                index,
            )->0.object is Some
            &&& !r ==> t == s
            &&& r ==> {
                &&& t == s.with_assignment(index, q)
                &&& q.object is None
                &&& q == (HQMServerPlayerView { object: None, ..player_at(s.players, index)->0 })
            }
        }),
{
}

/// Nothing happens when nobody is there to be put into a team.
pub proof fn law_nobody_joins_a_team(
    s: HQMServerView,
    index: HQMServerPlayerIndex,
    team: HQMTeam,
    skater_found: bool,
    created: Option<HQMObjectIndex>,
)
    requires
        player_at(s.players, index) is None,
    ensures
        s.after_spawn(index, team, skater_found, created) == (s, None::<HQMObjectIndex>),
{
}

/// A player who asks for it holds the stick in that hand from then on. The skater follows
/// at once between periods; during one the player is told when it will.
pub proof fn law_hands(
    s: HQMServerView,
    hand: HQMSkaterHand,
    index: HQMServerPlayerIndex,
    skater_found: bool,
)
    requires
        s.wf(),
        player_at(s.players, index) is Some,
    ensures
        ({
            let p = player_at(s.players, index)->0;
            let t = s.after_set_hand(hand, index, skater_found);
            let q = t.players[index.0 as int]->0;
            let changed = s.with_player(index, Some(q));
            let has_skater = p.object is Some && skater_found;
            &&& q.hand == hand
            &&& q == (HQMServerPlayerView { hand: q.hand, ..p })
            &&& has_skater && s.values.period != 0 ==> t == changed.told(
                "Stick hand will change after next intermission"@,
                index,
            ) && s.hand_changed(index, skater_found) is None
            &&& !(has_skater && s.values.period != 0) ==> t == changed
            &&& has_skater && s.values.period == 0 ==> s.hand_changed(index, skater_found) == Some(
                (p.object->0).0,
            )
            &&& !has_skater ==> s.hand_changed(index, skater_found) is None
        }),
{
}

/// Whatever limit a player asks for, there is none afterwards, and the player is told so.
pub proof fn law_stick_limits(s: HQMServerView, index: HQMServerPlayerIndex)
    requires
        s.wf(),
        player_at(s.players, index) is Some,
    ensures
        ({
            let p = player_at(s.players, index)->0;
            let t = s.after_stick_limit(index);
            let q = t.players[index.0 as int]->0;
            &&& q.stick_limit.bits == 0
            &&& q == (HQMServerPlayerView { stick_limit: q.stick_limit, ..p })
            &&& t == s.with_player(index, Some(q)).told("Stick speed limit is set to no"@, index)
        }),
{
}

/// Nothing happens when nobody is there to ask for a hand or a limit.
pub proof fn law_nobody_asks(
    s: HQMServerView,
    hand: HQMSkaterHand,
    index: HQMServerPlayerIndex,
    skater_found: bool,
)
    requires
        player_at(s.players, index) is None,
    ensures
        s.after_set_hand(hand, index, skater_found) == s,
        s.hand_changed(index, skater_found) is None,
        s.after_stick_limit(index) == s,
{
}

/// When a player speaks to the team, each player of the team is told three messages, all
/// of which name the speaker's slot: the speaker's entry with the team in front of the
/// name, the words, and the speaker's entry as everyone had it. Nobody else is told
/// anything, and nothing else of anyone changes.
pub proof fn law_team_talk(
    s: HQMServerView,
    message: Seq<char>,
    sender: HQMServerPlayerIndex,
    i: int,
)
    requires
        s.wf(),
        player_at(s.players, sender) is Some,
        player_at(s.players, sender)->0.object is Some,
        0 <= i < s.players.len(),
        s.players[i] is Some,
    ensures
        ({
            let p = player_at(s.players, sender)->0;
            let team = (p.object->0).1;
            let t = s.after_team_message(message, sender);
            let before = s.players[i]->0;
            let after = t.players[i]->0;
            let heard = after.data.messages.skip(before.data.messages.len() as int);
            &&& t.players[i] is Some
            &&& after == (HQMServerPlayerView { data: after.data, ..before })
            &&& after.data == (HQMNetworkPlayerDataView {
                messages: after.data.messages,
                ..before.data
            })
            &&& before.object is Some && (before.object->0).1 == team ==> {
                &&& after.data.messages.take(before.data.messages.len() as int)
                    == before.data.messages
                &&& heard.len() == 3
                &&& heard[0] == entry(
                    match team {
                        HQMTeam::Red => "[Red] "@,
                        HQMTeam::Blue => "[Blue] "@,
                    } + p.player_name,
                    p.object,
                    sender,
                )
                &&& heard[1] == (HQMMessageView::Chat { player_index: Some(sender), message })
                &&& heard[2] == entry(p.player_name, p.object, sender)
            }
            &&& before.object is None || (before.object->0).1 != team ==> after == before
        }),
{
    let p = player_at(s.players, sender)->0;
    let team = (p.object->0).1;
    let t = s.after_team_message(message, sender);
    let before = s.players[i]->0;
    let after = t.players[i]->0;
    reveal_strlit("[");
    reveal_strlit("] ");
    reveal_strlit("Red");
    reveal_strlit("Blue");
    reveal_strlit("[Red] ");
    reveal_strlit("[Blue] ");
    assert("["@ + "Red"@ + "] "@ =~= "[Red] "@);
    assert("["@ + "Blue"@ + "] "@ =~= "[Blue] "@);
    if before.object is Some && (before.object->0).1 == team {
        let talk = s.team_talk(message, sender, p, team);
        assert(after.data.messages == before.data.messages + talk);
        assert(after.data.messages.skip(before.data.messages.len() as int) =~= talk);
        assert(after.data.messages.take(before.data.messages.len() as int)
            =~= before.data.messages);
    }
}

/// Team talk changes nothing but what players have been told, and a slot that was empty
/// stays so. Of someone who plays for no team it changes nothing at all.
pub proof fn law_team_talk_is_all(
    s: HQMServerView,
    message: Seq<char>,
    sender: HQMServerPlayerIndex,
    i: int,
)
    requires
        s.wf(),
        0 <= i < s.players.len(),
    ensures
        ({
            let t = s.after_team_message(message, sender);
            &&& t.players.len() == s.players.len()
            &&& s.players[i] is None ==> t.players[i] is None
            &&& t == (HQMServerView { players: t.players, ..s })
            &&& player_at(s.players, sender) is None || player_at(
                s.players,
                sender,
            )->0.object is None ==> t == s
        }),
{
}

/// Handing messages out changes nothing of a player but what the player has been told,
/// and nothing of the server but that and what waits.
pub proof fn law_delivery_is_all(s: HQMServerView, i: int)
    requires
        s.wf(),
        0 <= i < s.players.len(),
    ensures
        ({
            let t = s.after_delivery();
            let q = t.players[i]->0;
            &&& t.players.len() == s.players.len()
            &&& s.players[i] is Some ==> q == (HQMServerPlayerView {
                data: HQMNetworkPlayerDataView {
                    messages: q.data.messages,
                    ..s.players[i]->0.data
                },
                ..s.players[i]->0
            })
            &&& t.messages.persistent_messages == s.messages.persistent_messages
            &&& t.messages.replay_messages == s.messages.replay_messages
            &&& t == (HQMServerView { players: t.players, messages: t.messages, ..s })
        }),
{
}

/// A tick of silence counts as one more, and changes nothing else of a player.
pub proof fn law_silence(players: Seq<Option<HQMServerPlayerView>>, i: int)
    requires
        0 <= i < players.len(),
        players[i] is Some,
        players[i]->0.data.inactivity < u32::MAX,
    ensures
        ({
            let q = all_aged(players)[i];
            &&& q is Some
            &&& q->0.data.inactivity == players[i]->0.data.inactivity + 1
            &&& q->0 == (HQMServerPlayerView {
                data: HQMNetworkPlayerDataView {
                    inactivity: q->0.data.inactivity,
                    ..players[i]->0.data
                },
                ..players[i]->0
            })
        }),
{
}

} // verus!
