//! Laws on who is on the server.

use crate::commands::{HQMClientUpdate, HQMCommandActionView, HQMLookupView};
use crate::game::{HQMGameValues, HQMObjectIndex, HQMTeam};
use crate::lookup::{from_slot, listing, LISTED};
use crate::matches::{at_most, by_name};
use crate::message::{chat_message, HQMMessageView};
use crate::net::HQMSocketAddr;
use crate::player::{
    everyone, first_slot, is_free, lemma_picked_complete, lemma_picked_sound, lives_at, picked,
    player_at, HQMServerPlayerIndex, HQMServerPlayerView,
};
use crate::replay::all_restarted;
use crate::server::HQMServerView;
use crate::session::{
    all_aged, has_admin, is_inactive, lemma_first_slot, HQMLeaving, INACTIVITY_LIMIT,
};
use crate::text::{command_arg, command_word, is_command, parsed_index};
use super::messages::{inbox, informed, law_directed_messages, law_global_messages};
use vstd::prelude::*;

verus! {

/// Whether no two players come from the same address.
pub open spec fn distinct_addresses(players: Seq<Option<HQMServerPlayerView>>) -> bool {
    forall|i: int, j: int|
        0 <= i < j < players.len() && (#[trigger] players[i]) is Some && (
        #[trigger] players[j]) is Some ==> players[i]->0.data.addr != players[j]->0.data.addr
}

/// How many players are in slots from one on, when a slot changes.
proof fn lemma_count_update(
    players: Seq<Option<HQMServerPlayerView>>,
    i: int,
    p: Option<HQMServerPlayerView>,
    from: int,
)
    requires
        0 <= from,
        0 <= i < players.len() <= usize::MAX,
    ensures
        picked(players.update(i, p), everyone(), from).len() == picked(
            players,
            everyone(),
            from,
        ).len() + (if i >= from && p is Some {
            1int
        } else {
            0
        }) - (if i >= from && players[i] is Some {
            1int
        } else {
            0
        }),
    decreases players.len() - from,
{
    if from < players.len() {
        lemma_count_update(players, i, p, from + 1);
    }
}

/// A slot is the first of its kind if it is the only one.
proof fn lemma_only_slot(
    players: Seq<Option<HQMServerPlayerView>>,
    p: spec_fn(Option<HQMServerPlayerView>) -> bool,
    i: int,
)
    requires
        0 <= i < players.len() <= usize::MAX,
        p(players[i]),
        forall|j: int| 0 <= j < players.len() && j != i ==> !p(#[trigger] players[j]),
    ensures
        first_slot(players, p, 0) == Some(HQMServerPlayerIndex(i as usize)),
{
    lemma_first_slot(players, p, 0);
}

/// A client that is let in sits in the slot where it is found from then on. There is
/// one player more, and never more than the server is for; and still no two players
/// come from the same address.
pub proof fn law_join(
    s: HQMServerView,
    addr: HQMSocketAddr,
    version: u32,
    name: Seq<char>,
    id: u128,
)
    requires
        s.wf(),
        s.admits(addr, version),
        s.free_slot() is Some,
        distinct_addresses(s.players),
    ensures
        ({
            let after = s.with_newcomer(s.free_slot()->0, name, addr, id);
            &&& after.slot_of(addr) == s.free_slot()
            &&& after.player_count() == s.player_count() + 1
            &&& after.player_count() <= s.config.player_max
            &&& distinct_addresses(after.players)
            &&& !after.admits(addr, version)
        }),
{
    let index = s.free_slot()->0;
    let i = index.0 as int;
    let after = s.with_newcomer(index, name, addr, id);
    lemma_first_slot(s.players, is_free(), 0);
    lemma_first_slot(s.players, lives_at(addr), 0);
    assert(after.players == s.players.update(i, after.players[i]));
    lemma_count_update(s.players, i, after.players[i], 0);
    assert forall|j: int| 0 <= j < after.players.len() && j != i implies !lives_at(addr)(
        #[trigger] after.players[j],
    ) by {
        assert(!lives_at(addr)(s.players[j]));
    }
    lemma_only_slot(after.players, lives_at(addr), i);
}

/// A player who goes leaves one player fewer, nobody at the address, and the slot
/// free; nobody else is affected.
pub proof fn law_departure(s: HQMServerView, index: HQMServerPlayerIndex, on_replay: bool)
    requires
        s.wf(),
        player_at(s.players, index) is Some,
        distinct_addresses(s.players),
    ensures
        ({
            let after = s.without_player(index, on_replay);
            &&& after.player_count() == s.player_count() - 1
            &&& after.slot_of(player_at(s.players, index)->0.data.addr) is None
            &&& player_at(after.players, index) is None
            &&& distinct_addresses(after.players)
            &&& forall|j: int|
                0 <= j < s.players.len() && j != index.0 ==> #[trigger] after.players[j]
                    == s.players[j]
        }),
{
    let after = s.without_player(index, on_replay);
    let addr = player_at(s.players, index)->0.data.addr;
    lemma_count_update(s.players, index.0 as int, None, 0);
    lemma_first_slot(after.players, lives_at(addr), 0);
    if let Some(k) = first_slot(after.players, lives_at(addr), 0) {
        assert(after.players[k.0 as int] == s.players[k.0 as int]);
        assert(s.players[index.0 as int] is Some);
    }
}

/// When the last administrator goes, joining is allowed again; as long as another
/// one stays, or when someone else goes, it is allowed exactly if it was before.
pub proof fn law_last_administrator(
    s: HQMServerView,
    index: HQMServerPlayerIndex,
    on_replay: bool,
)
    requires
        s.wf(),
        player_at(s.players, index) is Some,
    ensures
        ({
            let p = player_at(s.players, index)->0;
            let after = s.without_player(index, on_replay);
            &&& p.is_admin && !has_admin(after.players) ==> after.allow_join
            &&& !p.is_admin || has_admin(after.players) ==> after.allow_join == s.allow_join
        }),
{
}

/// The server after the players of a list have timed out one after the other.
pub open spec fn timed_out(
    s: HQMServerView,
    inactive: Seq<(HQMServerPlayerIndex, Seq<char>)>,
) -> HQMServerView
    decreases inactive.len(),
{
    if inactive.len() == 0 {
        s
    } else {
        let (index, name) = inactive.last();
        timed_out(s, inactive.drop_last()).after_departure(index, name, HQMLeaving::TimedOut)
    }
}

/// Exactly the players of a list go when they have timed out.
proof fn lemma_timed_out(
    s: HQMServerView,
    inactive: Seq<(HQMServerPlayerIndex, Seq<char>)>,
    i: int,
)
    requires
        s.wf(),
        0 <= i < s.players.len(),
    ensures
        timed_out(s, inactive).players.len() == s.players.len(),
        timed_out(s, inactive).players[i] == if exists|k: int|
            0 <= k < inactive.len() && (#[trigger] inactive[k]).0.0 == i {
            None
        } else {
            s.players[i]
        },
    decreases inactive.len(),
{
    if inactive.len() > 0 {
        let rest = inactive.drop_last();
        lemma_timed_out(s, rest, i);
        let (index, name) = inactive.last();
        assert(inactive.last() == inactive[inactive.len() - 1]);
        if exists|k: int| 0 <= k < rest.len() && (#[trigger] rest[k]).0.0 == i {
            let k = choose|k: int| 0 <= k < rest.len() && (#[trigger] rest[k]).0.0 == i;
            assert(inactive[k].0.0 == i);
        }
        if exists|k: int| 0 <= k < inactive.len() && (#[trigger] inactive[k]).0.0 == i {
            let k = choose|k: int| 0 <= k < inactive.len() && (#[trigger] inactive[k]).0.0 == i;
            if k < rest.len() {
                assert(rest[k].0.0 == i);
            }
        }
    }
}

/// After every tick, those are gone who have been silent for longer than the limit,
/// and nobody else.
pub proof fn law_inactivity(s: HQMServerView, i: int)
    requires
        s.wf(),
        s.can_age(),
        0 <= i < s.players.len(),
    ensures
        ({
            let aged = HQMServerView { players: all_aged(s.players), ..s };
            let after = timed_out(aged, by_name(picked(aged.players, is_inactive(), 0)));
            &&& after.players.len() == s.players.len()
            &&& after.players[i] is Some <==> s.players[i] is Some
                && s.players[i]->0.data.inactivity < INACTIVITY_LIMIT
            &&& after.players[i] is Some ==> after.players[i]->0.data.inactivity
                == s.players[i]->0.data.inactivity + 1 <= INACTIVITY_LIMIT
        }),
{
    let aged = HQMServerView { players: all_aged(s.players), ..s };
    let found = picked(aged.players, is_inactive(), 0);
    let inactive = by_name(found);
    assert(aged.wf());
    lemma_timed_out(aged, inactive, i);
    if s.players[i] is Some && s.players[i]->0.data.inactivity >= INACTIVITY_LIMIT {
        let k = lemma_picked_complete(aged.players, is_inactive(), 0, i);
        assert(inactive[k].0.0 == i);
    }
    if exists|k: int| 0 <= k < inactive.len() && (#[trigger] inactive[k]).0.0 == i {
        let k = choose|k: int| 0 <= k < inactive.len() && (#[trigger] inactive[k]).0.0 == i;
        lemma_picked_sound(aged.players, is_inactive(), 0, k);
    }
}

/// A spectator who is put into a team and moved back is the player from before, seeing
/// the rink through the own eyes; everyone is told of both moves.
pub proof fn law_spectators_return(
    s: HQMServerView,
    index: HQMServerPlayerIndex,
    object: HQMObjectIndex,
    team: HQMTeam,
)
    requires
        s.wf(),
        player_at(s.players, index) is Some,
        player_at(s.players, index)->0.object is None,
    ensures
        ({
            let p = player_at(s.players, index)->0;
            let playing = p.viewing(index).with_object(Some((object, team)));
            let spawned = s.with_assignment(index, playing);
            let after = spawned.with_assignment(index, playing.with_object(None));
            &&& player_at(spawned.players, index) == Some(playing)
            &&& player_at(after.players, index) == Some(p.viewing(index))
            &&& after.messages.persistent_messages == s.messages.persistent_messages.push(
                playing.update_message(index),
            ).push(p.update_message(index))
        }),
{
    let p = player_at(s.players, index)->0;
    assert(p.viewing(index).with_object(None) =~= p.viewing(index));
}

/// How many players there are from a slot on does not change when a game begins.
proof fn lemma_restart_counts(players: Seq<Option<HQMServerPlayerView>>, from: int)
    requires
        0 <= from,
    ensures
        picked(all_restarted(players), everyone(), from).len() == picked(
            players,
            everyone(),
            from,
        ).len(),
    decreases players.len() - from,
{
    if from < players.len() {
        lemma_restart_counts(players, from + 1);
    }
}

/// Nobody is lost when a new game begins: everyone keeps slot, name, address and
/// rights, has left the rink, and has yet to be told of the game.
pub proof fn law_new_games_keep_players(s: HQMServerView, values: HQMGameValues, i: int)
    requires
        s.wf(),
        0 <= i < s.players.len(),
        s.players[i] is Some,
    ensures
        s.after_new_game(values).player_count() == s.player_count(),
        ({
            let p = s.players[i]->0;
            let q = s.after_new_game(values).players[i];
            &&& q is Some
            &&& q->0.player_name == p.player_name
            &&& q->0.data.addr == p.data.addr
            &&& q->0.is_admin == p.is_admin
            &&& q->0.is_muted == p.is_muted
            &&& q->0.object is None
            &&& q->0.data.messages.len() == 0
            &&& q->0.data.known_msgpos == 0
        }),
{
    lemma_restart_counts(s.players, 0);
}

/// Whether every client of one state is in the same slot of another, has heard the
/// same chat, and has been told, or is about to be, at least as much; and those who
/// join later are told the same.
pub open spec fn keeps_clients(s: HQMServerView, t: HQMServerView) -> bool {
    &&& t.players.len() == s.players.len()
    &&& t.messages.persistent_messages == s.messages.persistent_messages
    &&& forall|i: int|
        #![trigger t.players[i]]
        0 <= i < s.players.len() ==> {
            &&& t.players[i] is Some <==> s.players[i] is Some
            &&& s.players[i] is Some ==> t.players[i]->0.data.addr == s.players[i]->0.data.addr
            &&& s.players[i] is Some ==> t.players[i]->0.data.chat_rep
                == s.players[i]->0.data.chat_rep
        }
    &&& forall|i: int, m: HQMMessageView|
        0 <= i < s.players.len() && inbox(s, i).contains(m) ==> #[trigger] inbox(t, i).contains(m)
}

proof fn lemma_keeps_trans(s: HQMServerView, t: HQMServerView, u: HQMServerView)
    requires
        keeps_clients(s, t),
        keeps_clients(t, u),
    ensures
        keeps_clients(s, u),
{
    assert forall|i: int|
        #![trigger u.players[i]]
        0 <= i < s.players.len() implies {
        &&& u.players[i] is Some <==> s.players[i] is Some
        &&& s.players[i] is Some ==> u.players[i]->0.data.addr == s.players[i]->0.data.addr
        &&& s.players[i] is Some ==> u.players[i]->0.data.chat_rep == s.players[i]->0.data.chat_rep
    } by {
        assert(t.players[i] is Some <==> s.players[i] is Some);
    }
    assert forall|i: int, m: HQMMessageView|
        0 <= i < s.players.len() && inbox(s, i).contains(m) implies #[trigger] inbox(
        u,
        i,
    ).contains(m) by {
        assert(inbox(t, i).contains(m));
    }
}

proof fn lemma_told_keeps(s: HQMServerView, line: Seq<char>, receiver: HQMServerPlayerIndex)
    requires
        s.wf(),
    ensures
        keeps_clients(s, s.told(line, receiver)),
        s.told(line, receiver).wf(),
{
    let t = s.told(line, receiver);
    assert forall|i: int, m: HQMMessageView|
        0 <= i < s.players.len() && inbox(s, i).contains(m) implies #[trigger] inbox(
        t,
        i,
    ).contains(m) by {
        law_directed_messages(s, chat_message(None, line), receiver, i);
        let k = choose|k: int| 0 <= k < inbox(s, i).len() && inbox(s, i)[k] == m;
        assert(inbox(t, i)[k] == m);
    }
}

proof fn lemma_lines_keep(
    s: HQMServerView,
    lines: Seq<Seq<char>>,
    receiver: HQMServerPlayerIndex,
)
    requires
        s.wf(),
    ensures
        keeps_clients(s, s.told_all(lines, receiver)),
        s.told_all(lines, receiver).wf(),
    decreases lines.len(),
{
    if lines.len() > 0 {
        let before = s.told_all(lines.drop_last(), receiver);
        lemma_lines_keep(s, lines.drop_last(), receiver);
        lemma_told_keeps(before, lines.last(), receiver);
        assert(s.told_all(lines, receiver) == before.told(lines.last(), receiver));
        lemma_keeps_trans(s, before, s.told_all(lines, receiver));
    } else {
        assert(s.told_all(lines, receiver) == s);
    }
}

proof fn lemma_viewing_keeps(
    s: HQMServerView,
    index: HQMServerPlayerIndex,
    view: HQMServerPlayerIndex,
    line: Seq<char>,
)
    requires
        s.wf(),
        player_at(s.players, index) is Some,
    ensures
        keeps_clients(
            s,
            s.with_player(index, Some(player_at(s.players, index)->0.viewing(view))).told(
                line,
                index,
            ),
        ),
{
    let t = s.with_player(index, Some(player_at(s.players, index)->0.viewing(view)));
    assert forall|i: int, m: HQMMessageView|
        0 <= i < s.players.len() && inbox(s, i).contains(m) implies #[trigger] inbox(
        t,
        i,
    ).contains(m) by {
        assert(inbox(t, i) == inbox(s, i));
    }
    assert(t.wf());
    lemma_told_keeps(t, line, index);
    lemma_keeps_trans(s, t, t.told(line, index));
}

proof fn lemma_view_keeps(
    s: HQMServerView,
    view: HQMServerPlayerIndex,
    index: HQMServerPlayerIndex,
)
    requires
        s.wf(),
    ensures
        keeps_clients(s, s.after_view(view, index)),
{
    lemma_told_keeps(s, "No player with this ID exists"@, index);
    lemma_told_keeps(s, "You must be a spectator to change view"@, index);
    if player_at(s.players, index) is Some && player_at(s.players, view) is Some {
        let other = player_at(s.players, view)->0;
        lemma_viewing_keeps(s, index, view, "You are now viewing "@ + other.player_name);
        lemma_viewing_keeps(s, index, view, "View has been restored"@);
    }
}

proof fn lemma_lookup_keeps(
    s: HQMServerView,
    lookup: HQMLookupView,
    hint: Seq<char>,
    index: HQMServerPlayerIndex,
)
    requires
        s.wf(),
    ensures
        keeps_clients(s, s.after_failed_lookup(lookup, hint, index)),
{
    lemma_told_keeps(s, "No matches found"@, index);
    lemma_told_keeps(s, hint, index);
    if let HQMLookupView::Several(found) = lookup {
        lemma_lines_keep(s.told(hint, index), listing(found), index);
        lemma_keeps_trans(
            s,
            s.told(hint, index),
            s.told(hint, index).told_all(listing(found), index),
        );
    }
}

proof fn lemma_team_keeps(s: HQMServerView, message: Seq<char>, sender: HQMServerPlayerIndex)
    requires
        s.wf(),
    ensures
        keeps_clients(s, s.after_team_message(message, sender)),
{
    let t = s.after_team_message(message, sender);
    if player_at(s.players, sender) is Some && player_at(s.players, sender)->0.object is Some {
        assert forall|i: int, m: HQMMessageView|
            0 <= i < s.players.len() && inbox(s, i).contains(m) implies #[trigger] inbox(
            t,
            i,
        ).contains(m) by {
            let k = choose|k: int| 0 <= k < inbox(s, i).len() && inbox(s, i)[k] == m;
            if s.players[i] is Some {
                let was = s.players[i]->0.data.messages;
                let is = t.players[i]->0.data.messages;
                let more = is.len() - was.len();
                if k < was.len() {
                    assert(inbox(t, i)[k] == m);
                } else {
                    assert(inbox(t, i)[k + more] == m);
                }
            } else {
                assert(t.players[i] == s.players[i]);
                assert(inbox(t, i)[k] == m);
            }
        }
    }
}

proof fn lemma_ping_keeps(
    s: HQMServerView,
    pinged: HQMServerPlayerIndex,
    index: HQMServerPlayerIndex,
)
    requires
        s.wf(),
    ensures
        keeps_clients(s, s.after_ping(pinged, index).0),
{
    lemma_told_keeps(s, "No player with this ID exists"@, index);
}

/// No command makes a client miss anything, or moves it to another slot.
pub proof fn law_commands_keep_clients(
    s: HQMServerView,
    command: Seq<char>,
    arg: Seq<char>,
    index: HQMServerPlayerIndex,
)
    requires
        s.wf(),
    ensures
        keeps_clients(s, s.after_command(command, arg, index).0),
{
    let target = match parsed_index(arg) {
        Some(n) => n,
        None => 0,
    };
    lemma_lines_keep(
        s,
        listing(at_most(by_name(picked(s.players, from_slot(0), 0)), LISTED as nat)),
        index,
    );
    lemma_lines_keep(
        s,
        listing(at_most(by_name(picked(s.players, from_slot(target), 0)), LISTED as nat)),
        index,
    );
    lemma_told_keeps(s, "No matches found"@, index);
    lemma_lines_keep(s, listing(s.search(arg)), index);
    lemma_ping_keeps(s, HQMServerPlayerIndex(target), index);
    lemma_view_keeps(s, HQMServerPlayerIndex(target), index);
    if let HQMLookupView::One(found) = s.lookup(arg) {
        lemma_ping_keeps(s, found, index);
        lemma_view_keeps(s, found, index);
    }
    lemma_lookup_keeps(s, s.lookup(arg), "Multiple matches found, use /ping X"@, index);
    lemma_lookup_keeps(s, s.lookup(arg), "Multiple matches found, use /view X"@, index);
    if player_at(s.players, index) is Some {
        lemma_viewing_keeps(s, index, index, "View has been restored"@);
    }
    lemma_team_keeps(s, arg, index);
    lemma_told_keeps(s, "Stick limit is locked to 'no' on this server."@, index);
}

/// No chat line makes a client miss anything, or moves it to another slot.
pub proof fn law_chat_keeps_clients(
    s: HQMServerView,
    msg: Seq<char>,
    index: HQMServerPlayerIndex,
)
    requires
        s.wf(),
    ensures
        keeps_clients(s, s.after_chat(msg, index).0),
{
    if let Some(p) = player_at(s.players, index) {
        if is_command(msg) {
            law_commands_keep_clients(s, command_word(msg), command_arg(msg), index);
        } else {
            let t = s.after_plain_chat(msg, index, p.is_muted);
            let chat = chat_message(Some(index), msg);
            assert forall|i: int, m: HQMMessageView|
                0 <= i < s.players.len() && inbox(s, i).contains(m) implies #[trigger] inbox(
                t,
                i,
            ).contains(m) by {
                law_directed_messages(s, chat, index, i);
                law_global_messages(s, chat, false, true, i);
                let k = choose|k: int| 0 <= k < inbox(s, i).len() && inbox(s, i)[k] == m;
                assert(inbox(t, i)[k] == m);
            }
        }
    }
}

/// Whoever had missed nothing has missed nothing after a chat line.
pub proof fn law_chat_informs(s: HQMServerView, msg: Seq<char>, index: HQMServerPlayerIndex)
    requires
        s.wf(),
        informed(s),
    ensures
        informed(s.after_chat(msg, index).0),
{
    law_chat_keeps_clients(s, msg, index);
    let t = s.after_chat(msg, index).0;
    assert forall|i: int, m: HQMMessageView|
        0 <= i < t.players.len() && t.players[i] is Some
            && t.messages.persistent_messages.contains(m) implies #[trigger] inbox(
        t,
        i,
    ).contains(m) by {
        assert(inbox(s, i).contains(m));
    }
}

/// Clients that stay in their slots are found where they were.
proof fn lemma_same_slot(s: HQMServerView, t: HQMServerView, addr: HQMSocketAddr)
    requires
        s.wf(),
        keeps_clients(s, t),
    ensures
        t.slot_of(addr) == s.slot_of(addr),
{
    lemma_first_slot(s.players, lives_at(addr), 0);
    lemma_first_slot(t.players, lives_at(addr), 0);
    assert forall|j: int| 0 <= j < s.players.len() implies lives_at(addr)(
        #[trigger] s.players[j],
    ) == lives_at(addr)(t.players[j]) by {
        assert(t.players[j] is Some <==> s.players[j] is Some);
    }
}

/// Chat that a client repeats until it is acknowledged counts once: the second time,
/// nobody is told anything, and nothing is left to do.
pub proof fn law_repeated_chat(
    s: HQMServerView,
    addr: HQMSocketAddr,
    first: HQMClientUpdate,
    second: HQMClientUpdate,
    rep: u8,
    chat: Seq<char>,
    again: Seq<char>,
    first_time: u64,
    second_time: u64,
)
    requires
        s.wf(),
    ensures
        ({
            let (after, left) = s.after_update(addr, first, Some((rep, chat)), first_time);
            let (last, rest) = after.after_update(addr, second, Some((rep, again)), second_time);
            rest == HQMCommandActionView::Nothing && last.messages == after.messages
        }),
{
    let (after, left) = s.after_update(addr, first, Some((rep, chat)), first_time);
    lemma_first_slot(s.players, lives_at(addr), 0);
    if let Some(index) = s.slot_of(addr) {
        let p = player_at(s.players, index)->0;
        let controlled = s.after_controls(index, p, first, first_time);
        let q = player_at(controlled.players, index)->0;
        let heard = if p.data.chat_rep != Some(rep) {
            controlled.with_player(index, Some(q.heard(rep)))
        } else {
            controlled
        };
        assert(heard.wf());
        assert forall|j: int| 0 <= j < s.players.len() implies lives_at(addr)(
            #[trigger] s.players[j],
        ) == lives_at(addr)(heard.players[j]) by {
        }
        lemma_first_slot(heard.players, lives_at(addr), 0);
        assert(heard.slot_of(addr) == s.slot_of(addr));
        if p.data.chat_rep != Some(rep) {
            law_chat_keeps_clients(heard, chat, index);
            lemma_same_slot(heard, after, addr);
        }
        assert(after.slot_of(addr) == Some(index));
        assert(heard.players[index.0 as int] is Some);
        assert(after.players[index.0 as int] is Some);
        assert(player_at(after.players, index)->0.data.chat_rep == Some(rep));
    }
}

/// What a client says of itself keeps every client where it was, but for the chat
/// that the client was heard to say.
proof fn lemma_heard(
    s: HQMServerView,
    index: HQMServerPlayerIndex,
    update: HQMClientUpdate,
    time: u64,
    rep: Option<u8>,
)
    requires
        s.wf(),
        player_at(s.players, index) is Some,
    ensures
        ({
            let t = s.after_controls(index, player_at(s.players, index)->0, update, time);
            let q = player_at(t.players, index)->0;
            let heard = match rep {
                Some(rep) => t.with_player(index, Some(q.heard(rep))),
                None => t,
            };
            &&& heard.wf()
            &&& heard.messages == s.messages
            &&& forall|i: int|
                #![trigger heard.players[i]]
                0 <= i < s.players.len() ==> {
                    &&& heard.players[i] is Some <==> s.players[i] is Some
                    &&& s.players[i] is Some ==> heard.players[i]->0.data.addr
                        == s.players[i]->0.data.addr && heard.players[i]->0.data.messages
                        == s.players[i]->0.data.messages
                }
        }),
{
}

/// However a client updates what is known of it, nobody misses anything, and still no
/// two players come from the same address.
pub proof fn law_updates_inform(
    s: HQMServerView,
    addr: HQMSocketAddr,
    update: HQMClientUpdate,
    chat: Option<(u8, Seq<char>)>,
    time: u64,
)
    requires
        s.wf(),
    ensures
        informed(s) ==> informed(s.after_update(addr, update, chat, time).0),
        distinct_addresses(s.players) ==> distinct_addresses(
            s.after_update(addr, update, chat, time).0.players,
        ),
{
    lemma_first_slot(s.players, lives_at(addr), 0);
    if let Some(index) = s.slot_of(addr) {
        let p = player_at(s.players, index)->0;
        let after = s.after_controls(index, p, update, time);
        let new_rep = match chat {
            Some((rep, message)) => if p.data.chat_rep != Some(rep) {
                Some(rep)
            } else {
                None
            },
            None => None,
        };
        let heard = match new_rep {
            Some(rep) => after.with_player(
                index,
                Some(player_at(after.players, index)->0.heard(rep)),
            ),
            None => after,
        };
        lemma_heard(s, index, update, time, new_rep);
        assert forall|i: int, m: HQMMessageView|
            0 <= i < heard.players.len() && heard.players[i] is Some && informed(s)
                && heard.messages.persistent_messages.contains(m) implies #[trigger] inbox(
            heard,
            i,
        ).contains(m) by {
            assert(inbox(heard, i) == inbox(s, i));
        }
        if distinct_addresses(s.players) {
            assert forall|i: int, j: int|
                0 <= i < j < heard.players.len() && (#[trigger] heard.players[i]) is Some && (
                #[trigger] heard.players[j]) is Some implies heard.players[i]->0.data.addr
                != heard.players[j]->0.data.addr by {
                assert(s.players[i] is Some && s.players[j] is Some);
            }
        }
        if new_rep is Some {
            let message = (chat->0).1;
            let last = heard.after_chat(message, index).0;
            law_chat_keeps_clients(heard, message, index);
            if informed(s) {
                law_chat_informs(heard, message, index);
            }
            assert forall|i: int, j: int|
                distinct_addresses(s.players) && 0 <= i < j < last.players.len() && (
                #[trigger] last.players[i]) is Some && (
                #[trigger] last.players[j]) is Some implies last.players[i]->0.data.addr
                != last.players[j]->0.data.addr by {
                assert(heard.players[i] is Some && heard.players[j] is Some);
            }
        }
    }
}

/// When messages are handed out, when the silent grow older, and when a new game
/// begins, still no two players come from the same address.
pub proof fn law_addresses_stay_distinct(s: HQMServerView, values: HQMGameValues)
    requires
        s.wf(),
        distinct_addresses(s.players),
    ensures
        distinct_addresses(s.after_delivery().players),
        distinct_addresses(all_aged(s.players)),
        distinct_addresses(s.after_new_game(values).players),
{
    assert forall|i: int, j: int|
        0 <= i < j < s.players.len() && s.players[i] is Some
            && s.players[j] is Some implies s.players[i]->0.data.addr
        != s.players[j]->0.data.addr by {
    }
}

} // verus!
