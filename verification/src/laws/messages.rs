//! Laws on who is told what.

use crate::game::{HQMGameValues, HQMMuteStatus, HQMTeam};
use crate::message::{
    chat_message, HQMMessageView, HQMServerMessagesView, HQMWaitingMessageReceiver,
};
use crate::net::HQMSocketAddr;
use crate::player::{
    everyone, picked, player_at, HQMNetworkPlayerDataView, HQMServerPlayerIndex,
    HQMServerPlayerView, PINGS_KEPT,
};
use crate::replay::{all_restarted, introduced};
use crate::server::HQMServerView;
use crate::session::{addressed, lines_of, told_team};
use crate::text::is_command;
use crate::wire::MESSAGES_PER_UPDATE;
use vstd::prelude::*;

verus! {

/// One more waiting message is for those it is addressed to, behind all others.
proof fn lemma_addressed_push(
    waiting: Seq<(HQMWaitingMessageReceiver, HQMMessageView)>,
    receiver: HQMWaitingMessageReceiver,
    message: HQMMessageView,
    i: int,
)
    ensures
        addressed(waiting.push((receiver, message)), i) == if receiver.includes(i) {
            addressed(waiting, i).push(message)
        } else {
            addressed(waiting, i)
        },
{
    assert(waiting.push((receiver, message)).drop_last() =~= waiting);
}

/// What the player in a slot has been told, and what waits for that player.
pub open spec fn inbox(s: HQMServerView, i: int) -> Seq<HQMMessageView> {
    s.players[i]->0.data.messages + addressed(s.messages.waiting_messages, i)
}

/// Handing messages out brings every player exactly what waited for that player, in
/// order, and leaves nothing to wait.
pub proof fn law_delivery(s: HQMServerView, i: int)
    requires
        s.wf(),
        0 <= i < s.players.len(),
    ensures
        s.after_delivery().messages.waiting_messages.len() == 0,
        s.players[i] is None ==> s.after_delivery().players[i] is None,
        s.players[i] is Some ==> s.after_delivery().players[i] is Some
            && s.after_delivery().players[i]->0.data.messages == inbox(s, i) && inbox(
            s.after_delivery(),
            i,
        ) == inbox(s, i),
{
    if s.players[i] is Some {
        assert(inbox(s.after_delivery(), i) =~= inbox(s, i));
    }
}

/// What the server tells one player reaches that player and nobody else, and is
/// neither recorded nor told to those who join later.
pub proof fn law_directed_messages(
    s: HQMServerView,
    message: HQMMessageView,
    receiver: HQMServerPlayerIndex,
    i: int,
)
    requires
        s.wf(),
        0 <= i < s.players.len(),
    ensures
        ({
            let after = s.saying(s.messages.directed(message, receiver));
            &&& inbox(after, i) == if i == receiver.0 {
                inbox(s, i).push(message)
            } else {
                inbox(s, i)
            }
            &&& after.messages.persistent_messages == s.messages.persistent_messages
            &&& after.messages.replay_messages == s.messages.replay_messages
        }),
{
    let receiver = HQMWaitingMessageReceiver::Specific(receiver);
    lemma_addressed_push(s.messages.waiting_messages, receiver, message, i);
    let after = inbox(s.saying(s.messages.directed(message, receiver->Specific_0)), i);
    assert(i == receiver->Specific_0.0 ==> after =~= inbox(s, i).push(message));
}

/// What everyone is told reaches everyone.
pub proof fn law_global_messages(
    s: HQMServerView,
    message: HQMMessageView,
    persistent: bool,
    replay: bool,
    i: int,
)
    requires
        s.wf(),
        0 <= i < s.players.len(),
    ensures
        inbox(s.saying(s.messages.global(message, persistent, replay)), i) == inbox(s, i).push(
            message,
        ),
{
    lemma_addressed_push(
        s.messages.waiting_messages,
        HQMWaitingMessageReceiver::All,
        message,
        i,
    );
    assert(inbox(s.saying(s.messages.global(message, persistent, replay)), i) =~= inbox(
        s,
        i,
    ).push(message));
}

/// Plain chat reaches everyone; of a player who is muted in the shadows it reaches
/// that player alone; of one who is muted, or while the whole chat is, nobody.
pub proof fn law_plain_chat(
    s: HQMServerView,
    msg: Seq<char>,
    speaker: HQMServerPlayerIndex,
    i: int,
)
    requires
        s.wf(),
        player_at(s.players, speaker) is Some,
        !is_command(msg),
        0 <= i < s.players.len(),
    ensures
        ({
            let mute = player_at(s.players, speaker)->0.is_muted;
            let heard = !s.is_muted && (mute == HQMMuteStatus::NotMuted || (mute
                == HQMMuteStatus::ShadowMuted && i == speaker.0));
            inbox(s.after_chat(msg, speaker).0, i) == if heard {
                inbox(s, i).push(chat_message(Some(speaker), msg))
            } else {
                inbox(s, i)
            }
        }),
{
    let chat = chat_message(Some(speaker), msg);
    law_global_messages(s, chat, false, true, i);
    law_directed_messages(s, chat, speaker, i);
}

/// What is said to a team reaches its players at once, and nobody else; it is not
/// recorded, and not told to those who join later.
pub proof fn law_team_messages(
    s: HQMServerView,
    message: Seq<char>,
    sender: HQMServerPlayerIndex,
    team: HQMTeam,
    i: int,
)
    requires
        s.wf(),
        player_at(s.players, sender) is Some,
        player_at(s.players, sender)->0.plays_for(team),
        0 <= i < s.players.len(),
        s.players[i] is Some,
    ensures
        s.after_team_message(message, sender).messages == s.messages,
        s.after_team_message(message, sender).players[i] is Some,
        ({
            let told = s.after_team_message(message, sender).players[i]->0.data.messages;
            if s.players[i]->0.plays_for(team) {
                &&& told.len() == s.players[i]->0.data.messages.len() + 3
                &&& told.take(told.len() - 3) == s.players[i]->0.data.messages
                &&& told[told.len() - 2] == chat_message(Some(sender), message)
            } else {
                told == s.players[i]->0.data.messages
            }
        }),
{
    let p = player_at(s.players, sender)->0;
    let talk = s.team_talk(message, sender, p, team);
    let told = s.after_team_message(message, sender).players[i]->0.data.messages;
    assert(s.after_team_message(message, sender).players == told_team(s.players, team, talk));
    if s.players[i]->0.plays_for(team) {
        assert(told == s.players[i]->0.data.messages + talk);
        assert(told.take(told.len() - 3) =~= s.players[i]->0.data.messages);
    }
}

/// Whether every player has been told, or is about to be, everything that those who
/// join later are told.
pub open spec fn informed(s: HQMServerView) -> bool {
    forall|i: int, m: HQMMessageView|
        0 <= i < s.players.len() && s.players[i] is Some
            && s.messages.persistent_messages.contains(m) ==> #[trigger] inbox(s, i).contains(m)
}

/// Nobody misses what everyone is told.
pub proof fn law_global_messages_inform(
    s: HQMServerView,
    message: HQMMessageView,
    persistent: bool,
    replay: bool,
)
    requires
        s.wf(),
        informed(s),
    ensures
        informed(s.saying(s.messages.global(message, persistent, replay))),
{
    let after = s.saying(s.messages.global(message, persistent, replay));
    assert forall|i: int, m: HQMMessageView|
        0 <= i < after.players.len() && after.players[i] is Some
            && after.messages.persistent_messages.contains(m) implies #[trigger] inbox(
        after,
        i,
    ).contains(m) by {
        law_global_messages(s, message, persistent, replay, i);
        lemma_push_contains(inbox(s, i), message, m);
        lemma_push_contains(s.messages.persistent_messages, message, m);
    }
}

/// What a list with one more member contains.
proof fn lemma_push_contains<T>(s: Seq<T>, x: T, y: T)
    ensures
        s.push(x).contains(y) <==> s.contains(y) || x == y,
{
    if s.contains(y) {
        let k = choose|k: int| 0 <= k < s.len() && s[k] == y;
        assert(s.push(x)[k] == y);
    }
    assert(s.push(x)[s.len() as int] == x);
}

/// Nobody misses anything because one player is told something.
pub proof fn law_directed_messages_inform(
    s: HQMServerView,
    message: HQMMessageView,
    receiver: HQMServerPlayerIndex,
)
    requires
        s.wf(),
        informed(s),
    ensures
        informed(s.saying(s.messages.directed(message, receiver))),
{
    let after = s.saying(s.messages.directed(message, receiver));
    assert forall|i: int, m: HQMMessageView|
        0 <= i < after.players.len() && after.players[i] is Some
            && after.messages.persistent_messages.contains(m) implies #[trigger] inbox(
        after,
        i,
    ).contains(m) by {
        law_directed_messages(s, message, receiver, i);
        lemma_push_contains(inbox(s, i), message, m);
    }
}

/// Nobody misses anything because one player is told several things.
proof fn lemma_told_all_informs(
    s: HQMServerView,
    lines: Seq<Seq<char>>,
    receiver: HQMServerPlayerIndex,
)
    requires
        s.wf(),
        informed(s),
    ensures
        informed(s.told_all(lines, receiver)),
        s.told_all(lines, receiver).wf(),
    decreases lines.len(),
{
    if lines.len() > 0 {
        lemma_told_all_informs(s, lines.drop_last(), receiver);
        let before = s.told_all(lines.drop_last(), receiver);
        law_directed_messages_inform(before, chat_message(None, lines.last()), receiver);
        assert(s.told_all(lines, receiver) == before.saying(
            before.messages.directed(chat_message(None, lines.last()), receiver),
        ));
    } else {
        assert(s.told_all(lines, receiver) == s);
    }
}

/// Nobody misses anything when messages are handed out.
pub proof fn law_delivery_informs(s: HQMServerView)
    requires
        s.wf(),
        informed(s),
    ensures
        informed(s.after_delivery()),
{
    let after = s.after_delivery();
    assert forall|i: int, m: HQMMessageView|
        0 <= i < after.players.len() && after.players[i] is Some
            && after.messages.persistent_messages.contains(m) implies #[trigger] inbox(
        after,
        i,
    ).contains(m) by {
        law_delivery(s, i);
        assert(inbox(s, i).contains(m));
    }
}

/// A newcomer has missed nothing: everything that those who join later are told is
/// the first that the newcomer is told; and the others miss nothing either.
pub proof fn law_newcomers_are_informed(
    s: HQMServerView,
    index: HQMServerPlayerIndex,
    name: Seq<char>,
    addr: HQMSocketAddr,
    id: u128,
)
    requires
        s.wf(),
        informed(s),
        index.0 < s.players.len(),
    ensures
        s.with_newcomer(index, name, addr, id).players[index.0 as int]->0.data.messages
            == s.messages.persistent_messages,
        informed(s.with_newcomer(index, name, addr, id)),
{
    let p = HQMServerPlayerView::connected(
        index,
        name,
        addr,
        s.messages.persistent_messages,
        id,
    );
    let seated = s.with_player(index, Some(p));
    assert forall|i: int, m: HQMMessageView|
        0 <= i < seated.players.len() && seated.players[i] is Some
            && seated.messages.persistent_messages.contains(m) implies #[trigger] inbox(
        seated,
        i,
    ).contains(m) by {
        if i == index.0 {
            let k = choose|k: int|
                0 <= k < s.messages.persistent_messages.len()
                    && s.messages.persistent_messages[k] == m;
            assert(inbox(seated, i)[k] == m);
        } else {
            assert(inbox(seated, i) == inbox(s, i));
        }
    }
    assert(seated.wf());
    let shown = seated.saying(seated.messages.global(p.update_message(index), true, true));
    law_global_messages_inform(seated, p.update_message(index), true, true);
    let welcome = lines_of(s.config.welcome@);
    lemma_told_all_informs(shown, welcome, index);
    assert(s.with_newcomer(index, name, addr, id) == shown.told_all(welcome, index));
}

/// Nobody misses anything when a player goes.
pub proof fn law_departures_inform(
    s: HQMServerView,
    index: HQMServerPlayerIndex,
    on_replay: bool,
)
    requires
        s.wf(),
        informed(s),
    ensures
        informed(s.without_player(index, on_replay)),
{
    if let Some(p) = player_at(s.players, index) {
        let seated = s.with_player(index, None);
        assert forall|i: int, m: HQMMessageView|
            0 <= i < seated.players.len() && seated.players[i] is Some
                && seated.messages.persistent_messages.contains(m) implies #[trigger] inbox(
            seated,
            i,
        ).contains(m) by {
            assert(inbox(seated, i) == inbox(s, i));
        }
        law_global_messages_inform(seated, p.gone_message(index), true, on_replay);
        let shown = seated.saying(seated.messages.global(p.gone_message(index), true, on_replay));
        let after = s.without_player(index, on_replay);
        assert forall|i: int, m: HQMMessageView|
            0 <= i < after.players.len() && after.players[i] is Some
                && after.messages.persistent_messages.contains(m) implies #[trigger] inbox(
            after,
            i,
        ).contains(m) by {
            assert(inbox(after, i) == inbox(shown, i));
        }
    }
}

/// Nobody misses anything when a player joins a team or leaves it.
pub proof fn law_assignments_inform(
    s: HQMServerView,
    index: HQMServerPlayerIndex,
    player: HQMServerPlayerView,
)
    requires
        s.wf(),
        informed(s),
        player_at(s.players, index) is Some,
        player.data.messages == player_at(s.players, index)->0.data.messages,
        player.data.last_ping.len() <= PINGS_KEPT,
    ensures
        informed(s.with_assignment(index, player)),
{
    let seated = s.with_player(index, Some(player));
    assert forall|i: int, m: HQMMessageView|
        0 <= i < seated.players.len() && seated.players[i] is Some
            && seated.messages.persistent_messages.contains(m) implies #[trigger] inbox(
        seated,
        i,
    ).contains(m) by {
        assert(inbox(seated, i) == inbox(s, i));
    }
    law_global_messages_inform(seated, player.update_message(index), true, true);
}

/// What those who join later are told of players who were introduced, and what
/// waits for everyone.
pub proof fn lemma_introduced(
    players: Seq<(HQMServerPlayerIndex, HQMServerPlayerView)>,
    i: int,
)
    ensures
        introduced(HQMServerMessagesView::none(), players).persistent_messages
            == introductions(players),
        introduced(HQMServerMessagesView::none(), players).replay_messages == introductions(
            players,
        ),
        addressed(introduced(HQMServerMessagesView::none(), players).waiting_messages, i)
            == introductions(players),
    decreases players.len(),
{
    let m = introduced(HQMServerMessagesView::none(), players);
    if players.len() > 0 {
        lemma_introduced(players.drop_last(), i);
        let (index, p) = players.last();
        let before = introduced(HQMServerMessagesView::none(), players.drop_last());
        lemma_addressed_push(
            before.waiting_messages,
            HQMWaitingMessageReceiver::All,
            p.update_message(index),
            i,
        );
        assert(introductions(players) =~= introductions(players.drop_last()).push(
            p.update_message(index),
        ));
    } else {
        assert(introductions(players) =~= seq![]);
    }
}

/// What everyone is told of players.
pub open spec fn introductions(
    players: Seq<(HQMServerPlayerIndex, HQMServerPlayerView)>,
) -> Seq<HQMMessageView> {
    Seq::new(players.len(), |k: int| players[k].1.update_message(players[k].0))
}

/// When a new game begins, everyone is told of every player, in the order of their
/// slots, and of nothing else; and that is what those who join later are told.
pub proof fn law_new_games_inform(s: HQMServerView, values: HQMGameValues, i: int)
    requires
        s.wf(),
        0 <= i < s.players.len(),
    ensures
        informed(s.after_new_game(values)),
        s.players[i] is Some ==> inbox(s.after_new_game(values), i) == introductions(
            picked(all_restarted(s.players), everyone(), 0),
        ),
{
    let after = s.after_new_game(values);
    let players = picked(all_restarted(s.players), everyone(), 0);
    assert forall|j: int| 0 <= j < s.players.len() && s.players[j] is Some implies #[trigger] inbox(
        after,
        j,
    ) == introductions(players) by {
        lemma_introduced(players, j);
        assert(inbox(after, j) =~= introductions(players));
    }
    lemma_introduced(players, i);
    assert forall|j: int, m: HQMMessageView|
        0 <= j < after.players.len() && after.players[j] is Some
            && after.messages.persistent_messages.contains(m) implies #[trigger] inbox(
        after,
        j,
    ).contains(m) by {
        assert(s.players[j] is Some);
        assert(inbox(after, j) == introductions(players));
    }
}

/// What a client has been told of a list of messages once it has taken in a number
/// of updates, each of which it acknowledged.
pub open spec fn read_after(data: HQMNetworkPlayerDataView, updates: nat) -> Seq<HQMMessageView>
    decreases updates,
{
    if updates == 0 {
        seq![]
    } else {
        data.unread() + read_after(
            HQMNetworkPlayerDataView {
                known_msgpos: (data.unread_from() + data.unread_count()) as usize,
                ..data
            },
            (updates - 1) as nat,
        )
    }
}

/// A client that acknowledges its updates is told every message that it has not
/// acknowledged, once and in order, and at most so many at a time.
pub proof fn law_updates(data: HQMNetworkPlayerDataView, updates: nat)
    requires
        data.messages.len() <= usize::MAX,
    ensures
        data.unread().len() <= MESSAGES_PER_UPDATE,
        read_after(data, updates) == if data.messages.len() - data.unread_from()
            <= MESSAGES_PER_UPDATE * updates {
            data.messages.skip(data.unread_from())
        } else {
            data.messages.subrange(
                data.unread_from(),
                data.unread_from() + MESSAGES_PER_UPDATE * updates,
            )
        },
    decreases updates,
{
    let from = data.unread_from();
    if updates == 0 {
        assert(data.messages.subrange(from, from) =~= seq![]);
        assert(data.messages.len() == from ==> data.messages.skip(from) =~= seq![]);
    } else {
        let next = HQMNetworkPlayerDataView {
            known_msgpos: (data.unread_from() + data.unread_count()) as usize,
            ..data
        };
        law_updates(next, (updates - 1) as nat);
        let all = if data.messages.len() - from <= MESSAGES_PER_UPDATE * updates {
            data.messages.skip(from)
        } else {
            data.messages.subrange(from, from + MESSAGES_PER_UPDATE * updates)
        };
        assert(read_after(data, updates) =~= all);
    }
}

} // verus!
