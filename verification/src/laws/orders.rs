//! Laws on what chat lines and commands do.

use crate::commands::{HQMCommandActionView, HQMLookupView};
use crate::game::{HQMMuteStatus, HQMSkaterHand};
use crate::lookup::{from_slot, is_like, listing, LISTED};
use crate::matches::{at_most, by_name};
use crate::message::{HQMMessageView, HQMWaitingMessageReceiver};
use crate::player::{
    lemma_picked_complete, lemma_picked_ordered, lemma_picked_sound, picked, player_at,
    HQMNetworkPlayerDataView, HQMServerPlayerIndex, HQMServerPlayerView,
};
use crate::server::HQMServerView;
use crate::text::{
    command_arg, command_word, decimal_text, is_command, lower_text, numbered_line, occurs_in,
    parsed_index, space_from,
};
use super::lists::law_several_lines_for_one;
use vstd::prelude::*;

verus! {

/// A line of a listing is the number in decimal, a colon, a space, and the name.
pub proof fn law_lines(n: usize, name: Seq<char>)
    ensures
        ({
            let line = numbered_line(n, name);
            let digits = decimal_text(n as nat);
            &&& line.len() == digits.len() + 2 + name.len()
            &&& line.take(digits.len() as int) == digits
            &&& line[digits.len() as int] == ':'
            &&& line[digits.len() + 1int] == ' '
            &&& line.skip(digits.len() + 2int) == name
        }),
{
    reveal_strlit(": ");
    let digits = decimal_text(n as nat);
    assert(numbered_line(n, name).take(digits.len() as int) =~= digits);
    assert(numbered_line(n, name).skip(digits.len() + 2int) =~= name);
}

proof fn lemma_space_behind(s: Seq<char>, from: int, to: int)
    requires
        0 <= from <= to <= s.len(),
        forall|i: int| from <= i < to ==> s[i] != ' ',
        to < s.len() ==> s[to] == ' ',
    ensures
        space_from(s, from) == to,
    decreases to - from,
{
    if from < to {
        lemma_space_behind(s, from + 1, to);
    }
}

/// A slash, a word without spaces, a space and anything else is a command: the word is
/// its word, and what stands behind the space is its argument, spaces and all.
pub proof fn law_commands_with_an_argument(word: Seq<char>, arg: Seq<char>)
    requires
        forall|i: int| 0 <= i < word.len() ==> word[i] != ' ',
    ensures
        ({
            let line = seq!['/'] + word + seq![' '] + arg;
            is_command(line) && command_word(line) == word && command_arg(line) == arg
        }),
{
    let line = seq!['/'] + word + seq![' '] + arg;
    lemma_space_behind(line, 1, 1int + word.len());
    assert(command_word(line) =~= word);
    assert(command_arg(line) =~= arg);
}

/// A slash and a word without spaces is a command without an argument.
pub proof fn law_commands_without_an_argument(word: Seq<char>)
    requires
        forall|i: int| 0 <= i < word.len() ==> word[i] != ' ',
    ensures
        ({
            let line = seq!['/'] + word;
            is_command(line) && command_word(line) == word && command_arg(line).len() == 0
        }),
{
    let line = seq!['/'] + word;
    lemma_space_behind(line, 1, 1int + word.len());
    assert(command_word(line) =~= word);
}

/// What does not begin with a slash is no command.
pub proof fn law_plain_lines(line: Seq<char>)
    ensures
        is_command(line) <==> line.len() > 0 && line[0] == '/',
{
}

/// The slots of the first few players of whom something holds, in order: nobody is left
/// out but behind the last of a full list.
pub open spec fn first_few(
    players: Seq<Option<HQMServerPlayerView>>,
    holds: spec_fn(int, HQMServerPlayerView) -> bool,
    found: Seq<HQMServerPlayerIndex>,
) -> bool {
    &&& found.len() <= 5
    &&& forall|k: int|
        0 <= k < found.len() ==> {
            let i = (#[trigger] found[k]).0;
            i < players.len() && players[i as int] is Some && holds(i as int, players[i as int]->0)
        }
    &&& forall|j: int, k: int|
        0 <= j < k < found.len() ==> (#[trigger] found[j]).0 < (#[trigger] found[k]).0
    &&& forall|i: int|
        0 <= i < players.len() && (#[trigger] players[i]) is Some && holds(i, players[i]->0) ==> (
        found.contains(HQMServerPlayerIndex(i as usize)) || (found.len() == 5 && found.last().0
            < i))
}

/// Slots of players.
pub open spec fn slots_of(found: Seq<(HQMServerPlayerIndex, Seq<char>)>) -> Seq<
    HQMServerPlayerIndex,
> {
    Seq::new(found.len(), |k: int| found[k].0)
}

proof fn lemma_first_few(
    players: Seq<Option<HQMServerPlayerView>>,
    p: spec_fn(HQMServerPlayerIndex, HQMServerPlayerView) -> bool,
    holds: spec_fn(int, HQMServerPlayerView) -> bool,
)
    requires
        players.len() <= usize::MAX,
        forall|i: int, q: HQMServerPlayerView|
            0 <= i < players.len() ==> #[trigger] holds(i, q) == p(
                HQMServerPlayerIndex(i as usize),
                q,
            ),
    ensures
        ({
            let found = at_most(by_name(picked(players, p, 0)), LISTED as nat);
            &&& first_few(players, holds, slots_of(found))
            &&& forall|k: int|
                0 <= k < found.len() ==> (#[trigger] found[k]).1 == players[found[k].0.0 as int]->0
                    .player_name
        }),
{
    let all = picked(players, p, 0);
    let found = at_most(by_name(all), LISTED as nat);
    let slots = slots_of(found);
    assert forall|k: int| 0 <= k < slots.len() implies {
        let i = (#[trigger] slots[k]).0;
        i < players.len() && players[i as int] is Some && holds(i as int, players[i as int]->0)
    } by {
        lemma_picked_sound(players, p, 0, k);
        assert(found[k] == by_name(all)[k]);
        assert(holds(slots[k].0 as int, all[k].1) == p(slots[k], all[k].1));
    }
    assert forall|j: int, k: int| 0 <= j < k < slots.len() implies (#[trigger] slots[j]).0 < (
    #[trigger] slots[k]).0 by {
        lemma_picked_ordered(players, p, 0, j, k);
        assert(found[j] == by_name(all)[j] && found[k] == by_name(all)[k]);
    }
    assert forall|i: int|
        0 <= i < players.len() && (#[trigger] players[i]) is Some && holds(
            i,
            players[i]->0,
        ) implies slots.contains(HQMServerPlayerIndex(i as usize)) || (slots.len() == 5
        && slots.last().0 < i) by {
        let k = lemma_picked_complete(players, p, 0, i);
        if k < slots.len() {
            assert(found[k] == by_name(all)[k]);
            assert(slots[k] == HQMServerPlayerIndex(i as usize));
        } else {
            lemma_picked_ordered(players, p, 0, slots.len() - 1, k);
            assert(found[slots.len() - 1] == by_name(all)[slots.len() - 1]);
        }
    }
    assert forall|k: int| 0 <= k < found.len() implies (#[trigger] found[k]).1
        == players[found[k].0.0 as int]->0.player_name by {
        lemma_picked_sound(players, p, 0, k);
        assert(found[k] == by_name(all)[k]);
    }
}

/// What waits for a player who was shown a listing of the players in some slots: a line
/// for each, with the slot and the name.
pub open spec fn listed_to(
    s: HQMServerView,
    t: HQMServerView,
    receiver: HQMServerPlayerIndex,
    slots: Seq<HQMServerPlayerIndex>,
) -> bool {
    &&& t == (HQMServerView { messages: t.messages, ..s })
    &&& t.messages.persistent_messages == s.messages.persistent_messages
    &&& t.messages.replay_messages == s.messages.replay_messages
    &&& t.messages.waiting_messages == s.messages.waiting_messages + Seq::new(
        slots.len(),
        |k: int|
            (
                HQMWaitingMessageReceiver::Specific(receiver),
                HQMMessageView::Chat {
                    player_index: None,
                    message: numbered_line(
                        slots[k].0,
                        player_at(s.players, slots[k])->0.player_name,
                    ),
                },
            ),
    )
}

proof fn lemma_listed(
    s: HQMServerView,
    found: Seq<(HQMServerPlayerIndex, Seq<char>)>,
    receiver: HQMServerPlayerIndex,
)
    requires
        forall|k: int|
            0 <= k < found.len() ==> (#[trigger] found[k]).0.0 < s.players.len() && found[k].1
                == s.players[found[k].0.0 as int]->0.player_name,
    ensures
        listed_to(s, s.told_all(listing(found), receiver), receiver, slots_of(found)),
{
    law_several_lines_for_one(s, listing(found), receiver);
    let t = s.told_all(listing(found), receiver);
    let slots = slots_of(found);
    assert(t.messages.waiting_messages =~= s.messages.waiting_messages + Seq::new(
        slots.len(),
        |k: int|
            (
                HQMWaitingMessageReceiver::Specific(receiver),
                HQMMessageView::Chat {
                    player_index: None,
                    message: numbered_line(
                        slots[k].0,
                        player_at(s.players, slots[k])->0.player_name,
                    ),
                },
            ),
    ));
}

/// A player who asks for a list is shown the first five players from the slot on that was
/// asked for.
pub proof fn law_lists(s: HQMServerView, receiver: HQMServerPlayerIndex, first: usize)
    requires
        s.wf(),
    ensures
        exists|slots: Seq<HQMServerPlayerIndex>|
            first_few(s.players, |i: int, p: HQMServerPlayerView| i >= first, slots)
                && #[trigger] listed_to(s, s.after_list(receiver, first), receiver, slots),
{
    let found = at_most(by_name(picked(s.players, from_slot(first), 0)), LISTED as nat);
    lemma_first_few(
        s.players,
        from_slot(first),
        |i: int, p: HQMServerPlayerView| i >= first,
    );
    assert forall|k: int| 0 <= k < found.len() implies (#[trigger] found[k]).0.0 < s.players.len()
        && found[k].1 == s.players[found[k].0.0 as int]->0.player_name by {
        assert(slots_of(found)[k] == found[k].0);
    }
    lemma_listed(s, found, receiver);
    assert(listed_to(s, s.after_list(receiver, first), receiver, slots_of(found)));
}

/// A search finds the first five players whose name contains the text, whatever the case
/// of the letters.
pub proof fn law_searches(s: HQMServerView, text: Seq<char>)
    requires
        s.wf(),
    ensures
        first_few(
            s.players,
            |i: int, p: HQMServerPlayerView|
                occurs_in(lower_text(text), lower_text(p.player_name)),
            slots_of(s.search(text)),
        ),
{
    lemma_first_few(
        s.players,
        is_like(text),
        |i: int, p: HQMServerPlayerView| occurs_in(lower_text(text), lower_text(p.player_name)),
    );
}

/// A player who searches is shown those who were found, or told that nobody was.
pub proof fn law_search_results(
    s: HQMServerView,
    receiver: HQMServerPlayerIndex,
    text: Seq<char>,
)
    requires
        s.wf(),
    ensures
        s.search(text).len() == 0 ==> s.after_search(receiver, text) == s.told(
            "No matches found"@,
            receiver,
        ),
        s.search(text).len() > 0 ==> listed_to(
            s,
            s.after_search(receiver, text),
            receiver,
            slots_of(s.search(text)),
        ),
{
    law_searches(s, text);
    lemma_first_few(
        s.players,
        is_like(text),
        |i: int, p: HQMServerPlayerView| occurs_in(lower_text(text), lower_text(p.player_name)),
    );
    let found = s.search(text);
    assert forall|k: int| 0 <= k < found.len() implies (#[trigger] found[k]).0.0 < s.players.len()
        && found[k].1 == s.players[found[k].0.0 as int]->0.player_name by {
        assert(slots_of(found)[k] == found[k].0);
    }
    lemma_listed(s, found, receiver);
}

/// One text occurs in another exactly if it can be cut out of it.
pub proof fn law_parts_of_texts(before: Seq<char>, needle: Seq<char>, behind: Seq<char>)
    ensures
        occurs_in(needle, before + needle + behind),
{
    let hay = before + needle + behind;
    let i = before.len() as int;
    assert(hay.subrange(i, i + needle.len()) =~= needle);
}

/// What occurs in a text can be cut out of it.
pub proof fn law_texts_hold_their_parts(needle: Seq<char>, hay: Seq<char>)
    requires
        occurs_in(needle, hay),
    ensures
        exists|before: Seq<char>, behind: Seq<char>|
            hay == #[trigger] (before + needle + behind),
{
    let i = choose|i: int|
        0 <= i <= hay.len() - needle.len() && #[trigger] hay.subrange(i, i + needle.len())
            == needle;
    let before = hay.take(i);
    let behind = hay.skip(i + needle.len());
    assert(hay =~= before + needle + behind);
}

/// A text means the player of that name if exactly one player has it; else the player
/// whose name contains it, if that is exactly one; else nobody, or all who were found.
pub proof fn law_lookups(s: HQMServerView, name: Seq<char>)
    requires
        s.wf(),
    ensures
        s.unique_match(name) is Some ==> s.lookup(name) == HQMLookupView::One(
            (s.unique_match(name)->0).0,
        ),
        s.unique_match(name) is None ==> {
            let found = s.search(name);
            &&& found.len() == 0 ==> s.lookup(name) is Nobody
            &&& found.len() == 1 ==> s.lookup(name) == HQMLookupView::One(found[0].0)
            &&& found.len() > 1 ==> s.lookup(name) == HQMLookupView::Several(found)
        },
{
}

/// A player is told that a text means nobody; of several players, what to do, and who
/// they are.
pub proof fn law_failed_lookups(
    s: HQMServerView,
    name: Seq<char>,
    hint: Seq<char>,
    index: HQMServerPlayerIndex,
)
    requires
        s.wf(),
    ensures
        s.after_failed_lookup(HQMLookupView::Nobody, hint, index) == s.told(
            "No matches found"@,
            index,
        ),
        listed_to(
            s.told(hint, index),
            s.after_failed_lookup(HQMLookupView::Several(s.search(name)), hint, index),
            index,
            slots_of(s.search(name)),
        ),
{
    lemma_first_few(
        s.players,
        is_like(name),
        |i: int, p: HQMServerPlayerView| occurs_in(lower_text(name), lower_text(p.player_name)),
    );
    let found = s.search(name);
    assert forall|k: int| 0 <= k < found.len() implies (#[trigger] found[k]).0.0 < s.players.len()
        && found[k].1 == s.players[found[k].0.0 as int]->0.player_name by {
        assert(slots_of(found)[k] == found[k].0);
    }
    lemma_listed(s.told(hint, index), found, index);
}

/// A spectator who asks for it sees the rink through the eyes of another, and is told
/// whose. Nothing else of the player changes.
pub proof fn law_other_views(
    s: HQMServerView,
    view: HQMServerPlayerIndex,
    index: HQMServerPlayerIndex,
)
    requires
        s.wf(),
        player_at(s.players, view) is Some,
        player_at(s.players, index) is Some,
    ensures
        ({
            let p = player_at(s.players, index)->0;
            let t = s.after_view(view, index);
            let q = t.players[index.0 as int]->0;
            let name = player_at(s.players, view)->0.player_name;
            let turned = s.with_player(index, Some(q));
            &&& p.object is Some ==> t == s.told(
                "You must be a spectator to change view"@,
                index,
            )
            &&& p.object is None ==> {
                &&& q.data.view_player_index == view
                &&& q == (HQMServerPlayerView {
                    data: HQMNetworkPlayerDataView {
                        view_player_index: q.data.view_player_index,
                        ..p.data
                    },
                    ..p
                })
                &&& p.data.view_player_index == view ==> t == s
                &&& p.data.view_player_index != view && view != index ==> t == turned.told(
                    "You are now viewing "@ + name,
                    index,
                )
                &&& p.data.view_player_index != view && view == index ==> t == turned.told(
                    "View has been restored"@,
                    index,
                )
            }
        }),
{
}

/// Nobody can be seen through who is not there; someone who is not there sees nothing.
pub proof fn law_no_views(
    s: HQMServerView,
    view: HQMServerPlayerIndex,
    index: HQMServerPlayerIndex,
)
    ensures
        player_at(s.players, view) is None ==> s.after_view(view, index) == s.told(
            "No player with this ID exists"@,
            index,
        ),
        player_at(s.players, view) is Some && player_at(s.players, index) is None
            ==> s.after_view(view, index) == s,
{
}

/// A player who asks for it sees the rink through the own eyes again, on the rink or not,
/// and is told so if that is new.
pub proof fn law_own_views(s: HQMServerView, index: HQMServerPlayerIndex)
    requires
        s.wf(),
    ensures
        ({
            let t = s.after_restore_view(index);
            let p = player_at(s.players, index)->0;
            let q = t.players[index.0 as int]->0;
            &&& player_at(s.players, index) is None ==> t == s
            &&& player_at(s.players, index) is Some ==> {
                &&& q.data.view_player_index == index
                &&& q == (HQMServerPlayerView {
                    data: HQMNetworkPlayerDataView {
                        view_player_index: q.data.view_player_index,
                        ..p.data
                    },
                    ..p
                })
                &&& p.data.view_player_index == index ==> t == s
                &&& p.data.view_player_index != index ==> t == s.with_player(index, Some(q)).told(
                    "View has been restored"@,
                    index,
                )
            }
        }),
{
}

/// The round-trip times that are reported are those of the player asked for, under that
/// player's name; who is not there has none.
pub proof fn law_reported_pings(
    s: HQMServerView,
    pinged: HQMServerPlayerIndex,
    index: HQMServerPlayerIndex,
)
    ensures
        ({
            let (t, left) = s.after_ping(pinged, index);
            match player_at(s.players, pinged) {
                Some(p) => {
                    &&& t == s
                    &&& left is ReportPing
                    &&& left->player_name == p.player_name
                    &&& left->pings == p.data.last_ping
                },
                None => {
                    &&& t == s.told("No player with this ID exists"@, index)
                    &&& left is Nothing
                },
            }
        }),
{
}

/// No two words of commands have both their length and their first letter in common.
proof fn lemma_words()
    ensures
        "enablejoin"@.len() == 10 && "enablejoin"@[0] == 'e',
        "disablejoin"@.len() == 11 && "disablejoin"@[0] == 'd',
        "mute"@.len() == 4 && "mute"@[0] == 'm',
        "unmute"@.len() == 6 && "unmute"@[0] == 'u',
        "mutechat"@.len() == 8 && "mutechat"@[0] == 'm',
        "unmutechat"@.len() == 10 && "unmutechat"@[0] == 'u',
        "kick"@.len() == 4 && "kick"@[0] == 'k',
        "kickall"@.len() == 7 && "kickall"@[0] == 'k',
        "ban"@.len() == 3 && "ban"@[0] == 'b',
        "banall"@.len() == 6 && "banall"@[0] == 'b',
        "clearbans"@.len() == 9 && "clearbans"@[0] == 'c',
        "lefty"@.len() == 5 && "lefty"@[0] == 'l',
        "righty"@.len() == 6 && "righty"@[0] == 'r',
        "admin"@.len() == 5 && "admin"@[0] == 'a',
        "serverrestart"@.len() == 13 && "serverrestart"@[0] == 's',
        "list"@.len() == 4 && "list"@[0] == 'l',
        "search"@.len() == 6 && "search"@[0] == 's',
        "ping"@.len() == 4 && "ping"@[0] == 'p',
        "pings"@.len() == 5 && "pings"@[0] == 'p',
        "view"@.len() == 4 && "view"@[0] == 'v',
        "views"@.len() == 5 && "views"@[0] == 'v',
        "restoreview"@.len() == 11 && "restoreview"@[0] == 'r',
        "t"@.len() == 1 && "t"@[0] == 't',
        "lm"@.len() == 2 && "lm"@[0] == 'l',
{
    reveal_strlit("enablejoin");
    reveal_strlit("disablejoin");
    reveal_strlit("mute");
    reveal_strlit("unmute");
    reveal_strlit("mutechat");
    reveal_strlit("unmutechat");
    reveal_strlit("kick");
    reveal_strlit("kickall");
    reveal_strlit("ban");
    reveal_strlit("banall");
    reveal_strlit("clearbans");
    reveal_strlit("lefty");
    reveal_strlit("righty");
    reveal_strlit("admin");
    reveal_strlit("serverrestart");
    reveal_strlit("list");
    reveal_strlit("search");
    reveal_strlit("ping");
    reveal_strlit("pings");
    reveal_strlit("view");
    reveal_strlit("views");
    reveal_strlit("restoreview");
    reveal_strlit("t");
    reveal_strlit("lm");
}

/// The commands of administrators are left to be carried out, with what they name; those
/// that need a slot come to nothing without one. They change nothing by themselves.
pub proof fn law_commands_of_administrators(
    s: HQMServerView,
    arg: Seq<char>,
    index: HQMServerPlayerIndex,
)
    ensures
        s.after_command("enablejoin"@, arg, index) == (s, HQMCommandActionView::SetAllowJoin(true)),
        s.after_command("disablejoin"@, arg, index) == (
            s,
            HQMCommandActionView::SetAllowJoin(false),
        ),
        s.after_command("mutechat"@, arg, index) == (s, HQMCommandActionView::MuteChat),
        s.after_command("unmutechat"@, arg, index) == (s, HQMCommandActionView::UnmuteChat),
        s.after_command("kickall"@, arg, index) == (
            s,
            HQMCommandActionView::KickAllMatching { name: arg, ban: false },
        ),
        s.after_command("banall"@, arg, index) == (
            s,
            HQMCommandActionView::KickAllMatching { name: arg, ban: true },
        ),
        s.after_command("clearbans"@, arg, index) == (s, HQMCommandActionView::ClearBans),
        s.after_command("admin"@, arg, index) == (
            s,
            HQMCommandActionView::AdminLogin { password: arg },
        ),
        s.after_command("serverrestart"@, arg, index) == (s, HQMCommandActionView::RestartServer),
        parsed_index(arg) is Some ==> {
            let target = HQMServerPlayerIndex(parsed_index(arg)->0);
            &&& s.after_command("mute"@, arg, index) == (
                s,
                HQMCommandActionView::MutePlayer(target),
            )
            &&& s.after_command("unmute"@, arg, index) == (
                s,
                HQMCommandActionView::UnmutePlayer(target),
            )
            &&& s.after_command("kick"@, arg, index) == (
                s,
                HQMCommandActionView::KickPlayer { player_index: target, ban: false },
            )
            &&& s.after_command("ban"@, arg, index) == (
                s,
                HQMCommandActionView::KickPlayer { player_index: target, ban: true },
            )
        },
        parsed_index(arg) is None ==> {
            let nothing = (s, HQMCommandActionView::Nothing);
            &&& s.after_command("mute"@, arg, index) == nothing
            &&& s.after_command("unmute"@, arg, index) == nothing
            &&& s.after_command("kick"@, arg, index) == nothing
            &&& s.after_command("ban"@, arg, index) == nothing
        },
{
    lemma_words();
}

/// The commands of players do what they ask for: of a slot what the argument names, of a
/// name whom it means.
pub proof fn law_commands_of_players(
    s: HQMServerView,
    arg: Seq<char>,
    index: HQMServerPlayerIndex,
)
    ensures
        s.after_command("lefty"@, arg, index) == (
            s,
            HQMCommandActionView::SetHand(HQMSkaterHand::Left),
        ),
        s.after_command("righty"@, arg, index) == (
            s,
            HQMCommandActionView::SetHand(HQMSkaterHand::Right),
        ),
        s.after_command("search"@, arg, index) == (
            s.after_search(index, arg),
            HQMCommandActionView::Nothing,
        ),
        s.after_command("restoreview"@, arg, index) == (
            s.after_restore_view(index),
            HQMCommandActionView::Nothing,
        ),
        s.after_command("t"@, arg, index) == (
            s.after_team_message(arg, index),
            HQMCommandActionView::Nothing,
        ),
        s.after_command("lm"@, arg, index) == (
            s.told("Stick limit is locked to 'no' on this server."@, index),
            HQMCommandActionView::Nothing,
        ),
        parsed_index(arg) is Some ==> {
            let target = HQMServerPlayerIndex(parsed_index(arg)->0);
            &&& s.after_command("ping"@, arg, index) == s.after_ping(target, index)
            &&& s.after_command("view"@, arg, index) == (
                s.after_view(target, index),
                HQMCommandActionView::Nothing,
            )
            &&& arg.len() > 0 ==> s.after_command("list"@, arg, index) == (
                s.after_list(index, parsed_index(arg)->0),
                HQMCommandActionView::Nothing,
            )
        },
        parsed_index(arg) is None ==> {
            let nothing = (s, HQMCommandActionView::Nothing);
            &&& s.after_command("ping"@, arg, index) == nothing
            &&& s.after_command("view"@, arg, index) == nothing
            &&& arg.len() > 0 ==> s.after_command("list"@, arg, index) == nothing
        },
        arg.len() == 0 ==> s.after_command("list"@, arg, index) == (
            s.after_list(index, 0),
            HQMCommandActionView::Nothing,
        ),
        s.lookup(arg) is One ==> {
            let target = s.lookup(arg)->One_0;
            &&& s.after_command("pings"@, arg, index) == s.after_ping(target, index)
            &&& s.after_command("views"@, arg, index) == (
                s.after_view(target, index),
                HQMCommandActionView::Nothing,
            )
        },
        !(s.lookup(arg) is One) ==> {
            &&& s.after_command("pings"@, arg, index) == (
                s.after_failed_lookup(
                    s.lookup(arg),
                    "Multiple matches found, use /ping X"@,
                    index,
                ),
                HQMCommandActionView::Nothing,
            )
            &&& s.after_command("views"@, arg, index) == (
                s.after_failed_lookup(
                    s.lookup(arg),
                    "Multiple matches found, use /view X"@,
                    index,
                ),
                HQMCommandActionView::Nothing,
            )
        },
{
    lemma_words();
}

/// Whether a word is none of the commands of the server.
pub open spec fn is_other_word(word: Seq<char>) -> bool {
    &&& word != "enablejoin"@
    &&& word != "disablejoin"@
    &&& word != "mute"@
    &&& word != "unmute"@
    &&& word != "mutechat"@
    &&& word != "unmutechat"@
    &&& word != "kick"@
    &&& word != "kickall"@
    &&& word != "ban"@
    &&& word != "banall"@
    &&& word != "clearbans"@
    &&& word != "lefty"@
    &&& word != "righty"@
    &&& word != "admin"@
    &&& word != "serverrestart"@
    &&& word != "list"@
    &&& word != "search"@
    &&& word != "ping"@
    &&& word != "pings"@
    &&& word != "view"@
    &&& word != "views"@
    &&& word != "restoreview"@
    &&& word != "t"@
    &&& word != "lm"@
}

/// Every other command is one of the rules of the game: word and argument are handed on
/// as they are.
pub proof fn law_other_commands(
    s: HQMServerView,
    word: Seq<char>,
    arg: Seq<char>,
    index: HQMServerPlayerIndex,
)
    requires
        is_other_word(word),
    ensures
        s.after_command(word, arg, index) == (
            s,
            HQMCommandActionView::Behaviour { command: word, arg },
        ),
{
}

/// A chat line that begins with a slash is taken for a command, any other for chat;
/// nothing is done for someone who is not there.
pub proof fn law_chat_lines(s: HQMServerView, line: Seq<char>, index: HQMServerPlayerIndex)
    ensures
        player_at(s.players, index) is None ==> s.after_chat(line, index) == (
            s,
            HQMCommandActionView::Nothing,
        ),
        player_at(s.players, index) is Some && is_command(line) ==> s.after_chat(line, index)
            == s.after_command(command_word(line), command_arg(line), index),
        player_at(s.players, index) is Some && !is_command(line) ==> (s.after_chat(
            line,
            index,
        )).1 is Nothing,
{
}

/// Chat that everyone hears is the speaker's and in the speaker's words; it is recorded,
/// but not told to those who join later. Chat that nobody may hear changes nothing; chat
/// of a player who is muted in the shadows waits for that player alone.
pub proof fn law_plain_chat_is_all(
    s: HQMServerView,
    line: Seq<char>,
    index: HQMServerPlayerIndex,
)
    requires
        player_at(s.players, index) is Some,
        !is_command(line),
    ensures
        ({
            let t = s.after_chat(line, index).0;
            let mute = player_at(s.players, index)->0.is_muted;
            let chat = HQMMessageView::Chat { player_index: Some(index), message: line };
            &&& t == (HQMServerView { messages: t.messages, ..s })
            &&& t.messages.persistent_messages == s.messages.persistent_messages
            &&& s.is_muted || mute == HQMMuteStatus::Muted ==> t == s
            &&& !s.is_muted && mute == HQMMuteStatus::NotMuted ==> {
                &&& t.messages.waiting_messages == s.messages.waiting_messages.push(
                    (HQMWaitingMessageReceiver::All, chat),
                )
                &&& t.messages.replay_messages == s.messages.replay_messages.push(chat)
            }
            &&& !s.is_muted && mute == HQMMuteStatus::ShadowMuted ==> {
                &&& t.messages.waiting_messages == s.messages.waiting_messages.push(
                    (HQMWaitingMessageReceiver::Specific(index), chat),
                )
                &&& t.messages.replay_messages == s.messages.replay_messages
            }
        }),
{
}

/// Whether nothing differs but the messages, what players have been told, and whom they
/// view.
pub open spec fn views_and_messages_only(s: HQMServerView, t: HQMServerView) -> bool {
    &&& t == (HQMServerView { players: t.players, messages: t.messages, ..s })
    &&& t.players.len() == s.players.len()
    &&& forall|i: int|
        #![trigger t.players[i]]
        0 <= i < s.players.len() ==> {
            &&& t.players[i] is Some <==> s.players[i] is Some
            &&& s.players[i] is Some ==> t.players[i]->0 == (HQMServerPlayerView {
                data: HQMNetworkPlayerDataView {
                    view_player_index: t.players[i]->0.data.view_player_index,
                    messages: t.players[i]->0.data.messages,
                    ..s.players[i]->0.data
                },
                ..s.players[i]->0
            })
        }
}

/// The same, to be taken as it is.
#[verifier::opaque]
spec fn harmless(s: HQMServerView, t: HQMServerView) -> bool {
    views_and_messages_only(s, t)
}

proof fn lemma_harmless_lines(
    s: HQMServerView,
    lines: Seq<Seq<char>>,
    line: Seq<char>,
    receiver: HQMServerPlayerIndex,
)
    ensures
        harmless(s, s),
        harmless(s, s.told(line, receiver)),
        harmless(s, s.told_all(lines, receiver)),
        harmless(s, s.told(line, receiver).told_all(lines, receiver)),
{
    reveal(harmless);
}

proof fn lemma_harmless_views(
    s: HQMServerView,
    view: HQMServerPlayerIndex,
    index: HQMServerPlayerIndex,
)
    requires
        s.wf(),
    ensures
        harmless(s, s.after_view(view, index)),
        harmless(s, s.after_restore_view(index)),
        harmless(s, s.after_ping(view, index).0),
{
    reveal(harmless);
}

proof fn lemma_harmless_team(s: HQMServerView, message: Seq<char>, index: HQMServerPlayerIndex)
    requires
        s.wf(),
    ensures
        harmless(s, s.after_team_message(message, index)),
{
    reveal(harmless);
    let t = s.after_team_message(message, index);
    assert forall|i: int|
        #![trigger t.players[i]]
        0 <= i < s.players.len() && s.players[i] is Some implies t.players[i]->0 == (
    HQMServerPlayerView {
        data: HQMNetworkPlayerDataView {
            view_player_index: t.players[i]->0.data.view_player_index,
            messages: t.players[i]->0.data.messages,
            ..s.players[i]->0.data
        },
        ..s.players[i]->0
    }) by {
    }
}

proof fn lemma_harmless_lookup(
    s: HQMServerView,
    lookup: HQMLookupView,
    hint: Seq<char>,
    index: HQMServerPlayerIndex,
)
    ensures
        harmless(s, s.after_failed_lookup(lookup, hint, index)),
{
    lemma_harmless_lines(s, seq![], "No matches found"@, index);
    if let HQMLookupView::Several(found) = lookup {
        lemma_harmless_lines(s, listing(found), hint, index);
    }
}

/// No command changes anything but the messages, what players have been told, and whom
/// they view.
pub proof fn law_commands_are_harmless(
    s: HQMServerView,
    command: Seq<char>,
    arg: Seq<char>,
    index: HQMServerPlayerIndex,
)
    requires
        s.wf(),
    ensures
        views_and_messages_only(s, s.after_command(command, arg, index).0),
{
    lemma_harmless_lines(s, seq![], "Stick limit is locked to 'no' on this server."@, index);
    lemma_harmless_lines(s, listing(s.search(arg)), "No matches found"@, index);
    lemma_harmless_lines(
        s,
        listing(at_most(by_name(picked(s.players, from_slot(0), 0)), LISTED as nat)),
        seq![],
        index,
    );
    lemma_harmless_views(s, index, index);
    lemma_harmless_team(s, arg, index);
    if let Some(n) = parsed_index(arg) {
        lemma_harmless_lines(
            s,
            listing(at_most(by_name(picked(s.players, from_slot(n), 0)), LISTED as nat)),
            seq![],
            index,
        );
        lemma_harmless_views(s, HQMServerPlayerIndex(n), index);
    }
    if let HQMLookupView::One(found) = s.lookup(arg) {
        lemma_harmless_views(s, found, index);
    }
    lemma_harmless_lookup(s, s.lookup(arg), "Multiple matches found, use /ping X"@, index);
    lemma_harmless_lookup(s, s.lookup(arg), "Multiple matches found, use /view X"@, index);
    assert(harmless(s, s.after_command(command, arg, index).0));
    assert(views_and_messages_only(s, s.after_command(command, arg, index).0)) by {
        reveal(harmless);
    }
}

/// No chat line changes anything but the messages, what players have been told, and whom
/// they view.
pub proof fn law_chat_is_harmless(s: HQMServerView, line: Seq<char>, index: HQMServerPlayerIndex)
    requires
        s.wf(),
    ensures
        views_and_messages_only(s, s.after_chat(line, index).0),
{
    law_commands_are_harmless(s, command_word(line), command_arg(line), index);
}

} // verus!
