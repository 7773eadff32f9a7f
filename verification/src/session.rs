//! Joining and leaving, teams, and what players are told about each other.

use crate::game::{HQMObjectIndex, HQMReal, HQMSkaterHand, HQMTeam, ZERO_BITS};
use crate::matches::{
    by_name, count_matches, match_at, no_matches, push_match, HQMPlayerMatches,
};
use crate::message::{
    chat_message, HQMMessage, HQMMessageView, HQMServerMessagesView, HQMWaitingMessageReceiver,
};
use crate::net::HQMSocketAddr;
use crate::player::{
    everyone, first_slot, is_free, is_random_id, lemma_picked_complete, lemma_picked_ordered,
    lemma_picked_sound, lives_at, picked, player_at, HQMNetworkPlayerDataView, HQMServerPlayer,
    HQMServerPlayerData, HQMServerPlayerIndex, HQMServerPlayerList, HQMServerPlayerView,
    PLAYER_SLOTS,
};
use crate::server::{HQMServer, HQMServerView};
use std::borrow::Cow;
use std::rc::Rc;
use vstd::prelude::*;

verus! {

/// The version of the game that clients must have.
pub const GAME_VERSION: u32 = 55;

/// After how many ticks of silence a client is taken to be gone.
pub const INACTIVITY_LIMIT: u32 = 500;

/// The texts in a list.
pub open spec fn lines_of(s: Seq<String>) -> Seq<Seq<char>> {
    Seq::new(s.len(), |i: int| s[i]@)
}

/// Why a player is gone.
#[derive(Debug, Copy, Clone, Eq, PartialEq, Structural)]
pub enum HQMLeaving {
    Exited,
    TimedOut,
}

impl HQMLeaving {
    /// How a departure is announced, behind the player's name.
    pub open spec fn announcement(self) -> Seq<char> {
        match self {
            HQMLeaving::Exited => " exited"@,
            HQMLeaving::TimedOut => " timed out"@,
        }
    }
}

/// The messages of a list that are for the player in slot `i`.
pub open spec fn addressed(
    waiting: Seq<(HQMWaitingMessageReceiver, HQMMessageView)>,
    i: int,
) -> Seq<HQMMessageView>
    decreases waiting.len(),
{
    if waiting.len() == 0 {
        seq![]
    } else {
        let before = addressed(waiting.drop_last(), i);
        if waiting.last().0.includes(i) {
            before.push(waiting.last().1)
        } else {
            before
        }
    }
}

/// The players after the messages of a list have been handed out.
pub open spec fn delivered(
    players: Seq<Option<HQMServerPlayerView>>,
    waiting: Seq<(HQMWaitingMessageReceiver, HQMMessageView)>,
) -> Seq<Option<HQMServerPlayerView>> {
    Seq::new(
        players.len(),
        |i: int|
            match players[i] {
                Some(p) => Some(p.with_messages(addressed(waiting, i))),
                None => None,
            },
    )
}

/// Whether anyone is an administrator.
pub open spec fn has_admin(players: Seq<Option<HQMServerPlayerView>>) -> bool {
    exists|i: int|
        0 <= i < players.len() && (#[trigger] players[i]) is Some && players[i]->0.is_admin
}

/// The player, silent for one more tick.
pub open spec fn aged(p: HQMServerPlayerView) -> HQMServerPlayerView {
    HQMServerPlayerView {
        data: HQMNetworkPlayerDataView {
            inactivity: (p.data.inactivity + 1) as u32,
            ..p.data
        },
        ..p
    }
}

/// The players, silent for one more tick.
pub open spec fn all_aged(players: Seq<Option<HQMServerPlayerView>>) -> Seq<
    Option<HQMServerPlayerView>,
> {
    Seq::new(
        players.len(),
        |i: int|
            match players[i] {
                Some(p) => Some(aged(p)),
                None => None,
            },
    )
}

/// The players who have been silent for too long.
pub open spec fn is_inactive() -> spec_fn(HQMServerPlayerIndex, HQMServerPlayerView) -> bool {
    |i: HQMServerPlayerIndex, p: HQMServerPlayerView| p.data.inactivity > INACTIVITY_LIMIT
}

impl HQMServerView {
    /// How many players there are.
    pub open spec fn player_count(self) -> nat {
        picked(self.players, everyone(), 0).len()
    }

    /// The slot of the client at an address.
    pub open spec fn slot_of(self, addr: HQMSocketAddr) -> Option<HQMServerPlayerIndex> {
        first_slot(self.players, lives_at(addr), 0)
    }

    /// The first free slot.
    pub open spec fn free_slot(self) -> Option<HQMServerPlayerIndex> {
        first_slot(self.players, is_free(), 0)
    }

    /// Whether a client is let in, as far as there is a free slot.
    pub open spec fn admits(self, addr: HQMSocketAddr, version: u32) -> bool {
        &&& self.player_count() < self.config.player_max
        &&& version == GAME_VERSION
        &&& self.slot_of(addr) is None
        &&& !self.ban_list.contains(addr.ip)
        &&& self.allow_join
    }

    /// With a new player in a slot: the others are told, the newcomer is welcomed.
    pub open spec fn with_newcomer(
        self,
        index: HQMServerPlayerIndex,
        name: Seq<char>,
        addr: HQMSocketAddr,
        id: u128,
    ) -> Self {
        let p = HQMServerPlayerView::connected(
            index,
            name,
            addr,
            self.messages.persistent_messages,
            id,
        );
        self.with_player(index, Some(p)).saying(
            self.messages.global(p.update_message(index), true, true).told_all(
                lines_of(self.config.welcome@),
                index,
            ),
        )
    }

    /// After everyone was told that a player has joined.
    pub open spec fn after_join(self, name: Seq<char>) -> Self {
        self.announced(name + " joined"@)
    }

    /// What the rink is asked for when a player is put into a team: the object whose
    /// skater is placed anew, or none if one is to be created; and the hand, the mass and
    /// the stick limit of the skater.
    pub open spec fn skater_wanted(self, index: HQMServerPlayerIndex) -> Option<
        (Option<HQMObjectIndex>, HQMSkaterHand, HQMReal, HQMReal),
    > {
        match player_at(self.players, index) {
            Some(p) => Some((self.object_of(index), p.hand, p.mass, p.stick_limit)),
            None => None,
        }
    }

    /// Without the player in a slot. When the last administrator goes, joining is
    /// allowed again.
    pub open spec fn without_player(self, index: HQMServerPlayerIndex, on_replay: bool) -> Self {
        match player_at(self.players, index) {
            None => self,
            Some(p) => {
                let players = self.players.update(index.0 as int, None);
                HQMServerView {
                    players,
                    messages: self.messages.global(p.gone_message(index), true, on_replay),
                    allow_join: self.allow_join || (p.is_admin && !has_admin(players)),
                    ..self
                }
            },
        }
    }

    /// After a departure, with what everyone is told of it.
    pub open spec fn after_departure(
        self,
        index: HQMServerPlayerIndex,
        name: Seq<char>,
        how: HQMLeaving,
    ) -> Self {
        self.without_player(index, true).announced(name + how.announcement())
    }

    /// The object of the player in a slot.
    pub open spec fn object_of(self, index: HQMServerPlayerIndex) -> Option<HQMObjectIndex> {
        match player_at(self.players, index) {
            Some(p) => match p.object {
                Some((object, team)) => Some(object),
                None => None,
            },
            None => None,
        }
    }

    /// With a player in a team or among the spectators, which the others are told.
    pub open spec fn with_assignment(
        self,
        index: HQMServerPlayerIndex,
        player: HQMServerPlayerView,
    ) -> Self {
        self.with_player(index, Some(player)).saying(
            self.messages.global(player.update_message(index), true, true),
        )
    }

    /// After a player asked for the stick in the other hand. The skater changes
    /// hands only between periods; `skater_found` says whether there is one.
    pub open spec fn after_set_hand(
        self,
        hand: HQMSkaterHand,
        index: HQMServerPlayerIndex,
        skater_found: bool,
    ) -> Self {
        match player_at(self.players, index) {
            None => self,
            Some(p) => {
                let changed = self.with_player(index, Some(HQMServerPlayerView { hand, ..p }));
                if p.object is Some && skater_found && self.values.period != 0 {
                    changed.told("Stick hand will change after next intermission"@, index)
                } else {
                    changed
                }
            },
        }
    }

    /// The object whose skater changes hands at once, if the rink has it.
    pub open spec fn hand_changed(
        self,
        index: HQMServerPlayerIndex,
        skater_found: bool,
    ) -> Option<HQMObjectIndex> {
        if skater_found && self.values.period == 0 {
            self.object_of(index)
        } else {
            None
        }
    }

    /// After a player was to be moved to the spectators, and whether that was done.
    /// `removed` says whether the player's object was taken off the rink.
    pub open spec fn after_move(self, index: HQMServerPlayerIndex, removed: bool) -> (Self, bool) {
        if self.object_of(index) is Some && removed {
            (
                self.with_assignment(index, player_at(self.players, index)->0.with_object(None)),
                true,
            )
        } else {
            (self, false)
        }
    }

    /// After a player was to be put into a team, with the object that was created.
    pub open spec fn after_spawn(
        self,
        index: HQMServerPlayerIndex,
        team: HQMTeam,
        skater_found: bool,
        created: Option<HQMObjectIndex>,
    ) -> (Self, Option<HQMObjectIndex>) {
        match player_at(self.players, index) {
            None => (self, None),
            Some(p) => match p.object {
                Some((object, _)) => if skater_found {
                    (self.with_assignment(index, p.with_object(Some((object, team)))), None)
                } else {
                    (self, None)
                },
                None => match created {
                    Some(object) => (
                        self.with_assignment(
                            index,
                            p.viewing(index).with_object(Some((object, team))),
                        ),
                        created,
                    ),
                    None => (self, None),
                },
            },
        }
    }

    /// After a player asked for a limit on the speed of the stick: there is none.
    pub open spec fn after_stick_limit(self, index: HQMServerPlayerIndex) -> Self {
        match player_at(self.players, index) {
            Some(p) => self.with_player(
                index,
                Some(HQMServerPlayerView { stick_limit: HQMReal { bits: ZERO_BITS }, ..p }),
            ).told("Stick speed limit is set to no"@, index),
            None => self,
        }
    }

    /// What the members of a team are told when one of them speaks to the team: the
    /// speaker's name with the team in front, the words, the plain name again.
    pub open spec fn team_talk(
        self,
        message: Seq<char>,
        sender: HQMServerPlayerIndex,
        p: HQMServerPlayerView,
        team: HQMTeam,
    ) -> Seq<HQMMessageView> {
        seq![
            HQMMessageView::PlayerUpdate {
                player_name: "["@ + team.name() + "] "@ + p.player_name,
                object: p.object,
                player_index: sender,
                in_server: true,
            },
            chat_message(Some(sender), message),
            p.update_message(sender),
        ]
    }

    /// After a player spoke to the team.
    pub open spec fn after_team_message(
        self,
        message: Seq<char>,
        sender: HQMServerPlayerIndex,
    ) -> Self {
        match player_at(self.players, sender) {
            None => self,
            Some(p) => match p.object {
                None => self,
                Some((object, team)) => HQMServerView {
                    players: told_team(
                        self.players,
                        team,
                        self.team_talk(message, sender, p, team),
                    ),
                    ..self
                },
            },
        }
    }

    /// After the waiting messages have been handed out.
    pub open spec fn after_delivery(self) -> Self {
        HQMServerView {
            players: delivered(self.players, self.messages.waiting_messages),
            messages: HQMServerMessagesView { waiting_messages: seq![], ..self.messages },
            ..self
        }
    }

    /// Whether every player can grow older by one tick.
    pub open spec fn can_age(self) -> bool {
        forall|i: int|
            0 <= i < self.players.len() && (#[trigger] self.players[i]) is Some
                ==> self.players[i]->0.data.inactivity < u32::MAX
    }
}

/// The players after all of them were told something.
pub open spec fn told_everyone(
    players: Seq<Option<HQMServerPlayerView>>,
    message: HQMMessageView,
) -> Seq<Option<HQMServerPlayerView>> {
    Seq::new(
        players.len(),
        |i: int|
            match players[i] {
                Some(p) => Some(p.with_message(message)),
                None => None,
            },
    )
}

/// The players after those of a team were told something.
pub open spec fn told_team(
    players: Seq<Option<HQMServerPlayerView>>,
    team: HQMTeam,
    messages: Seq<HQMMessageView>,
) -> Seq<Option<HQMServerPlayerView>> {
    Seq::new(
        players.len(),
        |i: int|
            match players[i] {
                Some(p) => if p.plays_for(team) {
                    Some(p.with_messages(messages))
                } else {
                    Some(p)
                },
                None => None,
            },
    )
}

/// The players of a team.
pub open spec fn in_team(team: HQMTeam) -> spec_fn(
    HQMServerPlayerIndex,
    HQMServerPlayerView,
) -> bool {
    |i: HQMServerPlayerIndex, p: HQMServerPlayerView| p.plays_for(team)
}

/// A slot that was looked for and found exists, and is what was looked for.
pub proof fn lemma_first_slot(
    players: Seq<Option<HQMServerPlayerView>>,
    p: spec_fn(Option<HQMServerPlayerView>) -> bool,
    from: int,
)
    requires
        0 <= from,
        players.len() <= usize::MAX,
    ensures
        match first_slot(players, p, from) {
            Some(i) => from <= i.0 < players.len() && p(players[i.0 as int]) && forall|j: int|
                from <= j < i.0 ==> !p(#[trigger] players[j]),
            None => forall|j: int| from <= j < players.len() ==> !p(#[trigger] players[j]),
        },
    decreases players.len() - from,
{
    if from < players.len() && !p(players[from]) {
        lemma_first_slot(players, p, from + 1);
    }
}

/// Telling one more thing.
pub proof fn lemma_told_all_push(
    m: HQMServerMessagesView,
    lines: Seq<Seq<char>>,
    line: Seq<char>,
    receiver: HQMServerPlayerIndex,
)
    ensures
        m.told_all(lines.push(line), receiver) == m.told_all(lines, receiver).told(line, receiver),
{
    assert(lines.push(line).drop_last() =~= lines);
}

/// Telling one player something changes nothing but what waits.
pub proof fn lemma_told_all_keeps(
    m: HQMServerMessagesView,
    lines: Seq<Seq<char>>,
    receiver: HQMServerPlayerIndex,
)
    ensures
        m.told_all(lines, receiver).persistent_messages == m.persistent_messages,
        m.told_all(lines, receiver).replay_messages == m.replay_messages,
    decreases lines.len(),
{
    if lines.len() > 0 {
        lemma_told_all_keeps(m, lines.drop_last(), receiver);
    }
}

/// Handing out one more message of a list.
proof fn lemma_delivered_step(
    players: Seq<Option<HQMServerPlayerView>>,
    waiting: Seq<(HQMWaitingMessageReceiver, HQMMessageView)>,
    k: int,
    after: Seq<Option<HQMServerPlayerView>>,
)
    requires
        0 <= k < waiting.len(),
        after.len() == players.len(),
        forall|i: int|
            #![trigger after[i]]
            0 <= i < players.len() ==> after[i] == match delivered(players, waiting.take(k))[i] {
                Some(p) => if waiting[k].0.includes(i) {
                    Some(p.with_message(waiting[k].1))
                } else {
                    Some(p)
                },
                None => None,
            },
    ensures
        after == delivered(players, waiting.take(k + 1)),
{
    assert(waiting.take(k + 1).drop_last() =~= waiting.take(k));
    assert forall|i: int| 0 <= i < players.len() implies #[trigger] after[i] == delivered(
        players,
        waiting.take(k + 1),
    )[i] by {
        if let Some(p) = players[i] {
            let old = addressed(waiting.take(k), i);
            let m = waiting[k].1;
            assert(p.with_messages(old).with_message(m) =~= p.with_messages(old.push(m)));
        }
    }
    assert(after =~= delivered(players, waiting.take(k + 1)));
}

impl HQMServerPlayerList {
    /// Whether anyone is an administrator.
    pub fn any_admin(&self) -> (r: bool)
        ensures
            r == has_admin(self@),
    {
        let n: usize = self.players.len();
        for i in 0..n
            invariant
                n == self.players@.len(),
                forall|j: int|
                    0 <= j < i ==> !((#[trigger] self@[j]) is Some && self@[j]->0.is_admin),
        {
            if let Some(player) = &self.players[i] {
                assert(self@[i as int] == Some(player@));
                if player.is_admin {
                    return true;
                }
            }
        }
        false
    }

    /// The players of a team.
    pub fn team_members(&self, team: HQMTeam) -> (r: HQMPlayerMatches)
        requires
            self@.len() <= PLAYER_SLOTS,
        ensures
            r@ == by_name(picked(self@, in_team(team), 0)),
    {
        let n: usize = self.players.len();
        let mut found = no_matches();
        let ghost all = picked(self@, in_team(team), 0);
        let ghost mut done: Seq<(HQMServerPlayerIndex, HQMServerPlayerView)> = seq![];
        assert(done + all =~= all);
        assert(by_name(done) =~= seq![]);
        for i in 0..n
            invariant
                n == self.players@.len(),
                n <= PLAYER_SLOTS,
                all == picked(self@, in_team(team), 0),
                done + picked(self@, in_team(team), i as int) == all,
                done.len() <= i,
                found@ == by_name(done),
        {
            if let Some(player) = &self.players[i] {
                assert(self@[i as int] == Some(player@));
                if let Some((_, player_team)) = player.object {
                    if player_team == team {
                        let index = HQMServerPlayerIndex(i);
                        push_match(&mut found, index, player.player_name.clone());
                        proof {
                            let rest = picked(self@, in_team(team), i + 1);
                            assert(done + (seq![(index, player@)] + rest) =~= done.push(
                                (index, player@),
                            ) + rest);
                            assert(by_name(done.push((index, player@))) =~= by_name(done).push(
                                (index, player@.player_name),
                            ));
                            done = done.push((index, player@));
                        }
                    }
                }
            }
        }
        assert(all =~= done);
        found
    }

    /// Queues three messages for every player of a team.
    pub fn add_messages_to_team(
        &mut self,
        team: HQMTeam,
        first: &Rc<HQMMessage>,
        second: &Rc<HQMMessage>,
        third: &Rc<HQMMessage>,
    )
        requires
            old(self)@.len() <= PLAYER_SLOTS,
        ensures
            final(self)@ == told_team(
                old(self)@,
                team,
                seq![(**first)@, (**second)@, (**third)@],
            ),
    {
        let ghost messages = seq![(**first)@, (**second)@, (**third)@];
        let ghost before = self@;
        let ghost told = told_team(before, team, messages);
        let ghost all = picked(before, in_team(team), 0);
        let members = self.team_members(team);
        let n: usize = count_matches(&members);
        for k in 0..n
            invariant
                before.len() <= PLAYER_SLOTS,
                self@.len() == before.len(),
                messages == seq![(**first)@, (**second)@, (**third)@],
                told == told_team(before, team, messages),
                all == picked(before, in_team(team), 0),
                members@ == by_name(all),
                n == all.len(),
                forall|j: int|
                    0 <= j < before.len() ==> #[trigger] self@[j] == if exists|m: int|
                        0 <= m < k && (#[trigger] all[m]).0.0 == j {
                        told[j]
                    } else {
                        before[j]
                    },
        {
            let (player_index, _) = match_at(&members, k);
            let ghost i = player_index.0 as int;
            let ghost now = self@;
            proof {
                lemma_picked_sound(before, in_team(team), 0, k as int);
                assert(all[k as int].0 == player_index);
                assert forall|m: int| 0 <= m < k implies (#[trigger] all[m]).0.0 != i by {
                    lemma_picked_ordered(before, in_team(team), 0, m, k as int);
                }
                assert(self@[i] == before[i]);
            }
            if let Some(player) = self.get_mut(player_index) {
                player.add_message(first.clone());
                player.add_message(second.clone());
                player.add_message(third.clone());
                assert(player@ =~= before[i]->0.with_messages(messages));
            }
            assert forall|j: int| 0 <= j < before.len() implies #[trigger] self@[j] == if exists|
                m: int,
            |
                0 <= m < k + 1 && (#[trigger] all[m]).0.0 == j {
                told[j]
            } else {
                before[j]
            } by {
                if j != i {
                    assert(self@[j] == now[j]);
                } else {
                    assert(all[k as int].0.0 == j);
                    assert(self@[j] == told[j]);
                }
            }
        }
        proof {
            assert forall|j: int| 0 <= j < before.len() implies #[trigger] self@[j] == told[j] by {
                if before[j] is Some && before[j]->0.plays_for(team) {
                    let m = lemma_picked_complete(before, in_team(team), 0, j);
                    assert(all[m].0.0 == j);
                } else {
                    assert(told[j] == before[j]);
                }
            }
            assert(self@ =~= told);
        }
    }

    /// Queues a message for every player.
    pub fn add_message_to_all(&mut self, message: &Rc<HQMMessage>)
        ensures
            final(self)@ == told_everyone(old(self)@, (**message)@),
    {
        let n: usize = self.players.len();
        for i in 0..n
            invariant
                n == self.players@.len(),
                n == old(self)@.len(),
                forall|j: int|
                    0 <= j < i ==> #[trigger] self@[j] == told_everyone(
                        old(self)@,
                        (**message)@,
                    )[j],
                forall|j: int| i <= j < n ==> #[trigger] self@[j] == old(self)@[j],
        {
            assert(self@[i as int] == old(self)@[i as int]);
            let ghost before = self@;
            if let Some(p) = &mut self.players[i] {
                p.add_message(message.clone());
            }
            assert(forall|j: int| 0 <= j < n && j != i ==> #[trigger] self@[j] == before[j]);
        }
        assert(self@ =~= told_everyone(old(self)@, (**message)@));
    }
}

impl HQMServer {
    pub fn player_count(&self) -> (r: usize)
        ensures
            r == self@.player_count(),
    {
        let n: usize = self.players.players.len();
        let mut count: usize = 0;
        for i in 0..n
            invariant
                n == self.players.players@.len(),
                count <= i,
                count + picked(self@.players, everyone(), i as int).len() == self@.player_count(),
        {
            if self.players.players[i].is_some() {
                count = count + 1;
            }
        }
        count
    }

    pub fn find_player_slot(&self, addr: HQMSocketAddr) -> (r: Option<HQMServerPlayerIndex>)
        ensures
            r == self@.slot_of(addr),
    {
        let n: usize = self.players.players.len();
        for i in 0..n
            invariant
                n == self.players.players@.len(),
                first_slot(self@.players, lives_at(addr), i as int) == self@.slot_of(addr),
        {
            if let Some(player) = &self.players.players[i] {
                match &player.data {
                    HQMServerPlayerData::NetworkPlayer { data } => {
                        if data.addr == addr {
                            return Some(HQMServerPlayerIndex(i));
                        }
                    },
                }
            }
        }
        None
    }

    pub fn find_empty_player_slot(&self) -> (r: Option<HQMServerPlayerIndex>)
        ensures
            r == self@.free_slot(),
    {
        let n: usize = self.players.players.len();
        for i in 0..n
            invariant
                n == self.players.players@.len(),
                first_slot(self@.players, is_free(), i as int) == self@.free_slot(),
        {
            if self.players.players[i].is_none() {
                return Some(HQMServerPlayerIndex(i));
            }
        }
        None
    }

    /// Lets a client in, if it may join and there is a free slot. The newcomer is
    /// announced with `announce_join` once the rules of the game know of the player.
    pub fn player_join(&mut self, addr: HQMSocketAddr, player_version: u32, name: String) -> (r:
        Option<HQMServerPlayerIndex>)
        requires
            old(self)@.wf(),
        ensures
            final(self)@.wf(),
            if old(self)@.admits(addr, player_version) {
                r == old(self)@.free_slot()
            } else {
                r is None
            },
            match r {
                Some(i) => player_at(final(self)@.players, i) is Some && is_random_id(
                    player_at(final(self)@.players, i)->0.id,
                ) && final(self)@ == old(self)@.with_newcomer(
                    i,
                    name@,
                    addr,
                    player_at(final(self)@.players, i)->0.id,
                ),
                None => final(self)@ == old(self)@,
            },
    {
        let player_count: usize = self.player_count();
        let max_player_count: usize = self.config.player_max;
        if player_count >= max_player_count {
            return None;
        }
        if player_version != GAME_VERSION {
            return None;
        }
        let current_slot = self.find_player_slot(addr);
        if current_slot.is_some() {
            return None;
        }
        if self.ban_list.contains(addr.ip) {
            return None;
        }
        if !self.allow_join {
            return None;
        }
        self.add_player(name, addr)
    }

    /// Tells everyone that a player has joined.
    pub fn announce_join(&mut self, name: &str)
        requires
            old(self)@.wf(),
        ensures
            final(self)@.wf(),
            final(self)@ == old(self)@.after_join(name@),
    {
        let msg = name.to_owned().concat(" joined");
        self.messages.add_server_chat_message(Cow::Owned(msg));
    }

    /// Puts a new player into the first free slot.
    pub fn add_player(&mut self, player_name: String, addr: HQMSocketAddr) -> (r: Option<
        HQMServerPlayerIndex,
    >)
        requires
            old(self)@.wf(),
        ensures
            final(self)@.wf(),
            r == old(self)@.free_slot(),
            match r {
                Some(i) => player_at(final(self)@.players, i) is Some && is_random_id(
                    player_at(final(self)@.players, i)->0.id,
                ) && final(self)@ == old(self)@.with_newcomer(
                    i,
                    player_name@,
                    addr,
                    player_at(final(self)@.players, i)->0.id,
                ),
                None => final(self)@ == old(self)@,
            },
    {
        let player_index = self.find_empty_player_slot();
        match player_index {
            Some(player_index) => {
                proof {
                    lemma_first_slot(self@.players, is_free(), 0);
                }
                let new_player = HQMServerPlayer::new_network_player(
                    player_index,
                    player_name,
                    addr,
                    self.messages.persistent_messages.as_slice(),
                );
                let ghost p = new_player@;
                let update = new_player.get_update_message(player_index);
                self.players.add_player(player_index, new_player);
                self.messages.add_global_message(update, true, true);
                let ghost told = self.messages@;
                let ghost lines = lines_of(self.config.welcome@);
                let n: usize = self.config.welcome.len();
                assert(lines.take(0) =~= seq![]);
                for i in 0..n
                    invariant
                        n == self.config.welcome@.len(),
                        lines == lines_of(self.config.welcome@),
                        self.messages@ == told.told_all(lines.take(i as int), player_index),
                        self@ == old(self)@.with_player(player_index, Some(p)).saying(
                            self.messages@,
                        ),
                {
                    let welcome_msg = self.config.welcome[i].clone();
                    self.messages.add_directed_server_chat_message(
                        Cow::Owned(welcome_msg),
                        player_index,
                    );
                    proof {
                        assert(lines.take(i + 1) =~= lines.take(i as int).push(lines[i as int]));
                        lemma_told_all_push(
                            told,
                            lines.take(i as int),
                            lines[i as int],
                            player_index,
                        );
                    }
                }
                proof {
                    assert(lines.take(n as int) =~= lines);
                    lemma_told_all_keeps(told, lines, player_index);
                }
                Some(player_index)
            },
            None => None,
        }
    }

    /// Who leaves when the client at an address says goodbye. The departure is
    /// carried out with `player_left` once the rules of the game know of it.
    pub fn player_exit(&self, addr: HQMSocketAddr) -> (r: Option<
        (HQMServerPlayerIndex, Rc<String>),
    >)
        ensures
            match self@.slot_of(addr) {
                Some(i) => r is Some && (r->0).0 == i && player_at(self@.players, i) is Some && (*(
                r->0).1)@ == player_at(self@.players, i)->0.player_name,
                None => r is None,
            },
    {
        proof {
            assert(self.players.players.len() == self@.players.len());
            lemma_first_slot(self@.players, lives_at(addr), 0);
        }
        match self.find_player_slot(addr) {
            Some(player_index) => match self.players.get(player_index) {
                Some(player) => Some((player_index, player.player_name.clone())),
                None => None,
            },
            None => None,
        }
    }

    /// Carries out a departure; returns the object that leaves the rink.
    pub fn player_left(
        &mut self,
        player_index: HQMServerPlayerIndex,
        player_name: &str,
        how: HQMLeaving,
    ) -> (r: Option<HQMObjectIndex>)
        requires
            old(self)@.wf(),
        ensures
            final(self)@.wf(),
            final(self)@ == old(self)@.after_departure(player_index, player_name@, how),
            r == old(self)@.object_of(player_index),
    {
        let object = self.remove_player(player_index, true);
        let msg = match how {
            HQMLeaving::Exited => player_name.to_owned().concat(" exited"),
            HQMLeaving::TimedOut => player_name.to_owned().concat(" timed out"),
        };
        self.messages.add_server_chat_message(Cow::Owned(msg));
        object
    }

    /// Frees a slot; returns the object that leaves the rink.
    pub fn remove_player(&mut self, player_index: HQMServerPlayerIndex, on_replay: bool) -> (r:
        Option<HQMObjectIndex>)
        requires
            old(self)@.wf(),
        ensures
            final(self)@.wf(),
            final(self)@ == old(self)@.without_player(player_index, on_replay),
            r == old(self)@.object_of(player_index),
    {
        let (player_name, is_admin, object) = match self.players.get(player_index) {
            Some(player) => (player.player_name.clone(), player.is_admin, player.object),
            None => {
                return None;
            },
        };
        let update = HQMMessage::PlayerUpdate {
            player_name,
            object: None,
            player_index,
            in_server: false,
        };
        self.messages.add_global_message(update, true, on_replay);
        self.players.remove_player(player_index);
        if is_admin {
            let admin_found = self.players.any_admin();
            if !admin_found {
                self.allow_join = true;
            }
        }
        match object {
            Some((object_index, _)) => Some(object_index),
            None => None,
        }
    }

    /// The object of the player in a slot.
    pub fn object_of(&self, player_index: HQMServerPlayerIndex) -> (r: Option<HQMObjectIndex>)
        ensures
            r == self@.object_of(player_index),
    {
        match self.players.get(player_index) {
            Some(player) => match player.object {
                Some((object_index, _)) => Some(object_index),
                None => None,
            },
            None => None,
        }
    }

    /// What the rink is asked for when a player is put into a team: the object whose
    /// skater is placed anew, or none if one is to be created; and the hand, the mass
    /// and the stick limit of the skater.
    pub fn skater_wanted(&self, player_index: HQMServerPlayerIndex) -> (r: Option<
        (Option<HQMObjectIndex>, HQMSkaterHand, HQMReal, HQMReal),
    >)
        ensures
            r == self@.skater_wanted(player_index),
    {
        match self.players.get(player_index) {
            Some(player) => Some(
                (self.object_of(player_index), player.hand, player.mass, player.stick_limit),
            ),
            None => None,
        }
    }

    /// Moves a player to the spectators. `removed` says whether the player's object
    /// was taken off the rink.
    pub fn move_to_spectator(&mut self, player_index: HQMServerPlayerIndex, removed: bool) -> (r:
        bool)
        requires
            old(self)@.wf(),
        ensures
            final(self)@.wf(),
            (final(self)@, r) == old(self)@.after_move(player_index, removed),
    {
        if let Some(player) = self.players.get_mut(player_index) {
            if player.object.is_some() {
                if removed {
                    player.object = None;
                    let update = player.get_update_message(player_index);
                    self.messages.add_global_message(update, true, true);
                    return true;
                }
            }
        }
        assert(self@.players =~= old(self)@.players);
        false
    }

    /// Puts a player into a team. Of a player with an object, `skater_found` says
    /// whether its skater was placed anew; of one without, `created` is the object
    /// that the rink made room for.
    pub fn spawn_skater(
        &mut self,
        player_index: HQMServerPlayerIndex,
        team: HQMTeam,
        skater_found: bool,
        created: Option<HQMObjectIndex>,
    ) -> (r: Option<HQMObjectIndex>)
        requires
            old(self)@.wf(),
        ensures
            final(self)@.wf(),
            (final(self)@, r) == old(self)@.after_spawn(
                player_index,
                team,
                skater_found,
                created,
            ),
    {
        if let Some(player) = self.players.get_mut(player_index) {
            match player.object {
                Some((object_index, _)) => {
                    if skater_found {
                        player.object = Some((object_index, team));
                        let update = player.get_update_message(player_index);
                        self.messages.add_global_message(update, true, true);
                    }
                    assert(!skater_found ==> self@.players =~= old(self)@.players);
                    return None;
                },
                None => {
                    if let Some(skater) = created {
                        match &mut player.data {
                            HQMServerPlayerData::NetworkPlayer { data } => {
                                data.view_player_index = player_index;
                            },
                        }
                        player.object = Some((skater, team));
                        let update = player.get_update_message(player_index);
                        self.messages.add_global_message(update, true, true);
                        return Some(skater);
                    }
                },
            }
        }
        assert(self@.players =~= old(self)@.players);
        None
    }

    /// Changes the hand in which a player holds the stick; returns the object whose
    /// skater changes hands now. `skater_found` says whether the rink has that skater.
    pub fn set_hand(
        &mut self,
        hand: HQMSkaterHand,
        player_index: HQMServerPlayerIndex,
        skater_found: bool,
    ) -> (r: Option<HQMObjectIndex>)
        requires
            old(self)@.wf(),
        ensures
            final(self)@.wf(),
            final(self)@ == old(self)@.after_set_hand(hand, player_index, skater_found),
            r == old(self)@.hand_changed(player_index, skater_found),
    {
        let object = match self.players.get_mut(player_index) {
            Some(player) => {
                player.hand = hand;
                player.object
            },
            None => {
                return None;
            },
        };
        if let Some((object_index, _)) = object {
            if skater_found {
                if self.values.period != 0 {
                    self.messages.add_directed_server_chat_message(
                        Cow::Borrowed("Stick hand will change after next intermission"),
                        player_index,
                    );
                    return None;
                }
                return Some(object_index);
            }
        }
        None
    }

    /// Lifts the limit on the speed of a player's stick, whatever limit was asked
    /// for; returns the object whose skater is freed of it.
    pub fn set_stick_limit(&mut self, _limit: HQMReal, player_index: HQMServerPlayerIndex) -> (r:
        Option<HQMObjectIndex>)
        requires
            old(self)@.wf(),
        ensures
            final(self)@.wf(),
            r == old(self)@.object_of(player_index),
            final(self)@ == old(self)@.after_stick_limit(player_index),
    {
        let object = match self.players.get_mut(player_index) {
            Some(player) => {
                player.stick_limit = HQMReal { bits: ZERO_BITS };
                player.object
            },
            None => {
                return None;
            },
        };
        self.messages.add_directed_server_chat_message(
            Cow::Borrowed("Stick speed limit is set to no"),
            player_index,
        );
        match object {
            Some((object_index, _)) => Some(object_index),
            None => None,
        }
    }

    /// Says something to a player's team.
    pub fn add_user_team_message(&mut self, message: &str, sender_index: HQMServerPlayerIndex)
        requires
            old(self)@.wf(),
        ensures
            final(self)@.wf(),
            final(self)@ == old(self)@.after_team_message(message@, sender_index),
    {
        let (player_name, object) = match self.players.get(sender_index) {
            Some(player) => (player.player_name.clone(), player.object),
            None => {
                return ;
            },
        };
        let team = match object {
            Some((_, team)) => team,
            None => {
                return ;
            },
        };
        let shown_name = "[".to_owned().concat(team.to_text().as_str()).concat("] ").concat(
            player_name.as_str(),
        );
        let change1 = Rc::new(
            HQMMessage::PlayerUpdate {
                player_name: Rc::new(shown_name),
                object,
                player_index: sender_index,
                in_server: true,
            },
        );
        let change2 = Rc::new(
            HQMMessage::PlayerUpdate {
                player_name,
                object,
                player_index: sender_index,
                in_server: true,
            },
        );
        let chat = Rc::new(
            HQMMessage::Chat {
                player_index: Some(sender_index),
                message: Cow::Owned(message.to_owned()),
            },
        );
        let ghost talk = self@.team_talk(
            message@,
            sender_index,
            player_at(self@.players, sender_index)->0,
            team,
        );
        assert(talk =~= seq![(*change1)@, (*chat)@, (*change2)@]);
        self.players.add_messages_to_team(team, &change1, &chat, &change2);
    }

    /// Hands the waiting messages out to those they are for.
    pub fn deliver_messages(&mut self)
        requires
            old(self)@.wf(),
        ensures
            final(self)@.wf(),
            final(self)@ == old(self)@.after_delivery(),
    {
        let n: usize = self.messages.waiting_messages.len();
        let ghost waiting = self@.messages.waiting_messages;
        proof {
            assert(waiting.take(0) =~= seq![]);
            assert(delivered(self@.players, seq![]) =~= self@.players) by {
                assert forall|i: int| 0 <= i < self@.players.len() implies #[trigger] delivered(
                    self@.players,
                    seq![],
                )[i] == self@.players[i] by {
                    if self@.players[i] is Some {
                        assert(self@.players[i]->0.with_messages(seq![]) =~= self@.players[i]->0);
                    }
                }
            }
        }
        for k in 0..n
            invariant
                n == self.messages.waiting_messages@.len(),
                waiting == self@.messages.waiting_messages,
                waiting == old(self)@.messages.waiting_messages,
                self@ == (HQMServerView {
                    players: delivered(old(self)@.players, waiting.take(k as int)),
                    ..old(self)@
                }),
        {
            let ghost before = self@.players;
            let receiver = self.messages.waiting_messages[k].0;
            let message = self.messages.waiting_messages[k].1.clone();
            assert(waiting[k as int] == (receiver, (*message)@));
            match receiver {
                HQMWaitingMessageReceiver::All => {
                    self.players.add_message_to_all(&message);
                },
                HQMWaitingMessageReceiver::Specific(player_index) => {
                    if let Some(player) = self.players.get_mut(player_index) {
                        player.add_message(message);
                    }
                },
            }
            proof {
                lemma_delivered_step(old(self)@.players, waiting, k as int, self@.players);
            }
        }
        proof {
            assert(waiting.take(n as int) =~= waiting);
        }
        self.messages.waiting_messages.clear();
        assert(self@.messages.waiting_messages =~= seq![]);
    }

    /// Counts one more tick of silence for every player, and lists those who have
    /// been silent for too long.
    pub fn remove_inactive_players(&mut self) -> (r: HQMPlayerMatches)
        requires
            old(self)@.wf(),
            old(self)@.can_age(),
        ensures
            final(self)@.wf(),
            final(self)@ == (HQMServerView { players: all_aged(old(self)@.players), ..old(self)@ }),
            r@ == by_name(picked(all_aged(old(self)@.players), is_inactive(), 0)),
    {
        let n: usize = self.players.players.len();
        let ghost target = all_aged(self@.players);
        let mut found = no_matches();
        let ghost mut done: Seq<(HQMServerPlayerIndex, HQMServerPlayerView)> = seq![];
        assert(done + picked(target, is_inactive(), 0) =~= picked(target, is_inactive(), 0));
        assert(by_name(done) =~= seq![]);
        for i in 0..n
            invariant
                n == self.players.players@.len(),
                n == old(self)@.players.len(),
                old(self)@.wf(),
                old(self)@.can_age(),
                target == all_aged(old(self)@.players),
                forall|j: int| 0 <= j < i ==> #[trigger] self@.players[j] == target[j],
                forall|j: int| i <= j < n ==> #[trigger] self@.players[j] == old(self)@.players[j],
                self@ == (HQMServerView { players: self@.players, ..old(self)@ }),
                found@ == by_name(done),
                done.len() <= i,
                done + picked(target, is_inactive(), i as int) == picked(target, is_inactive(), 0),
        {
            assert(self@.players[i as int] == old(self)@.players[i as int]);
            let ghost before = self@.players;
            let index = HQMServerPlayerIndex(i);
            if let Some(player) = &mut self.players.players[i] {
                let ghost p = player@;
                let inactivity: u32 = match &mut player.data {
                    HQMServerPlayerData::NetworkPlayer { data } => {
                        data.inactivity = data.inactivity + 1;
                        data.inactivity
                    },
                };
                assert(player@ == aged(p));
                if inactivity > INACTIVITY_LIMIT {
                    push_match(&mut found, index, player.player_name.clone());
                    proof {
                        let rest = picked(target, is_inactive(), i + 1);
                        assert(done + (seq![(index, aged(p))] + rest) =~= done.push(
                            (index, aged(p)),
                        ) + rest);
                        assert(by_name(done.push((index, aged(p)))) =~= by_name(done).push(
                            (index, p.player_name),
                        ));
                        done = done.push((index, aged(p)));
                    }
                }
            }
            assert(forall|j: int| 0 <= j < n && j != i ==> #[trigger] self@.players[j]
                == before[j]);
        }
        assert(done + picked(target, is_inactive(), n as int) =~= done);
        assert(self@.players =~= target);
        found
    }
}

} // verus!
