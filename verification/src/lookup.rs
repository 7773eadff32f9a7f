//! Finding players by name, and listing them.

use crate::matches::{
    at_most, by_name, count_matches, match_at, no_matches, push_match, HQMPlayerMatches,
};
use crate::player::{picked, HQMServerPlayerIndex, HQMServerPlayerView};
use crate::server::{HQMServer, HQMServerView};
use crate::session::{lemma_told_all_keeps, lemma_told_all_push};
use crate::text::{
    contains_text, lower_text, lowered, numbered_line, occurs_in, same_text, write_numbered_line,
};
use std::borrow::Cow;
use std::rc::Rc;
use vstd::prelude::*;

verus! {

/// How many players a listing or a search shows.
pub const LISTED: usize = 5;

/// The players of a name.
pub open spec fn is_named(name: Seq<char>) -> spec_fn(
    HQMServerPlayerIndex,
    HQMServerPlayerView,
) -> bool {
    |i: HQMServerPlayerIndex, p: HQMServerPlayerView| p.player_name == name
}

/// The players from a slot on.
pub open spec fn from_slot(first: usize) -> spec_fn(
    HQMServerPlayerIndex,
    HQMServerPlayerView,
) -> bool {
    |i: HQMServerPlayerIndex, p: HQMServerPlayerView| i.0 >= first
}

/// The players whose name contains a text, whatever the case of the letters.
pub open spec fn is_like(name: Seq<char>) -> spec_fn(
    HQMServerPlayerIndex,
    HQMServerPlayerView,
) -> bool {
    |i: HQMServerPlayerIndex, p: HQMServerPlayerView|
        occurs_in(lower_text(name), lower_text(p.player_name))
}

/// The players whose entry in a table of texts by slot contains a text.
pub open spec fn entry_contains(table: Seq<String>, text: Seq<char>) -> spec_fn(
    HQMServerPlayerIndex,
    HQMServerPlayerView,
) -> bool {
    |i: HQMServerPlayerIndex, p: HQMServerPlayerView| occurs_in(text, table[i.0 as int]@)
}

/// The lines in which players are listed.
pub open spec fn listing(found: Seq<(HQMServerPlayerIndex, Seq<char>)>) -> Seq<Seq<char>> {
    Seq::new(found.len(), |i: int| numbered_line(found[i].0.0, found[i].1))
}

impl HQMServerView {
    /// The one player of a name.
    pub open spec fn unique_match(self, name: Seq<char>) -> Option<
        (HQMServerPlayerIndex, Seq<char>),
    > {
        let found = by_name(picked(self.players, is_named(name), 0));
        if found.len() == 1 {
            Some(found[0])
        } else {
            None
        }
    }

    /// The first few players whose name contains a text.
    pub open spec fn search(self, name: Seq<char>) -> Seq<(HQMServerPlayerIndex, Seq<char>)> {
        at_most(by_name(picked(self.players, is_like(name), 0)), LISTED as nat)
    }

    /// After a player asked for a list from a slot on.
    pub open spec fn after_list(self, receiver: HQMServerPlayerIndex, first: usize) -> Self {
        self.told_all(
            listing(at_most(by_name(picked(self.players, from_slot(first), 0)), LISTED as nat)),
            receiver,
        )
    }

    /// After a player searched for a name.
    pub open spec fn after_search(self, receiver: HQMServerPlayerIndex, name: Seq<char>) -> Self {
        if self.search(name).len() == 0 {
            self.told("No matches found"@, receiver)
        } else {
            self.told_all(listing(self.search(name)), receiver)
        }
    }
}

/// Picking depends on the players alone.
proof fn lemma_picked_same(
    players: Seq<Option<HQMServerPlayerView>>,
    p: spec_fn(HQMServerPlayerIndex, HQMServerPlayerView) -> bool,
    q: spec_fn(HQMServerPlayerIndex, HQMServerPlayerView) -> bool,
    from: int,
)
    requires
        0 <= from,
        players.len() <= usize::MAX,
        forall|i: int|
            #![trigger players[i]]
            0 <= i < players.len() && players[i] is Some ==> p(
                HQMServerPlayerIndex(i as usize),
                players[i]->0,
            ) == q(HQMServerPlayerIndex(i as usize), players[i]->0),
    ensures
        picked(players, p, from) == picked(players, q, from),
    decreases players.len() - from,
{
    if from < players.len() {
        lemma_picked_same(players, p, q, from + 1);
        assert(players[from] is Some ==> p(HQMServerPlayerIndex(from as usize), players[from]->0)
            == q(HQMServerPlayerIndex(from as usize), players[from]->0));
    }
}

impl HQMServer {
    /// The one player of a name, if exactly one player has it.
    pub fn player_exact_unique_match(&self, name: &str) -> (r: Option<
        (HQMServerPlayerIndex, Rc<String>),
    >)
        ensures
            match self@.unique_match(name@) {
                Some(found) => r is Some && ((r->0).0, (*(r->0).1)@) == found,
                None => r is None,
            },
    {
        let n: usize = self.players.players.len();
        let mut found: Option<(HQMServerPlayerIndex, Rc<String>)> = None;
        let ghost all = picked(self@.players, is_named(name@), 0);
        let ghost mut done: Seq<(HQMServerPlayerIndex, HQMServerPlayerView)> = seq![];
        assert(done + all =~= all);
        for i in 0..n
            invariant
                n == self.players.players@.len(),
                all == picked(self@.players, is_named(name@), 0),
                done + picked(self@.players, is_named(name@), i as int) == all,
                done.len() <= 1,
                match found {
                    Some(f) => done.len() == 1 && (f.0, (*f.1)@) == by_name(done)[0],
                    None => done.len() == 0,
                },
        {
            if let Some(player) = &self.players.players[i] {
                assert(self@.players[i as int] == Some(player@));
                if same_text(player.player_name.as_str(), name) {
                    let index = HQMServerPlayerIndex(i);
                    let ghost rest = picked(self@.players, is_named(name@), i + 1);
                    assert(done + (seq![(index, player@)] + rest) =~= done.push((index, player@))
                        + rest);
                    if found.is_none() {
                        found = Some((index, player.player_name.clone()));
                        proof {
                            done = done.push((index, player@));
                        }
                    } else {
                        assert(all.len() >= 2);
                        return None;
                    }
                }
            }
        }
        assert(all =~= done);
        found
    }

    /// The first few players whose name contains a text, whatever the case of the
    /// letters.
    pub fn player_search(&self, name: &str) -> (r: HQMPlayerMatches)
        ensures
            r@ == self@.search(name@),
    {
        let ghost query = name@;
        let name = lowered(name);
        let n: usize = self.players.players.len();
        let mut table: Vec<String> = Vec::new();
        for i in 0..n
            invariant
                n == self.players.players@.len(),
                table@.len() == i,
                forall|j: int|
                    #![trigger self@.players[j]]
                    0 <= j < i && self@.players[j] is Some ==> table@[j]@ == lower_text(
                        self@.players[j]->0.player_name,
                    ),
        {
            match &self.players.players[i] {
                Some(player) => {
                    table.push(lowered(player.player_name.as_str()));
                },
                None => {
                    table.push(String::new());
                },
            }
        }
        proof {
            lemma_picked_same(
                self@.players,
                entry_contains(table@, name@),
                is_like(query),
                0,
            );
        }
        self.search_table(&table, name.as_str())
    }

    /// The first few players whose entry in a table of texts by slot contains a text.
    pub fn search_table(&self, table: &Vec<String>, text: &str) -> (r: HQMPlayerMatches)
        requires
            table@.len() == self@.players.len(),
        ensures
            r@ == at_most(
                by_name(picked(self@.players, entry_contains(table@, text@), 0)),
                LISTED as nat,
            ),
    {
        let n: usize = self.players.players.len();
        let mut found = no_matches();
        let ghost p = entry_contains(table@, text@);
        let ghost all = picked(self@.players, p, 0);
        let ghost mut done: Seq<(HQMServerPlayerIndex, HQMServerPlayerView)> = seq![];
        assert(done + all =~= all);
        assert(by_name(done) =~= seq![]);
        for i in 0..n
            invariant
                n == self.players.players@.len(),
                table@.len() == n,
                p == entry_contains(table@, text@),
                all == picked(self@.players, p, 0),
                done + picked(self@.players, p, i as int) == all,
                done.len() < LISTED,
                found@ == by_name(done),
        {
            if let Some(player) = &self.players.players[i] {
                assert(self@.players[i as int] == Some(player@));
                if contains_text(table[i].as_str(), text) {
                    let index = HQMServerPlayerIndex(i);
                    push_match(&mut found, index, player.player_name.clone());
                    proof {
                        let rest = picked(self@.players, p, i + 1);
                        assert(done + (seq![(index, player@)] + rest) =~= done.push(
                            (index, player@),
                        ) + rest);
                        assert(by_name(done.push((index, player@))) =~= by_name(done).push(
                            (index, player@.player_name),
                        ));
                        done = done.push((index, player@));
                    }
                    if count_matches(&found) >= LISTED {
                        assert(by_name(all).len() >= LISTED);
                        assert(by_name(all).take(LISTED as int) =~= by_name(done));
                        assert(by_name(all).len() == LISTED ==> by_name(all) =~= by_name(done));
                        return found;
                    }
                }
            }
        }
        assert(all =~= done);
        found
    }

    /// Lists the first few players, from a slot on.
    pub fn list_players(&mut self, receiver_index: HQMServerPlayerIndex, first_index: usize)
        requires
            old(self)@.wf(),
        ensures
            final(self)@.wf(),
            final(self)@ == old(self)@.after_list(receiver_index, first_index),
    {
        let n: usize = self.players.players.len();
        let mut shown: usize = 0;
        let ghost p = from_slot(first_index);
        let ghost all = picked(self@.players, p, 0);
        let ghost mut done: Seq<(HQMServerPlayerIndex, HQMServerPlayerView)> = seq![];
        assert(done + all =~= all);
        assert(listing(by_name(done)) =~= seq![]);
        let mut i: usize = 0;
        while i < n && shown < LISTED
            invariant
                n == self.players.players@.len(),
                i <= n,
                p == from_slot(first_index),
                all == picked(old(self)@.players, p, 0),
                done + picked(old(self)@.players, p, i as int) == all,
                done.len() == shown,
                shown <= LISTED,
                self@ == old(self)@.told_all(listing(by_name(done)), receiver_index),
            decreases n - i,
        {
            if let Some(player) = &self.players.players[i] {
                assert(self@.players[i as int] == Some(player@));
                if i >= first_index {
                    let msg = write_numbered_line(i, player.player_name.as_str());
                    proof {
                        let index = HQMServerPlayerIndex(i);
                        let rest = picked(self@.players, p, i + 1);
                        assert(done + (seq![(index, player@)] + rest) =~= done.push(
                            (index, player@),
                        ) + rest);
                        assert(listing(by_name(done.push((index, player@)))) =~= listing(
                            by_name(done),
                        ).push(msg@));
                        lemma_told_all_push(
                            old(self)@.messages,
                            listing(by_name(done)),
                            msg@,
                            receiver_index,
                        );
                        done = done.push((index, player@));
                    }
                    self.messages.add_directed_server_chat_message(Cow::Owned(msg), receiver_index);
                    shown = shown + 1;
                }
            }
            i = i + 1;
        }
        proof {
            if i >= n {
                assert(all =~= done);
            } else {
                assert(by_name(all).take(LISTED as int) =~= by_name(done));
                assert(by_name(all).len() == LISTED ==> by_name(all) =~= by_name(done));
            }
            lemma_told_all_keeps(
                old(self)@.messages,
                listing(by_name(done)),
                receiver_index,
            );
        }
    }

    /// Lists players that were found.
    pub fn list_matches(&mut self, found: &HQMPlayerMatches, receiver_index: HQMServerPlayerIndex)
        requires
            old(self)@.wf(),
        ensures
            final(self)@.wf(),
            final(self)@ == old(self)@.told_all(listing(found@), receiver_index),
    {
        let n: usize = count_matches(found);
        let ghost lines = listing(found@);
        assert(lines.take(0) =~= seq![]);
        for i in 0..n
            invariant
                n == found@.len(),
                lines == listing(found@),
                self@ == old(self)@.told_all(lines.take(i as int), receiver_index),
        {
            let (index, name) = match_at(found, i);
            let msg = write_numbered_line(index.0, name.as_str());
            self.messages.add_directed_server_chat_message(Cow::Owned(msg), receiver_index);
            proof {
                assert(lines.take(i + 1) =~= lines.take(i as int).push(lines[i as int]));
                lemma_told_all_push(
                    old(self)@.messages,
                    lines.take(i as int),
                    lines[i as int],
                    receiver_index,
                );
            }
        }
        proof {
            assert(lines.take(n as int) =~= lines);
            lemma_told_all_keeps(old(self)@.messages, lines, receiver_index);
        }
    }

    /// Lists the first few players whose name contains a text.
    pub fn search_players(&mut self, player_index: HQMServerPlayerIndex, name: &str)
        requires
            old(self)@.wf(),
        ensures
            final(self)@.wf(),
            final(self)@ == old(self)@.after_search(player_index, name@),
    {
        let matches = self.player_search(name);
        if count_matches(&matches) == 0 {
            self.messages.add_directed_server_chat_message(
                Cow::Borrowed("No matches found"),
                player_index,
            );
            return ;
        }
        self.list_matches(&matches, player_index);
    }
}

} // verus!
