//! Laws on teams, numbers and names.

use crate::game::HQMTeam;
use crate::lookup::{is_like, is_named, LISTED};
use crate::matches::by_name;
use crate::player::{
    lemma_picked_complete, lemma_picked_ordered, lemma_picked_sound, picked, player_at,
    HQMServerPlayerIndex,
};
use crate::server::HQMServerView;
use crate::text::{decimal_text, decimal_value, is_digit, lower_text, occurs_in, parsed_index};
use vstd::prelude::*;

verus! {

/// The opponents of a team's opponents are the team itself, and nobody opposes
/// themselves.
pub proof fn law_opponents(team: HQMTeam)
    ensures
        team.other().other() == team,
        team.other() != team,
{
}

/// The decimal form of a number has digits only, at least one, and stands for the
/// number.
proof fn lemma_decimal_text(n: nat)
    ensures
        decimal_text(n).len() > 0,
        forall|i: int| 0 <= i < decimal_text(n).len() ==> is_digit(#[trigger] decimal_text(n)[i]),
        decimal_value(decimal_text(n)) == n,
    decreases n,
{
    let s = decimal_text(n);
    if n < 10 {
        assert(s.drop_last() =~= seq![]);
        assert(decimal_value(s.drop_last()) == 0);
        assert(s.last() as nat == n + 48);
    } else {
        lemma_decimal_text(n / 10);
        assert(s.drop_last() =~= decimal_text(n / 10));
        assert(s.last() as nat == n % 10 + 48);
    }
}

/// A slot that was shown is read back as the same slot.
pub proof fn law_slots_are_read_back(index: HQMServerPlayerIndex)
    ensures
        parsed_index(decimal_text(index.0 as nat)) == Some(index.0),
{
    let s = decimal_text(index.0 as nat);
    lemma_decimal_text(index.0 as nat);
    assert(is_digit(s[0]));
    assert(s[0] != '+');
}

/// A player is found by name exactly if the name is that player's and nobody else's.
pub proof fn law_unique_match(s: HQMServerView, name: Seq<char>, index: HQMServerPlayerIndex)
    requires
        s.wf(),
    ensures
        s.unique_match(name) == Some((index, name)) <==> (player_at(s.players, index) is Some
            && player_at(s.players, index)->0.player_name == name && forall|j: int|
            0 <= j < s.players.len() && j != index.0 && (#[trigger] s.players[j]) is Some
                ==> s.players[j]->0.player_name != name),
        s.unique_match(name) is Some ==> (s.unique_match(name)->0).1 == name,
{
    let p = is_named(name);
    let found = picked(s.players, p, 0);
    if found.len() == 1 {
        lemma_picked_sound(s.players, p, 0, 0);
        assert forall|j: int|
            0 <= j < s.players.len() && j != found[0].0.0 && (
            #[trigger] s.players[j]) is Some implies s.players[j]->0.player_name != name by {
            if s.players[j]->0.player_name == name {
                let k = lemma_picked_complete(s.players, p, 0, j);
            }
        }
    }
    let alone = player_at(s.players, index) is Some && player_at(s.players, index)->0.player_name
        == name && forall|j: int|
        0 <= j < s.players.len() && j != index.0 && (#[trigger] s.players[j]) is Some
            ==> s.players[j]->0.player_name != name;
    if alone {
        let k = lemma_picked_complete(s.players, p, 0, index.0 as int);
        if found.len() > 1 {
            lemma_picked_sound(s.players, p, 0, 0);
            lemma_picked_sound(s.players, p, 0, 1);
            lemma_picked_ordered(s.players, p, 0, 0, 1);
        }
    }
}

/// A search finds at most a handful of players, all of whom have a name that
/// contains the text; and it finds all of those if it finds fewer.
pub proof fn law_search(s: HQMServerView, text: Seq<char>)
    requires
        s.wf(),
    ensures
        s.search(text).len() <= LISTED,
        forall|k: int|
            0 <= k < s.search(text).len() ==> {
                let (index, name) = #[trigger] s.search(text)[k];
                &&& player_at(s.players, index) is Some
                &&& player_at(s.players, index)->0.player_name == name
                &&& occurs_in(lower_text(text), lower_text(name))
            },
        s.search(text).len() < LISTED ==> forall|i: int|
            0 <= i < s.players.len() && (#[trigger] s.players[i]) is Some && occurs_in(
                lower_text(text),
                lower_text(s.players[i]->0.player_name),
            ) ==> s.search(text).contains(
                (HQMServerPlayerIndex(i as usize), s.players[i]->0.player_name),
            ),
{
    let p = is_like(text);
    let found = picked(s.players, p, 0);
    assert forall|k: int| 0 <= k < s.search(text).len() implies {
        let (index, name) = #[trigger] s.search(text)[k];
        &&& player_at(s.players, index) is Some
        &&& player_at(s.players, index)->0.player_name == name
        &&& occurs_in(lower_text(text), lower_text(name))
    } by {
        lemma_picked_sound(s.players, p, 0, k);
        assert(s.search(text)[k] == by_name(found)[k]);
    }
    if s.search(text).len() < LISTED {
        assert forall|i: int|
            0 <= i < s.players.len() && (#[trigger] s.players[i]) is Some && occurs_in(
                lower_text(text),
                lower_text(s.players[i]->0.player_name),
            ) implies s.search(text).contains(
            (HQMServerPlayerIndex(i as usize), s.players[i]->0.player_name),
        ) by {
            let k = lemma_picked_complete(s.players, p, 0, i);
            assert(s.search(text)[k] == by_name(found)[k]);
        }
    }
}

} // verus!
