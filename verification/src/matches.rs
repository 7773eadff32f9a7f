//! Lists of players that were looked up.

use crate::player::{HQMServerPlayerIndex, HQMServerPlayerView, PLAYER_SLOTS};
use smallvec::SmallVec;
use std::rc::Rc;
use vstd::prelude::*;

verus! {

/// Players by slot and name, in the order in which they were found. They are kept in
/// a `SmallVec`, which is known by the functions below alone.
#[verifier::external_body]
pub struct HQMPlayerMatches {
    items: SmallVec<[(HQMServerPlayerIndex, Rc<String>); 64]>,
}

/// The slots and names in a list.
pub uninterp spec fn matched_players(m: HQMPlayerMatches) -> Seq<
    (HQMServerPlayerIndex, Seq<char>),
>;

impl View for HQMPlayerMatches {
    type V = Seq<(HQMServerPlayerIndex, Seq<char>)>;

    open spec fn view(&self) -> Seq<(HQMServerPlayerIndex, Seq<char>)> {
        matched_players(*self)
    }
}

/// `SmallVec::new`: a list starts out empty.
#[verifier::external_body]
pub(crate) fn no_matches() -> (r: HQMPlayerMatches)
    ensures
        matched_players(r) == Seq::<(HQMServerPlayerIndex, Seq<char>)>::empty(),
{
    HQMPlayerMatches { items: SmallVec::new() }
}

/// `SmallVec::push`: adds a player at the end. There is room for every slot
/// without an allocation.
#[verifier::external_body]
pub(crate) fn push_match(m: &mut HQMPlayerMatches, index: HQMServerPlayerIndex, name: Rc<String>)
    requires
        matched_players(*old(m)).len() < PLAYER_SLOTS,
    ensures
        matched_players(*final(m)) == matched_players(*old(m)).push((index, (*name)@)),
{
    m.items.push((index, name))
}

/// `SmallVec::len`: how many players are in the list.
#[verifier::external_body]
pub(crate) fn count_matches(m: &HQMPlayerMatches) -> (r: usize)
    ensures
        r == matched_players(*m).len(),
{
    m.items.len()
}

/// `SmallVec::index`: the player at a place in the list.
#[verifier::external_body]
pub(crate) fn match_at(m: &HQMPlayerMatches, i: usize) -> (r: (HQMServerPlayerIndex, Rc<String>))
    requires
        i < matched_players(*m).len(),
    ensures
        (r.0, (*r.1)@) == matched_players(*m)[i as int],
{
    (m.items[i].0, m.items[i].1.clone())
}

impl HQMPlayerMatches {
    /// How many players are in the list.
    pub fn len(&self) -> (r: usize)
        ensures
            r == self@.len(),
    {
        count_matches(self)
    }

    /// The slot and the name of the player at a place in the list.
    pub fn get(&self, i: usize) -> (r: Option<(HQMServerPlayerIndex, Rc<String>)>)
        ensures
            if i < self@.len() {
                r is Some && ((r->0).0, (*(r->0).1)@) == self@[i as int]
            } else {
                r is None
            },
    {
        if i < count_matches(self) {
            Some(match_at(self, i))
        } else {
            None
        }
    }
}

/// Players by slot and name.
pub open spec fn by_name(s: Seq<(HQMServerPlayerIndex, HQMServerPlayerView)>) -> Seq<
    (HQMServerPlayerIndex, Seq<char>),
> {
    Seq::new(s.len(), |i: int| (s[i].0, s[i].1.player_name))
}

/// The first members of a list, at most `n`.
pub open spec fn at_most<T>(s: Seq<T>, n: nat) -> Seq<T> {
    if s.len() <= n {
        s
    } else {
        s.take(n as int)
    }
}

} // verus!
