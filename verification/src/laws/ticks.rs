//! Laws on the course of a tick, and on announcements.

use crate::game::HQMSimulationEvent;
use crate::master::{HQMAnnouncer, HQMAnnouncerAction, HQMAnnouncerEvent, ANNOUNCEMENTS};
use crate::net::HQMSocketAddr;
use crate::player::{picked, HQMServerPlayerIndex, HQMServerPlayerView, PLAYER_SLOTS};
use crate::server::HQMServerView;
use crate::session::{all_aged, is_inactive};
use crate::tick::{touches_of, HQMTickEvent, HQMTickPhaseView};
use vstd::prelude::*;

verus! {

/// How many more steps a tick takes at most.
pub open spec fn steps_left(phase: HQMTickPhaseView) -> int {
    match phase {
        HQMTickPhaseView::Idle => 0,
        HQMTickPhaseView::Abandoned => 2,
        HQMTickPhaseView::Restarted => 1,
        HQMTickPhaseView::Starting => 7 + 2 * PLAYER_SLOTS,
        HQMTickPhaseView::Exiting { inactive, next } => 6 + 2 * (inactive.len() - next),
        HQMTickPhaseView::Clearing { inactive, next } => 5 + 2 * (inactive.len() - next),
        HQMTickPhaseView::Stepping => 6,
        HQMTickPhaseView::Simulating => 5,
        HQMTickPhaseView::Watching => 4,
        HQMTickPhaseView::Deciding => 3,
        HQMTickPhaseView::Recording => 2,
        HQMTickPhaseView::Sending => 1,
    }
}

/// Whether no more players are about to go than there can be.
pub open spec fn fits(phase: HQMTickPhaseView) -> bool {
    match phase {
        HQMTickPhaseView::Exiting { inactive, next } => inactive.len() <= PLAYER_SLOTS,
        HQMTickPhaseView::Clearing { inactive, next } => inactive.len() <= PLAYER_SLOTS,
        _ => true,
    }
}

proof fn lemma_picked_fits(
    players: Seq<Option<HQMServerPlayerView>>,
    p: spec_fn(HQMServerPlayerIndex, HQMServerPlayerView) -> bool,
    from: int,
)
    requires
        0 <= from <= players.len(),
    ensures
        picked(players, p, from).len() <= players.len() - from,
    decreases players.len() - from,
{
    if from < players.len() {
        lemma_picked_fits(players, p, from + 1);
    }
}

/// Every tick comes to its end, whatever the rink and the rules answer: each step
/// leaves fewer to be taken, and the server rests exactly when none is left.
pub proof fn law_ticks_end<P>(
    s: HQMServerView,
    phase: HQMTickPhaseView,
    event: HQMTickEvent<P>,
    now: u64,
    time: i64,
)
    requires
        s.wf(),
        s.can_tick(phase, event),
        fits(phase),
    ensures
        ({
            let next = s.after_tick(phase, event, now, time);
            &&& fits(next.phase)
            &&& 0 <= steps_left(next.phase) <= 7 + 2 * PLAYER_SLOTS
            &&& !(phase is Idle) ==> 0 <= steps_left(next.phase) < steps_left(phase)
            &&& next.phase is Idle <==> next.action is Rest
            &&& next.phase is Sending <==> next.action is Send
        }),
{
    lemma_picked_fits(all_aged(s.players), is_inactive(), 0);
}

/// The speed of a puck is limited two steps after it was touched, and only if no
/// puck was touched since.
pub proof fn law_settled_touches(
    s: HQMServerView,
    first: Seq<HQMSimulationEvent>,
    second: Seq<HQMSimulationEvent>,
    third: Seq<HQMSimulationEvent>,
    second_step: u32,
    third_step: u32,
)
    requires
        s.wf(),
    ensures
        ({
            let one = s.after_touches(first);
            let two = HQMServerView { game_step: second_step, ..one }.after_touches(second);
            let three = HQMServerView { game_step: third_step, ..two }.after_touches(third);
            let untouched = touches_of(second).len() == 0 && touches_of(third).len() == 0;
            three.settled_touches() == if untouched {
                touches_of(first)
            } else {
                seq![]
            }
        }),
{
    let one = s.after_touches(first);
    let two = HQMServerView { game_step: second_step, ..one }.after_touches(second);
    let three = HQMServerView { game_step: third_step, ..two }.after_touches(third);
    assert(one.saved_events[0] == (s.game_step, touches_of(first)));
    assert(two.saved_events[0] == (second_step, touches_of(second)));
    if touches_of(second).len() == 0 {
        assert(two.saved_events[1] == one.saved_events[0]);
    } else {
        assert(two.saved_events.len() == 1);
    }
    if touches_of(third).len() == 0 {
        assert(three.saved_events[1] == two.saved_events[0]);
        if two.saved_events.len() > 1 {
            assert(three.saved_events[2] == two.saved_events[1]);
        }
    } else {
        assert(three.saved_events.len() == 1);
    }
}

/// The announcer after a number of announcements that could be sent.
pub open spec fn announced(a: HQMAnnouncer, times: nat) -> (HQMAnnouncer, HQMAnnouncerAction)
    decreases times,
{
    let before = if times == 0 {
        a
    } else {
        announced(a, (times - 1) as nat).0.after(HQMAnnouncerEvent::Sent(true)).0
    };
    before.after(HQMAnnouncerEvent::Slept)
}

/// The server is announced a fixed number of times at an address before the address
/// is asked for again.
pub proof fn law_announcements(addr: HQMSocketAddr, times: nat)
    requires
        times <= ANNOUNCEMENTS,
    ensures
        ({
            let found = HQMAnnouncer::Pausing { addr, left: ANNOUNCEMENTS };
            &&& HQMAnnouncer::Asking.after(HQMAnnouncerEvent::Found(addr)) == announced(found, 0)
            &&& announced(found, times) == if times < ANNOUNCEMENTS {
                (
                    HQMAnnouncer::Announcing { addr, left: (ANNOUNCEMENTS - times) as u32 },
                    HQMAnnouncerAction::Send(addr),
                )
            } else {
                (HQMAnnouncer::Asking, HQMAnnouncerAction::Ask)
            }
        }),
    decreases times,
{
    if times > 0 {
        law_announcements(addr, (times - 1) as nat);
    }
}

} // verus!
