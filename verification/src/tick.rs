//! One tick of the server, step by step.
//!
//! Between the steps of a tick the rink moves and the rules of the game have their
//! say. Each step takes what came of the action before it, and says what to do next.

use crate::buffer::buffer_limit;
use crate::game::{
    HQMInitialGameValues, HQMObjectIndex, HQMObjectPacket, HQMPlayerInput, HQMSimulationEvent,
    ReplayEnabled,
};
use crate::matches::{at_most, by_name, count_matches, match_at, HQMPlayerMatches};
use crate::net::HQMSocketAddr;
use crate::player::{picked, HQMServerPlayerData, HQMServerPlayerIndex, HQMServerPlayerView};
use crate::replay::{utc_now, HQMNewGame, HQMNewGameView};
use crate::server::{
    event_views, recorded, HQMServer, HQMServerView, ReplayTick, Touch, EARLIEST_TIME, LATEST_TIME,
    TOUCHES_KEPT,
};
use crate::session::{all_aged, is_inactive, HQMLeaving};
use crate::wire::{field_views, update_views, HQMUpdate, HQMWireField, HQMWireFieldView};
use std::collections::VecDeque;
use vstd::prelude::*;

verus! {

/// Where in a tick the server is.
pub enum HQMTickPhase {
    /// Between two ticks.
    Idle,
    /// Nobody is left of a game that had begun.
    Abandoned,
    /// The new game behind an abandoned one is known to the rules.
    Restarted,
    /// The game that begins is known to the rules.
    Starting,
    /// The rules know that an inactive player is about to go.
    Exiting { inactive: HQMPlayerMatches, next: usize },
    /// An inactive player has gone, and the skater too.
    Clearing { inactive: HQMPlayerMatches, next: usize },
    /// The rules have prepared the step.
    Stepping,
    /// The rink has moved.
    Simulating,
    /// The rules have seen what happened.
    Watching,
    /// The rules have said whether the step is recorded.
    Deciding,
    /// The step is ready to be recorded.
    Recording,
    /// The clients know of the step.
    Sending,
}

/// Where in a tick the server is.
pub enum HQMTickPhaseView {
    Idle,
    Abandoned,
    Restarted,
    Starting,
    Exiting { inactive: Seq<(HQMServerPlayerIndex, Seq<char>)>, next: usize },
    Clearing { inactive: Seq<(HQMServerPlayerIndex, Seq<char>)>, next: usize },
    Stepping,
    Simulating,
    Watching,
    Deciding,
    Recording,
    Sending,
}

impl View for HQMTickPhase {
    type V = HQMTickPhaseView;

    open spec fn view(&self) -> HQMTickPhaseView {
        match self {
            HQMTickPhase::Idle => HQMTickPhaseView::Idle,
            HQMTickPhase::Abandoned => HQMTickPhaseView::Abandoned,
            HQMTickPhase::Restarted => HQMTickPhaseView::Restarted,
            HQMTickPhase::Starting => HQMTickPhaseView::Starting,
            HQMTickPhase::Exiting { inactive, next } => HQMTickPhaseView::Exiting {
                inactive: inactive@,
                next: *next,
            },
            HQMTickPhase::Clearing { inactive, next } => HQMTickPhaseView::Clearing {
                inactive: inactive@,
                next: *next,
            },
            HQMTickPhase::Stepping => HQMTickPhaseView::Stepping,
            HQMTickPhase::Simulating => HQMTickPhaseView::Simulating,
            HQMTickPhase::Watching => HQMTickPhaseView::Watching,
            HQMTickPhase::Deciding => HQMTickPhaseView::Deciding,
            HQMTickPhase::Recording => HQMTickPhaseView::Recording,
            HQMTickPhase::Sending => HQMTickPhaseView::Sending,
        }
    }
}

/// What came of the last action.
pub enum HQMTickEvent<P> {
    /// It is time for a tick.
    Timer,
    /// The action is done.
    Done,
    /// What a new game starts from.
    InitialValues(HQMInitialGameValues<P>),
    /// What happened on the rink.
    Simulated(Vec<HQMSimulationEvent>),
    /// The objects as clients see them.
    Packets([HQMObjectPacket; 32]),
    /// Whether the step is recorded.
    ReplayDecision(bool),
    /// The step as it is recorded.
    ReplayWritten(Vec<u8>),
}

/// What to do next.
pub enum HQMTickAction<P> {
    /// Wait for the timer.
    Rest,
    /// Ask the rules what a new game starts from.
    AskInitialValues,
    /// Clear the rink, store the replay, and tell the rules that a game has begun.
    EnterNewGame(HQMNewGame<P>),
    /// Tell the rules that a game has begun.
    TellGameStarted,
    /// Tell the rules that a player is about to go.
    TellExit(HQMServerPlayerIndex),
    /// Take an object off the rink, if there is one.
    TakeOffRink(Option<HQMObjectIndex>),
    /// Let the rules prepare the step.
    TellBeforeTick,
    /// Give the skaters their input, and move the rink on by one step.
    Simulate(Vec<(HQMObjectIndex, HQMPlayerInput)>),
    /// Limit the speed of the pucks that were touched, and let the rules see what
    /// happened.
    LimitPucks(Vec<Touch>),
    /// Ask the rules whether the step is recorded.
    AskReplay,
    /// Write the step for the replay.
    WriteReplay(Vec<HQMWireField>),
    /// Send packets to the clients.
    Send(Vec<HQMUpdate>),
}

/// What to do next.
pub enum HQMTickActionView<P> {
    Rest,
    AskInitialValues,
    EnterNewGame(HQMNewGameView<P>),
    TellGameStarted,
    TellExit(HQMServerPlayerIndex),
    TakeOffRink(Option<HQMObjectIndex>),
    TellBeforeTick,
    Simulate(Seq<(HQMObjectIndex, HQMPlayerInput)>),
    LimitPucks(Seq<Touch>),
    AskReplay,
    WriteReplay(Seq<HQMWireFieldView>),
    Send(Seq<(HQMSocketAddr, Seq<HQMWireFieldView>)>),
}

impl<P> View for HQMTickAction<P> {
    type V = HQMTickActionView<P>;

    open spec fn view(&self) -> HQMTickActionView<P> {
        match self {
            HQMTickAction::Rest => HQMTickActionView::Rest,
            HQMTickAction::AskInitialValues => HQMTickActionView::AskInitialValues,
            HQMTickAction::EnterNewGame(game) => HQMTickActionView::EnterNewGame(game@),
            HQMTickAction::TellGameStarted => HQMTickActionView::TellGameStarted,
            HQMTickAction::TellExit(index) => HQMTickActionView::TellExit(*index),
            HQMTickAction::TakeOffRink(object) => HQMTickActionView::TakeOffRink(*object),
            HQMTickAction::TellBeforeTick => HQMTickActionView::TellBeforeTick,
            HQMTickAction::Simulate(inputs) => HQMTickActionView::Simulate(inputs@),
            HQMTickAction::LimitPucks(touches) => HQMTickActionView::LimitPucks(touches@),
            HQMTickAction::AskReplay => HQMTickActionView::AskReplay,
            HQMTickAction::WriteReplay(fields) => HQMTickActionView::WriteReplay(
                field_views(fields@),
            ),
            HQMTickAction::Send(updates) => HQMTickActionView::Send(update_views(updates@)),
        }
    }
}

/// The server after a step of a tick, where in the tick it is then, and what to do.
#[verifier::ext_equal]
pub struct HQMTickStep<P> {
    pub server: HQMServerView,
    pub phase: HQMTickPhaseView,
    pub action: HQMTickActionView<P>,
}

/// Who touched which puck in one step, the latest first.
pub open spec fn touches_of(events: Seq<HQMSimulationEvent>) -> Seq<Touch>
    decreases events.len(),
{
    if events.len() == 0 {
        seq![]
    } else {
        let before = touches_of(events.drop_last());
        match events.last() {
            HQMSimulationEvent::PuckTouch { player, puck } => seq![(player, puck)] + before,
            HQMSimulationEvent::Other => before,
        }
    }
}

/// The players on the rink.
pub open spec fn on_rink() -> spec_fn(HQMServerPlayerIndex, HQMServerPlayerView) -> bool {
    |i: HQMServerPlayerIndex, p: HQMServerPlayerView| p.object is Some
}

/// The objects of players, and what each does with the controls.
pub open spec fn inputs_of(players: Seq<(HQMServerPlayerIndex, HQMServerPlayerView)>) -> Seq<
    (HQMObjectIndex, HQMPlayerInput),
> {
    Seq::new(players.len(), |i: int| ((players[i].1.object->0).0, players[i].1.input))
}

impl HQMTickPhaseView {
    /// Whether something is what the server waits for.
    pub open spec fn accepts<P>(self, event: HQMTickEvent<P>) -> bool {
        match self {
            HQMTickPhaseView::Idle => event is Timer,
            HQMTickPhaseView::Abandoned => event is InitialValues,
            HQMTickPhaseView::Restarted => event is Done,
            HQMTickPhaseView::Starting => event is Done,
            HQMTickPhaseView::Exiting { inactive, next } => event is Done && next < inactive.len(),
            HQMTickPhaseView::Clearing { inactive, next } => event is Done && next
                < inactive.len(),
            HQMTickPhaseView::Stepping => event is Done,
            HQMTickPhaseView::Simulating => event is Simulated,
            HQMTickPhaseView::Watching => event is Packets,
            HQMTickPhaseView::Deciding => event is ReplayDecision,
            HQMTickPhaseView::Recording => event is ReplayWritten,
            HQMTickPhaseView::Sending => event is Done,
        }
    }
}

impl HQMServerView {
    /// Whether the server can take a step: counters that go up have room to, the
    /// replay has room for what was written, and what was asked to be shown again is
    /// still known.
    pub open spec fn can_tick<P>(self, phase: HQMTickPhaseView, event: HQMTickEvent<P>) -> bool {
        &&& phase.accepts(event)
        &&& phase is Starting || (phase is Idle && self.has_current_game_been_active)
            ==> self.can_age()
        &&& phase is Abandoned ==> self.game_id < u32::MAX
        &&& phase is Recording ==> self.replay_data.len() + event->ReplayWritten_0@.len() + 8
            <= buffer_limit()
        &&& phase is Sending ==> self.can_show_all()
    }

    /// Whether a game begins when the timer fires.
    pub open spec fn begins_game(self) -> bool {
        self.player_count() != 0 && !self.has_current_game_been_active
    }

    /// When the timer fires. `time` is the time of day.
    pub open spec fn on_timer<P>(self, now: u64, time: i64) -> HQMTickStep<P> {
        if self.player_count() == 0 {
            if self.has_current_game_been_active {
                HQMTickStep {
                    server: self,
                    phase: HQMTickPhaseView::Abandoned,
                    action: HQMTickActionView::AskInitialValues,
                }
            } else {
                HQMTickStep {
                    server: self,
                    phase: HQMTickPhaseView::Idle,
                    action: HQMTickActionView::Rest,
                }
            }
        } else if self.has_current_game_been_active {
            self.on_playing(now)
        } else {
            HQMTickStep {
                server: HQMServerView {
                    start_time: time,
                    has_current_game_been_active: true,
                    ..self
                },
                phase: HQMTickPhaseView::Starting,
                action: HQMTickActionView::TellGameStarted,
            }
        }
    }

    /// When a game is on: players who have been silent for too long have to go.
    pub open spec fn on_playing<P>(self, now: u64) -> HQMTickStep<P> {
        HQMServerView { players: all_aged(self.players), ..self }.before_exit(
            by_name(picked(all_aged(self.players), is_inactive(), 0)),
            0,
            now,
        )
    }

    /// When the players of a list have gone whose place in it is before `next`.
    pub open spec fn before_exit<P>(
        self,
        inactive: Seq<(HQMServerPlayerIndex, Seq<char>)>,
        next: int,
        now: u64,
    ) -> HQMTickStep<P> {
        if next < inactive.len() {
            HQMTickStep {
                server: self,
                phase: HQMTickPhaseView::Exiting { inactive, next: next as usize },
                action: HQMTickActionView::TellExit(inactive[next].0),
            }
        } else {
            self.on_step(now)
        }
    }

    /// When a step begins: one that is shown again, or a new one.
    pub open spec fn on_step<P>(self, now: u64) -> HQMTickStep<P> {
        let shown = self.after_replay_tick(now);
        if self.shows_replay() {
            shown.on_sending(
                self.replay_queue[0].data[0].game_step,
                self.replay_queue[0].force_view,
            )
        } else {
            HQMTickStep {
                server: HQMServerView { game_step: self.game_step.wrapping_add(1), ..shown },
                phase: HQMTickPhaseView::Stepping,
                action: HQMTickActionView::TellBeforeTick,
            }
        }
    }

    /// The server with one more step's touches. Only the touches since which no
    /// puck was touched are kept.
    pub open spec fn after_touches(self, events: Seq<HQMSimulationEvent>) -> Self {
        let touches = touches_of(events);
        let before = if touches.len() == 0 {
            self.saved_events
        } else {
            seq![]
        };
        HQMServerView {
            saved_events: recorded(before, (self.game_step, touches), TOUCHES_KEPT as nat),
            ..self
        }
    }

    /// The touches after which enough steps have passed.
    pub open spec fn settled_touches(self) -> Seq<Touch> {
        if self.saved_events.len() == TOUCHES_KEPT {
            self.saved_events[TOUCHES_KEPT - 1].1
        } else {
            seq![]
        }
    }

    /// The server with one more step that can be shown again.
    pub open spec fn with_history(self, packets: [HQMObjectPacket; 32]) -> Self {
        let tick = ReplayTick { game_step: self.game_step, packets };
        HQMServerView {
            saved_history: if self.history_length > 0 {
                recorded(self.saved_history, tick, self.history_length as nat)
            } else {
                seq![]
            },
            ..self
        }
    }

    /// When the rules have seen a step.
    pub open spec fn on_packets<P>(self, packets: [HQMObjectPacket; 32], now: u64) -> HQMTickStep<
        P,
    > {
        let after = self.with_history(packets).after_packets(packets, now);
        if self.config.replays_enabled == ReplayEnabled::Off {
            after.on_sending(self.game_step, None)
        } else {
            HQMTickStep {
                server: after,
                phase: HQMTickPhaseView::Deciding,
                action: HQMTickActionView::AskReplay,
            }
        }
    }

    /// When a step is over: messages are handed out, and every client is told.
    pub open spec fn on_sending<P>(
        self,
        game_step: u32,
        force_view: Option<HQMServerPlayerIndex>,
    ) -> HQMTickStep<P> {
        let after = self.after_delivery();
        HQMTickStep {
            server: after,
            phase: HQMTickPhaseView::Sending,
            action: HQMTickActionView::Send(after.updates(game_step, force_view)),
        }
    }

    /// When the rules have said what a new game starts from.
    pub open spec fn on_initial_values<P>(self, values: HQMInitialGameValues<P>) -> HQMTickStep<
        P,
    > {
        HQMTickStep {
            server: self.after_new_game(values.values),
            phase: HQMTickPhaseView::Restarted,
            action: HQMTickActionView::EnterNewGame(self.new_game(values)),
        }
    }

    /// When the rules know of the new game: everyone may join it.
    pub open spec fn on_restarted<P>(self) -> HQMTickStep<P> {
        HQMTickStep {
            server: HQMServerView { allow_join: true, ..self },
            phase: HQMTickPhaseView::Idle,
            action: HQMTickActionView::Rest,
        }
    }

    /// When the rules know that a player of a list is about to go.
    pub open spec fn on_exit<P>(
        self,
        inactive: Seq<(HQMServerPlayerIndex, Seq<char>)>,
        next: usize,
    ) -> HQMTickStep<P> {
        let (index, name) = inactive[next as int];
        HQMTickStep {
            server: self.after_departure(index, name, HQMLeaving::TimedOut),
            phase: HQMTickPhaseView::Clearing { inactive, next },
            action: HQMTickActionView::TakeOffRink(self.object_of(index)),
        }
    }

    /// When the rules have prepared a step.
    pub open spec fn on_prepared<P>(self) -> HQMTickStep<P> {
        HQMTickStep {
            server: self,
            phase: HQMTickPhaseView::Simulating,
            action: HQMTickActionView::Simulate(inputs_of(picked(self.players, on_rink(), 0))),
        }
    }

    /// When the rink has moved.
    pub open spec fn on_simulated<P>(self, events: Seq<HQMSimulationEvent>) -> HQMTickStep<P> {
        let after = self.after_touches(events);
        HQMTickStep {
            server: after,
            phase: HQMTickPhaseView::Watching,
            action: HQMTickActionView::LimitPucks(after.settled_touches()),
        }
    }

    /// When the rules have said whether a step is recorded.
    pub open spec fn on_decision<P>(self, record: bool) -> HQMTickStep<P> {
        if record {
            HQMTickStep {
                server: self.after_recording(),
                phase: HQMTickPhaseView::Recording,
                action: HQMTickActionView::WriteReplay(self.replay_fields()),
            }
        } else {
            self.on_sending(self.game_step, None)
        }
    }

    /// When a step was written for the replay.
    pub open spec fn on_written<P>(self, bytes: Seq<u8>) -> HQMTickStep<P> {
        HQMServerView { replay_data: self.replay_data + bytes, ..self }.on_sending(
            self.game_step,
            None,
        )
    }

    /// When the clients know of a step.
    pub open spec fn on_sent<P>(self) -> HQMTickStep<P> {
        HQMTickStep {
            server: self.after_requests(),
            phase: HQMTickPhaseView::Idle,
            action: HQMTickActionView::Rest,
        }
    }

    /// One step of a tick. `now` is the clock of the ticks, `time` the time of day.
    pub open spec fn after_tick<P>(
        self,
        phase: HQMTickPhaseView,
        event: HQMTickEvent<P>,
        now: u64,
        time: i64,
    ) -> HQMTickStep<P> {
        match phase {
            HQMTickPhaseView::Idle => self.on_timer(now, time),
            HQMTickPhaseView::Abandoned => self.on_initial_values(event->InitialValues_0),
            HQMTickPhaseView::Restarted => self.on_restarted(),
            HQMTickPhaseView::Starting => self.on_playing(now),
            HQMTickPhaseView::Exiting { inactive, next } => self.on_exit(inactive, next),
            HQMTickPhaseView::Clearing { inactive, next } => self.before_exit(
                inactive,
                next + 1,
                now,
            ),
            HQMTickPhaseView::Stepping => self.on_prepared(),
            HQMTickPhaseView::Simulating => self.on_simulated(event->Simulated_0@),
            HQMTickPhaseView::Watching => self.on_packets(event->Packets_0, now),
            HQMTickPhaseView::Deciding => self.on_decision(event->ReplayDecision_0),
            HQMTickPhaseView::Recording => self.on_written(event->ReplayWritten_0@),
            HQMTickPhaseView::Sending => self.on_sent(),
        }
    }
}

impl HQMServer {
    /// Whether the server can take a step.
    pub fn can_tick<P>(&self, phase: &HQMTickPhase, event: &HQMTickEvent<P>) -> (r: bool)
        requires
            self@.wf(),
        ensures
            r == self@.can_tick(phase@, *event),
    {
        match (phase, event) {
            (HQMTickPhase::Idle, HQMTickEvent::Timer) => !self.has_current_game_been_active
                || self.can_age_players(),
            (HQMTickPhase::Abandoned, HQMTickEvent::InitialValues(_)) => self.game_id < u32::MAX,
            (HQMTickPhase::Restarted, HQMTickEvent::Done) => true,
            (HQMTickPhase::Starting, HQMTickEvent::Done) => self.can_age_players(),
            (HQMTickPhase::Exiting { inactive, next }, HQMTickEvent::Done) => *next
                < count_matches(inactive),
            (HQMTickPhase::Clearing { inactive, next }, HQMTickEvent::Done) => *next
                < count_matches(inactive),
            (HQMTickPhase::Stepping, HQMTickEvent::Done) => true,
            (HQMTickPhase::Simulating, HQMTickEvent::Simulated(_)) => true,
            (HQMTickPhase::Watching, HQMTickEvent::Packets(_)) => true,
            (HQMTickPhase::Deciding, HQMTickEvent::ReplayDecision(_)) => true,
            (HQMTickPhase::Recording, HQMTickEvent::ReplayWritten(bytes)) => self.has_replay_room(
                bytes.len(),
            ),
            (HQMTickPhase::Sending, HQMTickEvent::Done) => self.can_show_requests(),
            _ => false,
        }
    }

    /// Takes one step of a tick, and says what to do next. `now` is the clock of the
    /// ticks, in nanoseconds. A game that begins does so at the time of day, which is
    /// not before 1970.
    #[verifier::spinoff_prover]
    pub fn tick<P>(&mut self, phase: HQMTickPhase, event: HQMTickEvent<P>, now: u64) -> (r: (
        HQMTickPhase,
        HQMTickAction<P>,
    ))
        requires
            old(self)@.wf(),
            old(self)@.can_tick(phase@, event),
        ensures
            final(self)@.wf(),
            (HQMTickStep { server: final(self)@, phase: r.0@, action: r.1@ }) == old(
                self,
            )@.after_tick(phase@, event, now, final(self)@.start_time),
            phase@ is Idle && old(self)@.begins_game() ==> 0 <= final(self)@.start_time,
    {
        match (phase, event) {
            (HQMTickPhase::Idle, _) => self.start_tick(now),
            (HQMTickPhase::Abandoned, HQMTickEvent::InitialValues(values)) => self.enter_new_game(
                values,
            ),
            (HQMTickPhase::Restarted, _) => self.reopen(),
            (HQMTickPhase::Starting, _) => self.find_inactive(now),
            (HQMTickPhase::Exiting { inactive, next }, _) => self.time_out(inactive, next),
            (HQMTickPhase::Clearing { inactive, next }, _) => {
                let count: usize = count_matches(&inactive);
                assert(next < count);
                self.next_exit(inactive, next + 1, now)
            },
            (HQMTickPhase::Stepping, _) => self.simulate(),
            (HQMTickPhase::Simulating, HQMTickEvent::Simulated(events)) => self.take_events(
                &events,
            ),
            (HQMTickPhase::Watching, HQMTickEvent::Packets(packets)) => self.finish_step(
                packets,
                now,
            ),
            (HQMTickPhase::Deciding, HQMTickEvent::ReplayDecision(record)) => self.record_step(
                record,
            ),
            (HQMTickPhase::Recording, HQMTickEvent::ReplayWritten(bytes)) => self.keep_recording(
                bytes.as_slice(),
            ),
            _ => self.end_tick(),
        }
    }

    /// Starts a new game behind an abandoned one.
    fn enter_new_game<P>(&mut self, v: HQMInitialGameValues<P>) -> (r: (
        HQMTickPhase,
        HQMTickAction<P>,
    ))
        requires
            old(self)@.wf(),
            old(self)@.game_id < u32::MAX,
        ensures
            final(self)@.wf(),
            final(self)@.start_time == old(self)@.start_time,
            (HQMTickStep { server: final(self)@, phase: r.0@, action: r.1@ }) == old(
                self,
            )@.on_initial_values(v),
    {
        let game = self.new_game(v);
        (HQMTickPhase::Restarted, HQMTickAction::EnterNewGame(game))
    }

    /// Lets everyone join.
    fn reopen<P>(&mut self) -> (r: (HQMTickPhase, HQMTickAction<P>))
        requires
            old(self)@.wf(),
        ensures
            final(self)@.wf(),
            final(self)@.start_time == old(self)@.start_time,
            (HQMTickStep { server: final(self)@, phase: r.0@, action: r.1@ }) == old(
                self,
            )@.on_restarted::<P>(),
    {
        self.allow_join = true;
        (HQMTickPhase::Idle, HQMTickAction::Rest)
    }

    /// Sees an inactive player off.
    fn time_out<P>(&mut self, inactive: HQMPlayerMatches, next: usize) -> (r: (
        HQMTickPhase,
        HQMTickAction<P>,
    ))
        requires
            old(self)@.wf(),
            next < inactive@.len(),
        ensures
            final(self)@.wf(),
            final(self)@.start_time == old(self)@.start_time,
            (HQMTickStep { server: final(self)@, phase: r.0@, action: r.1@ }) == old(
                self,
            )@.on_exit::<P>(inactive@, next),
    {
        let (player_index, player_name) = match_at(&inactive, next);
        let object = self.player_left(player_index, player_name.as_str(), HQMLeaving::TimedOut);
        (HQMTickPhase::Clearing { inactive, next }, HQMTickAction::TakeOffRink(object))
    }

    /// Gives the skaters their input.
    fn simulate<P>(&mut self) -> (r: (HQMTickPhase, HQMTickAction<P>))
        requires
            old(self)@.wf(),
        ensures
            final(self)@.wf(),
            final(self)@.start_time == old(self)@.start_time,
            (HQMTickStep { server: final(self)@, phase: r.0@, action: r.1@ }) == old(
                self,
            )@.on_prepared::<P>(),
    {
        let inputs = self.player_inputs();
        (HQMTickPhase::Simulating, HQMTickAction::Simulate(inputs))
    }

    /// Takes what happened on the rink.
    fn take_events<P>(&mut self, events: &Vec<HQMSimulationEvent>) -> (r: (
        HQMTickPhase,
        HQMTickAction<P>,
    ))
        requires
            old(self)@.wf(),
        ensures
            final(self)@.wf(),
            final(self)@.start_time == old(self)@.start_time,
            (HQMTickStep { server: final(self)@, phase: r.0@, action: r.1@ }) == old(
                self,
            )@.on_simulated::<P>(events@),
    {
        let touches = self.save_touches(events);
        (HQMTickPhase::Watching, HQMTickAction::LimitPucks(touches))
    }

    /// Records a step, or goes on without.
    fn record_step<P>(&mut self, record: bool) -> (r: (HQMTickPhase, HQMTickAction<P>))
        requires
            old(self)@.wf(),
        ensures
            final(self)@.wf(),
            final(self)@.start_time == old(self)@.start_time,
            (HQMTickStep { server: final(self)@, phase: r.0@, action: r.1@ }) == old(
                self,
            )@.on_decision::<P>(record),
    {
        if record {
            let fields = self.write_replay();
            (HQMTickPhase::Recording, HQMTickAction::WriteReplay(fields))
        } else {
            let game_step: u32 = self.game_step;
            self.finish_tick(game_step, None)
        }
    }

    /// Keeps what was written for the replay, and goes on.
    fn keep_recording<P>(&mut self, bytes: &[u8]) -> (r: (HQMTickPhase, HQMTickAction<P>))
        requires
            old(self)@.wf(),
            old(self)@.replay_data.len() + bytes@.len() + 8 <= buffer_limit(),
        ensures
            final(self)@.wf(),
            final(self)@.start_time == old(self)@.start_time,
            (HQMTickStep { server: final(self)@, phase: r.0@, action: r.1@ }) == old(
                self,
            )@.on_written::<P>(bytes@),
    {
        self.append_replay_data(bytes);
        let game_step: u32 = self.game_step;
        self.finish_tick(game_step, None)
    }

    /// Ends a tick: what was requested is queued to be shown again.
    fn end_tick<P>(&mut self) -> (r: (HQMTickPhase, HQMTickAction<P>))
        requires
            old(self)@.wf(),
            old(self)@.can_show_all(),
        ensures
            final(self)@.wf(),
            final(self)@.start_time == old(self)@.start_time,
            (HQMTickStep { server: final(self)@, phase: r.0@, action: r.1@ }) == old(
                self,
            )@.on_sent::<P>(),
    {
        self.queue_requested_replays();
        (HQMTickPhase::Idle, HQMTickAction::Rest)
    }

    /// Whether every player can be silent for one more tick.
    pub fn can_age_players(&self) -> (r: bool)
        ensures
            r == self@.can_age(),
    {
        let n: usize = self.players.players.len();
        for i in 0..n
            invariant
                n == self.players.players@.len(),
                forall|j: int|
                    0 <= j < i && (#[trigger] self@.players[j]) is Some
                        ==> self@.players[j]->0.data.inactivity < u32::MAX,
        {
            if let Some(player) = &self.players.players[i] {
                assert(self@.players[i as int] == Some(player@));
                match &player.data {
                    HQMServerPlayerData::NetworkPlayer { data } => {
                        if data.inactivity == u32::MAX {
                            return false;
                        }
                    },
                }
            }
        }
        true
    }

    /// Starts a tick.
    fn start_tick<P>(&mut self, now: u64) -> (r: (HQMTickPhase, HQMTickAction<P>))
        requires
            old(self)@.wf(),
            old(self)@.has_current_game_been_active ==> old(self)@.can_age(),
        ensures
            final(self)@.wf(),
            (HQMTickStep { server: final(self)@, phase: r.0@, action: r.1@ }) == old(
                self,
            )@.on_timer::<P>(now, final(self)@.start_time),
            old(self)@.begins_game() ==> 0 <= final(self)@.start_time,
    {
        if self.player_count() != 0 {
            if !self.has_current_game_been_active {
                let time: i64 = utc_now();
                self.begin_game(time);
                (HQMTickPhase::Starting, HQMTickAction::TellGameStarted)
            } else {
                self.find_inactive(now)
            }
        } else if self.has_current_game_been_active {
            (HQMTickPhase::Abandoned, HQMTickAction::AskInitialValues)
        } else {
            (HQMTickPhase::Idle, HQMTickAction::Rest)
        }
    }

    /// Begins a game at a time of day, in seconds since 1970.
    pub fn begin_game(&mut self, time: i64)
        requires
            old(self)@.wf(),
            EARLIEST_TIME <= time <= LATEST_TIME,
        ensures
            final(self)@.wf(),
            final(self)@ == (HQMServerView {
                start_time: time,
                has_current_game_been_active: true,
                ..old(self)@
            }),
    {
        self.start_time = time;
        self.has_current_game_been_active = true;
    }

    /// Finds out who has been silent for too long, and goes on.
    fn find_inactive<P>(&mut self, now: u64) -> (r: (HQMTickPhase, HQMTickAction<P>))
        requires
            old(self)@.wf(),
            old(self)@.can_age(),
        ensures
            final(self)@.wf(),
            final(self)@.start_time == old(self)@.start_time,
            (HQMTickStep { server: final(self)@, phase: r.0@, action: r.1@ }) == old(
                self,
            )@.on_playing::<P>(now),
    {
        let inactive = self.remove_inactive_players();
        self.next_exit(inactive, 0, now)
    }

    /// Goes on when the players of a list have gone whose place in it is before `next`.
    fn next_exit<P>(&mut self, inactive: HQMPlayerMatches, next: usize, now: u64) -> (r: (
        HQMTickPhase,
        HQMTickAction<P>,
    ))
        requires
            old(self)@.wf(),
        ensures
            final(self)@.wf(),
            final(self)@.start_time == old(self)@.start_time,
            (HQMTickStep { server: final(self)@, phase: r.0@, action: r.1@ }) == old(
                self,
            )@.before_exit::<P>(inactive@, next as int, now),
    {
        if next < count_matches(&inactive) {
            let (player_index, _) = match_at(&inactive, next);
            (HQMTickPhase::Exiting { inactive, next }, HQMTickAction::TellExit(player_index))
        } else {
            self.start_step(now)
        }
    }

    /// Begins a step: shows one again, or goes on to a new one.
    fn start_step<P>(&mut self, now: u64) -> (r: (HQMTickPhase, HQMTickAction<P>))
        requires
            old(self)@.wf(),
        ensures
            final(self)@.wf(),
            final(self)@.start_time == old(self)@.start_time,
            (HQMTickStep { server: final(self)@, phase: r.0@, action: r.1@ }) == old(
                self,
            )@.on_step::<P>(now),
    {
        match self.show_replay_tick(now) {
            Some((game_step, forced_view)) => self.finish_tick(game_step, forced_view),
            None => {
                self.game_step = self.game_step.wrapping_add(1);
                (HQMTickPhase::Stepping, HQMTickAction::TellBeforeTick)
            },
        }
    }

    /// The objects of the players on the rink, and what each does with the controls.
    pub fn player_inputs(&self) -> (r: Vec<(HQMObjectIndex, HQMPlayerInput)>)
        ensures
            r@ == inputs_of(picked(self@.players, on_rink(), 0)),
    {
        let mut r: Vec<(HQMObjectIndex, HQMPlayerInput)> = Vec::new();
        let n: usize = self.players.players.len();
        let ghost all = picked(self@.players, on_rink(), 0);
        let ghost mut done: Seq<(HQMServerPlayerIndex, HQMServerPlayerView)> = seq![];
        assert(done + all =~= all);
        for i in 0..n
            invariant
                n == self.players.players@.len(),
                all == picked(self@.players, on_rink(), 0),
                done + picked(self@.players, on_rink(), i as int) == all,
                r@ == inputs_of(done),
        {
            if let Some(player) = &self.players.players[i] {
                assert(self@.players[i as int] == Some(player@));
                if let Some((object_index, _)) = player.object {
                    r.push((object_index, player.input));
                    proof {
                        let index = HQMServerPlayerIndex(i);
                        let rest = picked(self@.players, on_rink(), i + 1);
                        assert(done + (seq![(index, player@)] + rest) =~= done.push(
                            (index, player@),
                        ) + rest);
                        done = done.push((index, player@));
                        assert(r@ =~= inputs_of(done));
                    }
                }
            }
        }
        assert(all =~= done);
        r
    }

    /// Notes who touched a puck in this step; returns the touches after which enough
    /// steps have passed.
    pub fn save_touches(&mut self, events: &Vec<HQMSimulationEvent>) -> (r: Vec<Touch>)
        requires
            old(self)@.wf(),
        ensures
            final(self)@.wf(),
            final(self)@ == old(self)@.after_touches(events@),
            r@ == final(self)@.settled_touches(),
    {
        self.saved_events.truncate(TOUCHES_KEPT - 1);
        let ghost kept = event_views(self.saved_events@);
        assert(kept =~= at_most(old(self)@.saved_events, (TOUCHES_KEPT - 1) as nat));
        let mut step_events: VecDeque<Touch> = VecDeque::new();
        assert(events@.take(0) =~= seq![]);
        for i in 0..events.len()
            invariant
                step_events@ == touches_of(events@.take(i as int)),
                self@ == (HQMServerView { saved_events: self@.saved_events, ..old(self)@ }),
                self@.saved_events == if step_events@.len() == 0 {
                    kept
                } else {
                    seq![]
                },
        {
            assert(events@.take(i + 1).drop_last() =~= events@.take(i as int));
            match events[i] {
                HQMSimulationEvent::PuckTouch { player, puck } => {
                    self.saved_events.clear();
                    assert(self@.saved_events =~= seq![]);
                    step_events.push_front((player, puck));
                    assert(step_events@ =~= touches_of(events@.take(i + 1)));
                },
                HQMSimulationEvent::Other => {},
            }
        }
        assert(events@.take(events@.len() as int) =~= events@);
        let ghost before = self@.saved_events;
        let ghost touches = step_events@;
        self.saved_events.push_front((self.game_step, step_events));
        assert(self@.saved_events =~= seq![(self.game_step, touches)] + before);
        assert(self@ =~= old(self)@.after_touches(events@));
        let mut settled: Vec<Touch> = Vec::new();
        if self.saved_events.len() == TOUCHES_KEPT {
            let touches = &self.saved_events[TOUCHES_KEPT - 1].1;
            let n: usize = touches.len();
            for i in 0..n
                invariant
                    n == touches@.len(),
                    settled@ == touches@.take(i as int),
            {
                settled.push(touches[i]);
                assert(touches@.take(i + 1) =~= touches@.take(i as int).push(touches@[i as int]));
            }
            assert(settled@ =~= touches@);
        }
        settled
    }

    /// Keeps a step for clients and for replays, and goes on.
    fn finish_step<P>(&mut self, packets: [HQMObjectPacket; 32], now: u64) -> (r: (
        HQMTickPhase,
        HQMTickAction<P>,
    ))
        requires
            old(self)@.wf(),
        ensures
            final(self)@.wf(),
            final(self)@.start_time == old(self)@.start_time,
            (HQMTickStep { server: final(self)@, phase: r.0@, action: r.1@ }) == old(
                self,
            )@.on_packets::<P>(packets, now),
    {
        self.save_history(packets);
        self.save_packets(packets, now);
        if self.config.replays_enabled != ReplayEnabled::Off {
            (HQMTickPhase::Deciding, HQMTickAction::AskReplay)
        } else {
            let game_step: u32 = self.game_step;
            self.finish_tick(game_step, None)
        }
    }

    /// Keeps a step that can be shown again.
    pub fn save_history(&mut self, packets: [HQMObjectPacket; 32])
        requires
            old(self)@.wf(),
        ensures
            final(self)@.wf(),
            final(self)@ == old(self)@.with_history(packets),
    {
        if self.history_length > 0 {
            let new_replay_tick = ReplayTick { game_step: self.game_step, packets };
            self.saved_history.truncate(self.history_length - 1);
            self.saved_history.push_front(new_replay_tick);
        } else {
            self.saved_history.clear();
        }
        assert(self@ =~= old(self)@.with_history(packets));
    }

    /// Hands out the messages, and tells every client of a step.
    fn finish_tick<P>(
        &mut self,
        game_step: u32,
        forced_view: Option<HQMServerPlayerIndex>,
    ) -> (r: (HQMTickPhase, HQMTickAction<P>))
        requires
            old(self)@.wf(),
        ensures
            final(self)@.wf(),
            final(self)@.start_time == old(self)@.start_time,
            (HQMTickStep { server: final(self)@, phase: r.0@, action: r.1@ }) == old(
                self,
            )@.on_sending::<P>(game_step, forced_view),
    {
        self.deliver_messages();
        let updates = self.send_updates(game_step, forced_view);
        (HQMTickPhase::Sending, HQMTickAction::Send(updates))
    }
}

} // verus!
