//! The state of a server.

use crate::buffer::{buffer_as_slice, buffer_bytes, buffer_limit, buffer_with_capacity};
use crate::game::{HQMGameValues, HQMObjectIndex, HQMObjectPacket, HQMServerConfiguration};
use crate::matches::at_most;
use crate::message::{HQMServerMessages, HQMServerMessagesView};
use crate::net::{HQMBanList, HQMIpAddr};
use crate::player::{
    HQMServerPlayerData, HQMServerPlayerIndex, HQMServerPlayerList, HQMServerPlayerView,
    PINGS_KEPT, PLAYER_SLOTS,
};
use bytes::BytesMut;
use std::collections::VecDeque;
use vstd::prelude::*;

verus! {

/// How many ticks of object packets are kept for clients that lag behind.
pub const PACKETS_KEPT: usize = 192;

/// How many ticks of puck touches are kept.
pub const TOUCHES_KEPT: usize = 3;

/// The room set aside for a replay when the server starts.
pub const REPLAY_ROOM: usize = 67_108_864;

/// The earliest time that has a calendar date here, in seconds since 1970.
pub const EARLIEST_TIME: i64 = -8_334_601_228_800;

/// The latest time that has a calendar date here, in seconds since 1970.
pub const LATEST_TIME: i64 = 8_210_266_876_799;

/// A list, the latest first, after one more entry; it holds at most `n`.
pub open spec fn recorded<T>(s: Seq<T>, x: T, n: nat) -> Seq<T> {
    seq![x] + at_most(s, (n - 1) as nat)
}

/// The objects as they were in one tick.
#[derive(Debug, Copy, Clone)]
pub struct ReplayTick {
    pub game_step: u32,
    pub packets: [HQMObjectPacket; 32],
}

/// A stretch of play that is shown again.
pub struct ReplayElement {
    pub data: VecDeque<ReplayTick>,
    pub force_view: Option<HQMServerPlayerIndex>,
}

/// A stretch of play that is shown again.
#[verifier::ext_equal]
pub struct ReplayElementView {
    pub data: Seq<ReplayTick>,
    pub force_view: Option<HQMServerPlayerIndex>,
}

impl View for ReplayElement {
    type V = ReplayElementView;

    open spec fn view(&self) -> ReplayElementView {
        ReplayElementView { data: self.data@, force_view: self.force_view }
    }
}

/// What is in a queue of replays.
pub open spec fn replay_views(s: Seq<ReplayElement>) -> Seq<ReplayElementView> {
    Seq::new(s.len(), |i: int| s[i]@)
}

/// The skater and the puck of a touch.
pub type Touch = (HQMObjectIndex, HQMObjectIndex);

/// The touches in a queue of ticks.
pub open spec fn event_views(s: Seq<(u32, VecDeque<Touch>)>) -> Seq<(u32, Seq<Touch>)> {
    Seq::new(s.len(), |i: int| (s[i].0, s[i].1@))
}

/// A server.
pub struct HQMServer {
    pub players: HQMServerPlayerList,
    pub messages: HQMServerMessages,
    pub ban_list: HQMBanList,
    pub allow_join: bool,
    pub config: HQMServerConfiguration,
    pub values: HQMGameValues,
    pub replay_queue: VecDeque<ReplayElement>,
    pub requested_replays: VecDeque<(u32, u32, Option<HQMServerPlayerIndex>)>,
    pub game_id: u32,
    pub game_step: u32,
    pub is_muted: bool,
    /// When the current game began, in seconds since 1970.
    pub start_time: i64,
    pub has_current_game_been_active: bool,
    pub packet: u32,
    pub replay_data: BytesMut,
    pub replay_msg_pos: usize,
    pub replay_last_packet: u32,
    /// The objects in the latest ticks, the latest first.
    pub saved_packets: VecDeque<[HQMObjectPacket; 32]>,
    /// When the latest ticks were, in nanoseconds of a clock that never goes back,
    /// the latest first.
    pub saved_pings: VecDeque<u64>,
    /// The ticks that can be shown again, the latest first.
    pub saved_history: VecDeque<ReplayTick>,
    pub history_length: usize,
    /// Who touched a puck in the latest ticks, the latest first.
    pub saved_events: VecDeque<(u32, VecDeque<Touch>)>,
}

/// The state of a server.
#[verifier::ext_equal]
pub struct HQMServerView {
    pub players: Seq<Option<HQMServerPlayerView>>,
    pub messages: HQMServerMessagesView,
    pub ban_list: Set<HQMIpAddr>,
    pub allow_join: bool,
    pub config: HQMServerConfiguration,
    pub values: HQMGameValues,
    pub replay_queue: Seq<ReplayElementView>,
    pub requested_replays: Seq<(u32, u32, Option<HQMServerPlayerIndex>)>,
    pub game_id: u32,
    pub game_step: u32,
    pub is_muted: bool,
    pub start_time: i64,
    pub has_current_game_been_active: bool,
    pub packet: u32,
    pub replay_data: Seq<u8>,
    pub replay_msg_pos: usize,
    pub replay_last_packet: u32,
    pub saved_packets: Seq<[HQMObjectPacket; 32]>,
    pub saved_pings: Seq<u64>,
    pub saved_history: Seq<ReplayTick>,
    pub history_length: usize,
    pub saved_events: Seq<(u32, Seq<Touch>)>,
}

impl View for HQMServer {
    type V = HQMServerView;

    open spec fn view(&self) -> HQMServerView {
        HQMServerView {
            players: self.players@,
            messages: self.messages@,
            ban_list: self.ban_list@,
            allow_join: self.allow_join,
            config: self.config,
            values: self.values,
            replay_queue: replay_views(self.replay_queue@),
            requested_replays: self.requested_replays@,
            game_id: self.game_id,
            game_step: self.game_step,
            is_muted: self.is_muted,
            start_time: self.start_time,
            has_current_game_been_active: self.has_current_game_been_active,
            packet: self.packet,
            replay_data: buffer_bytes(self.replay_data),
            replay_msg_pos: self.replay_msg_pos,
            replay_last_packet: self.replay_last_packet,
            saved_packets: self.saved_packets@,
            saved_pings: self.saved_pings@,
            saved_history: self.saved_history@,
            history_length: self.history_length,
            saved_events: event_views(self.saved_events@),
        }
    }
}

impl HQMServerView {
    /// What holds of a server at all times: every slot is there, the recorder is
    /// not ahead of the messages, and what is kept for a while is bounded.
    pub open spec fn wf(self) -> bool {
        &&& self.players.len() == PLAYER_SLOTS
        &&& self.replay_msg_pos <= self.messages.replay_messages.len()
        &&& self.replay_data.len() + 8 <= buffer_limit()
        &&& EARLIEST_TIME <= self.start_time <= LATEST_TIME
        &&& self.saved_packets.len() <= PACKETS_KEPT
        &&& self.saved_pings.len() <= PINGS_KEPT
        &&& self.saved_events.len() <= TOUCHES_KEPT
        &&& forall|i: int|
            0 <= i < self.players.len() && (#[trigger] self.players[i]) is Some
                ==> self.players[i]->0.data.last_ping.len() <= PINGS_KEPT
    }

    /// A server on which nobody has been yet.
    pub open spec fn initial(config: HQMServerConfiguration, values: HQMGameValues) -> Self {
        HQMServerView {
            players: Seq::new(PLAYER_SLOTS as nat, |i: int| None::<HQMServerPlayerView>),
            messages: HQMServerMessagesView::none(),
            ban_list: Set::empty(),
            allow_join: true,
            config,
            values,
            replay_queue: seq![],
            requested_replays: seq![],
            game_id: 1,
            game_step: u32::MAX,
            is_muted: false,
            start_time: 0,
            has_current_game_been_active: false,
            packet: u32::MAX,
            replay_data: seq![],
            replay_msg_pos: 0,
            replay_last_packet: u32::MAX,
            saved_packets: seq![],
            saved_pings: seq![],
            saved_history: seq![],
            history_length: 0,
            saved_events: seq![],
        }
    }

    /// The server with other messages.
    pub open spec fn saying(self, messages: HQMServerMessagesView) -> Self {
        HQMServerView { messages, ..self }
    }

    /// The server after one player was told something.
    pub open spec fn told(self, message: Seq<char>, receiver: HQMServerPlayerIndex) -> Self {
        self.saying(self.messages.told(message, receiver))
    }

    /// The server after one player was told several things in turn.
    pub open spec fn told_all(self, lines: Seq<Seq<char>>, receiver: HQMServerPlayerIndex) -> Self {
        self.saying(self.messages.told_all(lines, receiver))
    }

    /// The server after everyone was told something.
    pub open spec fn announced(self, message: Seq<char>) -> Self {
        self.saying(self.messages.server_chat(message))
    }

    /// The server with another player in a slot.
    pub open spec fn with_player(
        self,
        index: HQMServerPlayerIndex,
        player: Option<HQMServerPlayerView>,
    ) -> Self {
        HQMServerView { players: self.players.update(index.0 as int, player), ..self }
    }
}

impl HQMServer {
    /// A server on which nobody has been yet.
    pub fn new(config: HQMServerConfiguration, values: HQMGameValues) -> (r: Self)
        ensures
            r@ == HQMServerView::initial(config, values),
            r@.wf(),
    {
        let r = HQMServer {
            players: HQMServerPlayerList::new(),
            messages: HQMServerMessages::new(),
            ban_list: HQMBanList::new(),
            allow_join: true,
            config,
            values,
            replay_queue: VecDeque::new(),
            requested_replays: VecDeque::new(),
            game_id: 1,
            game_step: u32::MAX,
            is_muted: false,
            start_time: 0,
            has_current_game_been_active: false,
            packet: u32::MAX,
            replay_data: buffer_with_capacity(REPLAY_ROOM),
            replay_msg_pos: 0,
            replay_last_packet: u32::MAX,
            saved_packets: VecDeque::with_capacity(PACKETS_KEPT),
            saved_pings: VecDeque::with_capacity(PINGS_KEPT),
            saved_history: VecDeque::new(),
            history_length: 0,
            saved_events: VecDeque::with_capacity(TOUCHES_KEPT),
        };
        assert(r@ =~= HQMServerView::initial(config, values));
        r
    }

    /// Whether what holds of a server at all times holds of this one.
    pub fn is_well_formed(&self) -> (r: bool)
        ensures
            r == self@.wf(),
    {
        let n: usize = self.players.players.len();
        if n != PLAYER_SLOTS || self.replay_msg_pos > self.messages.replay_messages.len()
            || self.start_time < EARLIEST_TIME || self.start_time > LATEST_TIME || self.saved_packets.len()
            > PACKETS_KEPT || self.saved_pings.len() > PINGS_KEPT || self.saved_events.len()
            > TOUCHES_KEPT {
            return false;
        }
        if buffer_as_slice(&self.replay_data).len() > isize::MAX as usize / 2 - 8 {
            return false;
        }
        for i in 0..n
            invariant
                n == self.players.players@.len(),
                forall|j: int|
                    0 <= j < i && (#[trigger] self@.players[j]) is Some
                        ==> self@.players[j]->0.data.last_ping.len() <= PINGS_KEPT,
        {
            if let Some(player) = &self.players.players[i] {
                assert(self@.players[i as int] == Some(player@));
                match &player.data {
                    HQMServerPlayerData::NetworkPlayer { data } => {
                        if data.last_ping.len() > PINGS_KEPT {
                            return false;
                        }
                    },
                }
            }
        }
        true
    }

    /// The number of the current game.
    pub fn current_game_id(&self) -> (r: u32)
        ensures
            r == self@.game_id,
    {
        self.game_id
    }
}

} // verus!
