//! Showing play again, recording it, and starting over.

use crate::buffer::{
    buffer_as_slice, buffer_bytes, buffer_limit, buffer_put_slice, buffer_put_u32_le,
    buffer_with_capacity,
};
use crate::game::{HQMGameValues, HQMInitialGameValues, HQMObjectPacket, ReplayEnabled};
use crate::message::{HQMServerMessages, HQMServerMessagesView};
use crate::player::{
    everyone, picked, HQMServerPlayerIndex, HQMServerPlayerList, HQMServerPlayerView, PINGS_KEPT,
};
use crate::server::{
    recorded, HQMServer, HQMServerView, ReplayElement, ReplayElementView, ReplayTick,
    EARLIEST_TIME, LATEST_TIME, PACKETS_KEPT,
};
use bytes::BytesMut;
use std::collections::VecDeque;
use vstd::bytes::spec_u32_to_le_bytes;
use vstd::prelude::*;

verus! {

/// A request to show play again: the first step, the last step, and whose eyes to
/// see it through.
pub type ReplayRequest = (u32, u32, Option<HQMServerPlayerIndex>);

/// How many ticks before the current step another step was.
pub open spec fn steps_ago(game_step: u32, step: u32) -> int {
    if step < game_step {
        game_step - step
    } else {
        0
    }
}

/// How the time of a replay is written: the date, a letter, the time of day.
pub open spec fn replay_time_pattern() -> Seq<char> {
    "%Y-%m-%dT%H%M%S"@
}

/// What `DateTime::format` makes of a time in seconds since 1970, by a pattern.
pub uninterp spec fn time_text(secs: i64, pattern: Seq<char>) -> Seq<char>;

/// `DateTime::from_timestamp` and `DateTime::format`: the text of a time depends on
/// the seconds and on the pattern alone. Every time that has a calendar date can be
/// written by the pattern of replays.
#[verifier::external_body]
fn format_time(secs: i64, pattern: &str) -> (r: String)
    requires
        EARLIEST_TIME <= secs <= LATEST_TIME,
        pattern@ == replay_time_pattern(),
    ensures
        r@ == time_text(secs, pattern@),
{
    chrono::DateTime::from_timestamp(secs, 0).unwrap().format(pattern).to_string()
}

/// `Utc::now`: the time of day, in seconds since 1970. It is never before 1970, and
/// has a calendar date: `Utc::now` itself gives up on a machine whose clock says
/// otherwise.
#[verifier::external_body]
pub(crate) fn utc_now() -> (r: i64)
    ensures
        0 <= r <= LATEST_TIME,
{
    chrono::Utc::now().timestamp()
}

/// A recorded replay as it is stored: the version, the size, the bytes.
pub open spec fn packed_replay(bytes: Seq<u8>) -> Seq<u8> {
    spec_u32_to_le_bytes(0) + spec_u32_to_le_bytes(bytes.len() as u32) + bytes
}

/// The name under which a replay is stored.
pub open spec fn replay_file_name(server_name: Seq<char>, time: Seq<char>) -> Seq<char> {
    server_name + "."@ + time + ".hrp"@
}

/// A replay to be stored.
pub struct HQMSavedReplay {
    pub time: String,
    pub server_name: String,
    pub file_name: String,
    pub data: BytesMut,
}

/// A replay to be stored.
#[verifier::ext_equal]
pub struct HQMSavedReplayView {
    pub time: Seq<char>,
    pub server_name: Seq<char>,
    pub file_name: Seq<char>,
    pub data: Seq<u8>,
}

impl View for HQMSavedReplay {
    type V = HQMSavedReplayView;

    open spec fn view(&self) -> HQMSavedReplayView {
        HQMSavedReplayView {
            time: self.time@,
            server_name: self.server_name@,
            file_name: self.file_name@,
            data: buffer_bytes(self.data),
        }
    }
}

/// What a new game asks of the rink, and the replay of the game before.
pub struct HQMNewGame<P> {
    pub puck_slots: usize,
    pub physics_configuration: P,
    pub replay: Option<HQMSavedReplay>,
}

/// What a new game asks of the rink, and the replay of the game before.
pub struct HQMNewGameView<P> {
    pub puck_slots: usize,
    pub physics_configuration: P,
    pub replay: Option<HQMSavedReplayView>,
}

impl<P> View for HQMNewGame<P> {
    type V = HQMNewGameView<P>;

    open spec fn view(&self) -> HQMNewGameView<P> {
        HQMNewGameView {
            puck_slots: self.puck_slots,
            physics_configuration: self.physics_configuration,
            replay: match self.replay {
                Some(replay) => Some(replay@),
                None => None,
            },
        }
    }
}

/// The players when a new game begins.
pub open spec fn all_restarted(players: Seq<Option<HQMServerPlayerView>>) -> Seq<
    Option<HQMServerPlayerView>,
> {
    Seq::new(
        players.len(),
        |i: int|
            match players[i] {
                Some(p) => Some(p.restarted(HQMServerPlayerIndex(i as usize))),
                None => None,
            },
    )
}

/// The messages after everyone was told of the players in a list.
pub open spec fn introduced(
    m: HQMServerMessagesView,
    players: Seq<(HQMServerPlayerIndex, HQMServerPlayerView)>,
) -> HQMServerMessagesView
    decreases players.len(),
{
    if players.len() == 0 {
        m
    } else {
        let (index, p) = players.last();
        introduced(m, players.drop_last()).global(p.update_message(index), true, true)
    }
}

impl HQMServerView {
    /// The ticks that a request asks for, in the order of play, if it asks for more
    /// than one.
    pub open spec fn requested_ticks(self, request: ReplayRequest) -> Option<Seq<ReplayTick>> {
        let first = steps_ago(self.game_step, request.0);
        let last = steps_ago(self.game_step, request.1);
        if first <= last {
            None
        } else {
            Some(Seq::new((first - last + 1) as nat, |k: int| self.saved_history[first - k]))
        }
    }

    /// Whether the ticks that a request asks for are all still known.
    pub open spec fn can_show(self, request: ReplayRequest) -> bool {
        let first = steps_ago(self.game_step, request.0);
        first <= steps_ago(self.game_step, request.1) || first < self.saved_history.len()
    }

    /// Whether everything that was requested can be shown.
    pub open spec fn can_show_all(self) -> bool {
        forall|i: int|
            0 <= i < self.requested_replays.len() ==> self.can_show(
                #[trigger] self.requested_replays[i],
            )
    }

    /// What requests put into the queue.
    pub open spec fn queued(self, requests: Seq<ReplayRequest>) -> Seq<ReplayElementView>
        decreases requests.len(),
    {
        if requests.len() == 0 {
            seq![]
        } else {
            let rest = self.queued(requests.drop_first());
            match self.requested_ticks(requests[0]) {
                Some(data) => seq![ReplayElementView { data, force_view: requests[0].2 }] + rest,
                None => rest,
            }
        }
    }

    /// After everything that was requested has been put into the queue.
    pub open spec fn after_requests(self) -> Self {
        HQMServerView {
            replay_queue: self.replay_queue + self.queued(self.requested_replays),
            requested_replays: seq![],
            ..self
        }
    }

    /// After a request to show play again.
    pub open spec fn after_request(self, request: ReplayRequest) -> Self {
        if request.0 > request.1 {
            self
        } else {
            HQMServerView { requested_replays: self.requested_replays.push(request), ..self }
        }
    }

    /// After one more tick was made known to clients.
    pub open spec fn after_packets(self, packets: [HQMObjectPacket; 32], now: u64) -> Self {
        HQMServerView {
            saved_packets: recorded(self.saved_packets, packets, PACKETS_KEPT as nat),
            saved_pings: recorded(self.saved_pings, now, PINGS_KEPT as nat),
            packet: self.packet.wrapping_add(1),
            ..self
        }
    }

    /// Whether there is a tick to be shown again.
    pub open spec fn shows_replay(self) -> bool {
        self.replay_queue.len() > 0 && self.replay_queue[0].data.len() > 0
    }

    /// After one tick of the queue was shown again, or an empty stretch was dropped.
    pub open spec fn after_replay_tick(self, now: u64) -> Self {
        if self.replay_queue.len() == 0 {
            self
        } else if self.replay_queue[0].data.len() == 0 {
            HQMServerView { replay_queue: self.replay_queue.drop_first(), ..self }
        } else {
            let shown = self.replay_queue[0];
            HQMServerView {
                replay_queue: self.replay_queue.update(
                    0,
                    ReplayElementView { data: shown.data.drop_first(), ..shown },
                ),
                ..self
            }.after_packets(shown.data[0].packets, now)
        }
    }

    /// When a new game begins.
    pub open spec fn after_new_game(self, values: HQMGameValues) -> Self {
        let players = all_restarted(self.players);
        HQMServerView {
            players,
            messages: introduced(
                HQMServerMessagesView::none(),
                picked(players, everyone(), 0),
            ),
            values,
            game_id: (self.game_id + 1) as u32,
            replay_msg_pos: 0,
            packet: u32::MAX,
            replay_last_packet: u32::MAX,
            game_step: u32::MAX,
            saved_packets: seq![],
            saved_pings: seq![],
            saved_history: seq![],
            replay_queue: seq![],
            has_current_game_been_active: false,
            replay_data: seq![],
            ..self
        }
    }

    /// The replay that the current game leaves to be stored when it ends.
    pub open spec fn finished_replay(self) -> Option<HQMSavedReplayView> {
        if self.config.replays_enabled == ReplayEnabled::On && self.replay_data.len() > 0 {
            let time = time_text(self.start_time, replay_time_pattern());
            let server_name = self.config.server_name@;
            Some(
                HQMSavedReplayView {
                    time,
                    server_name,
                    file_name: replay_file_name(server_name, time),
                    data: packed_replay(self.replay_data),
                },
            )
        } else {
            None
        }
    }

    /// What a new game asks of the rink, and the replay of the game before.
    pub open spec fn new_game<P>(self, v: HQMInitialGameValues<P>) -> HQMNewGameView<P> {
        HQMNewGameView {
            puck_slots: v.puck_slots,
            physics_configuration: v.physics_configuration,
            replay: self.finished_replay(),
        }
    }
}

/// Packs a recorded replay for storage.
pub fn pack_replay(bytes: &[u8]) -> (r: BytesMut)
    requires
        bytes@.len() + 8 <= buffer_limit(),
    ensures
        buffer_bytes(r) == packed_replay(bytes@),
{
    let size: usize = bytes.len();
    let mut replay_data = buffer_with_capacity(size + 8);
    proof {
        vstd::bytes::lemma_auto_spec_u32_to_from_le_bytes();
    }
    buffer_put_u32_le(&mut replay_data, 0);
    buffer_put_u32_le(&mut replay_data, size as u32);
    buffer_put_slice(&mut replay_data, bytes);
    assert(buffer_bytes(replay_data) =~= packed_replay(bytes@));
    replay_data
}

/// The name under which a replay is stored.
pub fn name_replay(server_name: &str, time: &str) -> (r: String)
    ensures
        r@ == replay_file_name(server_name@, time@),
{
    server_name.to_owned().concat(".").concat(time).concat(".hrp")
}

impl HQMServerPlayerList {
    /// Makes every player ready for a new game, and tells everyone of them.
    pub fn restart(&mut self, messages: &mut HQMServerMessages)
        ensures
            final(self)@ == all_restarted(old(self)@),
            final(messages)@ == introduced(
                old(messages)@,
                picked(all_restarted(old(self)@), everyone(), 0),
            ),
    {
        let n: usize = self.players.len();
        let ghost target = all_restarted(self@);
        let ghost all = picked(target, everyone(), 0);
        let ghost mut done: Seq<(HQMServerPlayerIndex, HQMServerPlayerView)> = seq![];
        assert(done + all =~= all);
        for i in 0..n
            invariant
                n == self.players@.len(),
                n == old(self)@.len(),
                target == all_restarted(old(self)@),
                all == picked(target, everyone(), 0),
                done + picked(target, everyone(), i as int) == all,
                messages@ == introduced(old(messages)@, done),
                forall|j: int| 0 <= j < i ==> #[trigger] self@[j] == target[j],
                forall|j: int| i <= j < n ==> #[trigger] self@[j] == old(self)@[j],
        {
            assert(self@[i as int] == old(self)@[i as int]);
            let ghost before = self@;
            let player_index = HQMServerPlayerIndex(i);
            if let Some(player) = &mut self.players[i] {
                if player.reset(player_index) {
                    let update = player.get_update_message(player_index);
                    messages.add_global_message(update, true, true);
                }
                proof {
                    let p = player@;
                    let rest = picked(target, everyone(), i + 1);
                    assert(done + (seq![(player_index, p)] + rest) =~= done.push(
                        (player_index, p),
                    ) + rest);
                    assert(done.push((player_index, p)).drop_last() =~= done);
                    done = done.push((player_index, p));
                }
            }
            assert(forall|j: int| 0 <= j < n && j != i ==> #[trigger] self@[j] == before[j]);
        }
        assert(done =~= all);
        assert(self@ =~= target);
    }
}

impl HQMServer {
    /// Starts over: everyone is a spectator of a game that has not begun, and the
    /// replay of the game before is handed over.
    pub fn new_game<P>(&mut self, v: HQMInitialGameValues<P>) -> (r: HQMNewGame<P>)
        requires
            old(self)@.wf(),
            old(self)@.game_id < u32::MAX,
        ensures
            final(self)@.wf(),
            final(self)@ == old(self)@.after_new_game(v.values),
            r@ == old(self)@.new_game(v),
    {
        self.values = v.values;
        self.game_id = self.game_id + 1;
        self.messages.clear();
        self.replay_msg_pos = 0;
        self.packet = u32::MAX;
        self.replay_last_packet = u32::MAX;
        self.game_step = u32::MAX;
        self.saved_packets.clear();
        self.saved_pings.clear();
        self.saved_history.clear();
        self.replay_queue.clear();
        self.has_current_game_been_active = false;
        let mut old_replay_data = buffer_with_capacity(0);
        std::mem::swap(&mut self.replay_data, &mut old_replay_data);
        let old_bytes = buffer_as_slice(&old_replay_data);
        let replay = if self.config.replays_enabled == ReplayEnabled::On && old_bytes.len() > 0 {
            let data = pack_replay(old_bytes);
            let time = format_time(self.start_time, "%Y-%m-%dT%H%M%S");
            let file_name = name_replay(self.config.server_name.as_str(), time.as_str());
            let server_name = self.config.server_name.clone();
            Some(HQMSavedReplay { time, server_name, file_name, data })
        } else {
            None
        };
        self.players.restart(&mut self.messages);
        proof {
            assert(self@ =~= old(self)@.after_new_game(v.values));
        }
        HQMNewGame {
            puck_slots: v.puck_slots,
            physics_configuration: v.physics_configuration,
            replay,
        }
    }

    /// Asks for play to be shown again.
    pub fn add_replay_to_queue(
        &mut self,
        start_step: u32,
        end_step: u32,
        force_view: Option<HQMServerPlayerIndex>,
    )
        requires
            old(self)@.wf(),
        ensures
            final(self)@.wf(),
            final(self)@ == old(self)@.after_request((start_step, end_step, force_view)),
    {
        if start_step > end_step {
            return ;
        }
        self.requested_replays.push_back((start_step, end_step, force_view));
    }

    /// The replay of the current game so far.
    pub fn replay_data(&self) -> (r: &[u8])
        ensures
            r@ == self@.replay_data,
    {
        buffer_as_slice(&self.replay_data)
    }

    /// Whether the replay has room for more bytes.
    pub fn has_replay_room(&self, more: usize) -> (r: bool)
        requires
            self@.wf(),
        ensures
            r == (self@.replay_data.len() + more + 8 <= buffer_limit()),
    {
        let room: usize = isize::MAX as usize / 2 - 8 - self.replay_data().len();
        more <= room
    }

    /// Adds to the replay what was written for it.
    pub fn append_replay_data(&mut self, bytes: &[u8])
        requires
            old(self)@.wf(),
            old(self)@.replay_data.len() + bytes@.len() + 8 <= buffer_limit(),
        ensures
            final(self)@.wf(),
            final(self)@ == (HQMServerView {
                replay_data: old(self)@.replay_data + bytes@,
                ..old(self)@
            }),
    {
        buffer_put_slice(&mut self.replay_data, bytes);
    }

    /// Makes the objects of one more tick known to clients.
    pub fn save_packets(&mut self, packets: [HQMObjectPacket; 32], now: u64)
        requires
            old(self)@.wf(),
        ensures
            final(self)@.wf(),
            final(self)@ == old(self)@.after_packets(packets, now),
    {
        self.saved_packets.truncate(PACKETS_KEPT - 1);
        self.saved_packets.push_front(packets);
        self.packet = self.packet.wrapping_add(1);
        self.saved_pings.truncate(PINGS_KEPT - 1);
        self.saved_pings.push_front(now);
        assert(self@ =~= old(self)@.after_packets(packets, now));
    }

    /// Shows one tick again, if there is one to be shown: returns its number and
    /// whose eyes it is seen through.
    pub fn show_replay_tick(&mut self, now: u64) -> (r: Option<
        (u32, Option<HQMServerPlayerIndex>),
    >)
        requires
            old(self)@.wf(),
        ensures
            final(self)@.wf(),
            final(self)@ == old(self)@.after_replay_tick(now),
            r == if old(self)@.shows_replay() {
                Some(
                    (
                        old(self)@.replay_queue[0].data[0].game_step,
                        old(self)@.replay_queue[0].force_view,
                    ),
                )
            } else {
                None
            },
    {
        match self.replay_queue.pop_front() {
            Some(mut replay_element) => {
                let force_view = replay_element.force_view;
                match replay_element.data.pop_front() {
                    Some(tick) => {
                        self.replay_queue.push_front(replay_element);
                        self.save_packets(tick.packets, now);
                        assert(self@.replay_queue =~= old(self)@.after_replay_tick(
                            now,
                        ).replay_queue);
                        Some((tick.game_step, force_view))
                    },
                    None => {
                        assert(self@.replay_queue =~= old(self)@.replay_queue.drop_first());
                        None
                    },
                }
            },
            None => {
                assert(self@.replay_queue =~= old(self)@.replay_queue);
                None
            },
        }
    }

    /// Whether everything that was requested can be shown.
    pub fn can_show_requests(&self) -> (r: bool)
        ensures
            r == self@.can_show_all(),
    {
        let n: usize = self.requested_replays.len();
        for i in 0..n
            invariant
                n == self.requested_replays@.len(),
                forall|j: int|
                    0 <= j < i ==> self@.can_show(#[trigger] self@.requested_replays[j]),
        {
            let (start_step, end_step, _) = self.requested_replays[i];
            let i_end: usize = self.game_step.saturating_sub(end_step) as usize;
            let i_start: usize = self.game_step.saturating_sub(start_step) as usize;
            assert(self@.requested_replays[i as int].0 == start_step);
            if i_start > i_end && i_start >= self.saved_history.len() {
                return false;
            }
        }
        true
    }

    /// The ticks from one place in the history to a later one, in the order of play.
    fn copy_history(&self, i_start: usize, i_end: usize) -> (r: VecDeque<ReplayTick>)
        requires
            i_end <= i_start < self@.saved_history.len(),
        ensures
            r@ == Seq::new(
                (i_start - i_end + 1) as nat,
                |k: int| self@.saved_history[i_start - k],
            ),
    {
        let mut data: VecDeque<ReplayTick> = VecDeque::new();
        let known: usize = self.saved_history.len();
        assert(i_start < known);
        let count: usize = i_start - i_end + 1;
        for k in 0..count
            invariant
                i_end <= i_start < self.saved_history@.len(),
                count == i_start - i_end + 1,
                data@ == Seq::new(k as nat, |k: int| self@.saved_history[i_start - k]),
        {
            data.push_back(self.saved_history[i_start - k]);
            assert(data@ =~= Seq::new((k + 1) as nat, |k: int| self@.saved_history[i_start - k]));
        }
        data
    }

    /// Puts what was requested into the queue.
    pub fn queue_requested_replays(&mut self)
        requires
            old(self)@.wf(),
            old(self)@.can_show_all(),
        ensures
            final(self)@.wf(),
            final(self)@ == old(self)@.after_requests(),
    {
        let ghost start = self@;
        let mut more: bool = true;
        while more
            invariant
                start == old(self)@,
                self@ == (HQMServerView {
                    replay_queue: self@.replay_queue,
                    requested_replays: self@.requested_replays,
                    ..start
                }),
                start.can_show_all(),
                forall|i: int|
                    0 <= i < self@.requested_replays.len() ==> start.can_show(
                        #[trigger] self@.requested_replays[i],
                    ),
                self@.replay_queue + start.queued(self@.requested_replays) == start.replay_queue
                    + start.queued(start.requested_replays),
                !more ==> self@.requested_replays.len() == 0,
            decreases self@.requested_replays.len() + if more { 1int } else { 0int },
        {
            let ghost before = self@;
            match self.requested_replays.pop_front() {
                Some(request) => {
                    assert(before.requested_replays.len() > 0);
                    assert(request == before.requested_replays[0]);
                    assert(self@.requested_replays =~= before.requested_replays.drop_first());
                    assert(start.can_show(before.requested_replays[0]));
                    let (start_step, end_step, force_view) = request;
                    let i_end: usize = self.game_step.saturating_sub(end_step) as usize;
                    let i_start: usize = self.game_step.saturating_sub(start_step) as usize;
                    if i_start > i_end {
                        let data = self.copy_history(i_start, i_end);
                        assert(start.requested_ticks(request) == Some(data@));
                        self.replay_queue.push_back(ReplayElement { data, force_view });
                        proof {
                            let shown = ReplayElementView { data: data@, force_view };
                            let rest = start.queued(self@.requested_replays);
                            assert(self@.replay_queue =~= before.replay_queue.push(shown));
                            assert(before.replay_queue.push(shown) + rest =~= before.replay_queue
                                + (seq![shown] + rest));
                        }
                    }
                },
                None => {
                    more = false;
                    assert(self@.requested_replays =~= before.requested_replays);
                },
            }
        }
        assert(self@.replay_queue =~= self@.replay_queue + start.queued(self@.requested_replays));
        assert(self@ =~= old(self)@.after_requests());
    }
}

} // verus!
