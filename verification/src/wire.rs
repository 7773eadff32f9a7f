//! What goes to clients and into the replay, field by field.

use crate::game::{HQMGameValues, HQMRulesState};
use crate::message::{message_views, HQMMessage, HQMMessageView};
use crate::net::HQMSocketAddr;
use crate::player::{
    everyone, picked, HQMNetworkPlayerData, HQMNetworkPlayerDataView, HQMServerPlayerData,
    HQMServerPlayerIndex, HQMServerPlayerView,
};
use crate::server::{HQMServer, HQMServerView};
use crate::session::GAME_VERSION;
use std::rc::Rc;
use vstd::prelude::*;
use vstd::utf8::encode_utf8;

verus! {

/// How many messages a client is told in one tick.
pub const MESSAGES_PER_UPDATE: usize = 15;

/// How long the name of a server is in its answer to a client.
pub const NAME_WIDTH: usize = 32;

/// One thing to be written. Bytes and numbers that are aligned start at a byte of
/// their own; bits follow the bits before them.
pub enum HQMWireField {
    /// Bytes, aligned.
    Bytes(Vec<u8>),
    /// Bytes, aligned, in a field of a fixed width.
    PaddedBytes { width: usize, bytes: Vec<u8> },
    /// One byte, aligned.
    Byte(u8),
    /// A number of 32 bits, aligned.
    Word(u32),
    /// The lowest bits of a number.
    Bits { count: u8, value: u32 },
    /// The objects of the latest tick, given those that the reader has: the
    /// number of that tick and of the one the reader knows.
    Objects { current_packet: u32, known_packet: u32 },
    /// A message.
    Message(Rc<HQMMessage>),
    /// The end of a tick in a replay.
    ReplayFix,
}

/// One thing to be written.
pub enum HQMWireFieldView {
    Bytes(Seq<u8>),
    PaddedBytes { width: usize, bytes: Seq<u8> },
    Byte(u8),
    Word(u32),
    Bits { count: u8, value: u32 },
    Objects { current_packet: u32, known_packet: u32 },
    Message(HQMMessageView),
    ReplayFix,
}

impl View for HQMWireField {
    type V = HQMWireFieldView;

    open spec fn view(&self) -> HQMWireFieldView {
        match self {
            HQMWireField::Bytes(bytes) => HQMWireFieldView::Bytes(bytes@),
            HQMWireField::PaddedBytes { width, bytes } => HQMWireFieldView::PaddedBytes {
                width: *width,
                bytes: bytes@,
            },
            HQMWireField::Byte(value) => HQMWireFieldView::Byte(*value),
            HQMWireField::Word(value) => HQMWireFieldView::Word(*value),
            HQMWireField::Bits { count, value } => HQMWireFieldView::Bits {
                count: *count,
                value: *value,
            },
            HQMWireField::Objects { current_packet, known_packet } =>
                HQMWireFieldView::Objects {
                current_packet: *current_packet,
                known_packet: *known_packet,
            },
            HQMWireField::Message(message) => HQMWireFieldView::Message((**message)@),
            HQMWireField::ReplayFix => HQMWireFieldView::ReplayFix,
        }
    }
}

/// What the members of a list of fields say.
pub open spec fn field_views(s: Seq<HQMWireField>) -> Seq<HQMWireFieldView> {
    Seq::new(s.len(), |i: int| s[i]@)
}

/// Messages as fields.
pub open spec fn message_fields(s: Seq<HQMMessageView>) -> Seq<HQMWireFieldView> {
    Seq::new(s.len(), |i: int| HQMWireFieldView::Message(s[i]))
}

/// Some bits of a number.
pub open spec fn bits(count: u8, value: u32) -> HQMWireFieldView {
    HQMWireFieldView::Bits { count, value }
}

/// A yes or no in one bit.
pub open spec fn flag(b: bool) -> u32 {
    if b {
        1
    } else {
        0
    }
}

/// The bytes with which every packet to a client begins.
pub open spec fn game_header() -> HQMWireFieldView {
    HQMWireFieldView::Bytes(seq![0x48u8, 0x6f, 0x63, 0x6b])
}

/// The score board.
pub open spec fn score_fields(values: HQMGameValues) -> Seq<HQMWireFieldView> {
    seq![
        bits(1, flag(values.game_over)),
        bits(8, values.red_score),
        bits(8, values.blue_score),
        bits(16, values.time),
        bits(16, values.goal_message_timer),
        bits(8, values.period),
    ]
}

/// The answer to a client that asks about the server.
pub open spec fn info_fields(
    ping: u32,
    player_count: nat,
    team_size: u32,
    server_name: Seq<char>,
) -> Seq<HQMWireFieldView> {
    seq![
        game_header(),
        HQMWireFieldView::Byte(1),
        bits(8, GAME_VERSION),
        HQMWireFieldView::Word(ping),
        bits(8, player_count as u32),
        bits(4, 4),
        bits(4, team_size),
        HQMWireFieldView::PaddedBytes { width: NAME_WIDTH, bytes: encode_utf8(server_name) },
    ]
}

impl HQMNetworkPlayerDataView {
    /// Where the messages begin that the client is told next.
    pub open spec fn unread_from(self) -> int {
        if self.known_msgpos > self.messages.len() {
            self.messages.len() as int
        } else {
            self.known_msgpos as int
        }
    }

    /// How many messages the client is told next.
    pub open spec fn unread_count(self) -> int {
        if self.messages.len() - self.unread_from() < MESSAGES_PER_UPDATE {
            self.messages.len() - self.unread_from()
        } else {
            MESSAGES_PER_UPDATE as int
        }
    }

    /// The messages that the client is told next.
    pub open spec fn unread(self) -> Seq<HQMMessageView> {
        self.messages.subrange(self.unread_from(), self.unread_from() + self.unread_count())
    }

    /// What some clients are told beyond the basic protocol: their own clock, and
    /// what the referee shows.
    pub open spec fn extra_fields(self, rules_state: HQMRulesState) -> Seq<HQMWireFieldView> {
        (if self.client_version.ping() {
            seq![HQMWireFieldView::Word(self.deltatime)]
        } else {
            seq![]
        }) + (if self.client_version.rules() {
            seq![HQMWireFieldView::Word(rules_state.code())]
        } else {
            seq![]
        })
    }
}

impl HQMServerView {
    /// The answer to a client that asks about the server.
    pub open spec fn info(self, ping: u32, team_size: usize) -> Seq<HQMWireFieldView> {
        info_fields(ping, self.player_count(), team_size as u32, self.config.server_name@)
    }

    /// What a client is told at the end of a tick. One that is not in the current
    /// game yet is told its number only.
    pub open spec fn update_fields(
        self,
        data: HQMNetworkPlayerDataView,
        game_step: u32,
        force_view: Option<HQMServerPlayerIndex>,
    ) -> Seq<HQMWireFieldView> {
        if data.game_id != self.game_id {
            seq![game_header(), HQMWireFieldView::Byte(6), HQMWireFieldView::Word(self.game_id)]
        } else {
            let view = match force_view {
                Some(view) => view,
                None => data.view_player_index,
            };
            seq![
                game_header(),
                HQMWireFieldView::Byte(5),
                HQMWireFieldView::Word(self.game_id),
                HQMWireFieldView::Word(game_step),
            ] + score_fields(self.values) + seq![bits(8, view.0 as u32)] + data.extra_fields(
                self.values.rules_state,
            ) + seq![
                HQMWireFieldView::Objects {
                    current_packet: self.packet,
                    known_packet: data.known_packet,
                },
                bits(4, data.unread_count() as u32),
                bits(16, data.unread_from() as u32),
            ] + message_fields(data.unread())
        }
    }

    /// What every client is told at the end of a tick, by address.
    pub open spec fn updates(
        self,
        game_step: u32,
        force_view: Option<HQMServerPlayerIndex>,
    ) -> Seq<(HQMSocketAddr, Seq<HQMWireFieldView>)> {
        let players = picked(self.players, everyone(), 0);
        Seq::new(
            players.len(),
            |i: int|
                (
                    players[i].1.data.addr,
                    self.update_fields(players[i].1.data, game_step, force_view),
                ),
        )
    }

    /// The messages that the replay does not have yet.
    pub open spec fn unrecorded(self) -> Seq<HQMMessageView> {
        self.messages.replay_messages.skip(self.replay_msg_pos as int)
    }

    /// What goes into the replay at the end of a tick.
    pub open spec fn replay_fields(self) -> Seq<HQMWireFieldView> {
        seq![HQMWireFieldView::Byte(5)] + score_fields(self.values) + seq![
            HQMWireFieldView::Objects {
                current_packet: self.packet,
                known_packet: self.replay_last_packet,
            },
            bits(16, self.unrecorded().len() as u32),
            bits(16, self.replay_msg_pos as u32),
        ] + message_fields(self.unrecorded()) + seq![HQMWireFieldView::ReplayFix]
    }

    /// After the replay was brought up to date.
    pub open spec fn after_recording(self) -> Self {
        HQMServerView {
            replay_last_packet: self.packet,
            replay_msg_pos: self.messages.replay_messages.len() as usize,
            ..self
        }
    }
}

/// The packet for one client.
pub struct HQMUpdate {
    pub addr: HQMSocketAddr,
    pub fields: Vec<HQMWireField>,
}

/// What packets say, and to whom.
pub open spec fn update_views(s: Seq<HQMUpdate>) -> Seq<(HQMSocketAddr, Seq<HQMWireFieldView>)> {
    Seq::new(s.len(), |i: int| (s[i].addr, field_views(s[i].fields@)))
}

fn push_field(fields: &mut Vec<HQMWireField>, field: HQMWireField)
    ensures
        field_views(final(fields)@) == field_views(old(fields)@).push(field@),
{
    fields.push(field);
    assert(field_views(fields@) =~= field_views(old(fields)@).push(field@));
}

fn push_header(fields: &mut Vec<HQMWireField>)
    ensures
        field_views(final(fields)@) == field_views(old(fields)@).push(game_header()),
{
    let bytes: Vec<u8> = vec![0x48, 0x6f, 0x63, 0x6b];
    assert(bytes@ =~= seq![0x48u8, 0x6f, 0x63, 0x6b]);
    push_field(fields, HQMWireField::Bytes(bytes));
}

fn push_score(fields: &mut Vec<HQMWireField>, values: HQMGameValues)
    ensures
        field_views(final(fields)@) == field_views(old(fields)@) + score_fields(values),
{
    let game_over: u32 = if values.game_over {
        1
    } else {
        0
    };
    push_field(fields, HQMWireField::Bits { count: 1, value: game_over });
    push_field(fields, HQMWireField::Bits { count: 8, value: values.red_score });
    push_field(fields, HQMWireField::Bits { count: 8, value: values.blue_score });
    push_field(fields, HQMWireField::Bits { count: 16, value: values.time });
    push_field(fields, HQMWireField::Bits { count: 16, value: values.goal_message_timer });
    push_field(fields, HQMWireField::Bits { count: 8, value: values.period });
    assert(field_views(fields@) =~= field_views(old(fields)@) + score_fields(values));
}

fn push_messages(
    fields: &mut Vec<HQMWireField>,
    messages: &Vec<Rc<HQMMessage>>,
    from: usize,
    to: usize,
)
    requires
        from <= to <= messages@.len(),
    ensures
        field_views(final(fields)@) == field_views(old(fields)@) + message_fields(
            message_views(messages@).subrange(from as int, to as int),
        ),
{
    let ghost all = message_views(messages@);
    assert(field_views(fields@) =~= field_views(old(fields)@) + message_fields(
        all.subrange(from as int, from as int),
    ));
    for i in from..to
        invariant
            from <= to <= messages@.len(),
            all == message_views(messages@),
            field_views(fields@) == field_views(old(fields)@) + message_fields(
                all.subrange(from as int, i as int),
            ),
    {
        push_field(fields, HQMWireField::Message(messages[i].clone()));
        assert(field_views(fields@) =~= field_views(old(fields)@) + message_fields(
            all.subrange(from as int, i + 1),
        ));
    }
}

impl HQMServer {
    /// The answer to a client that asks about the server. `team_size` is how many
    /// players a team has.
    pub fn request_info(&self, ping: u32, team_size: usize) -> (r: Vec<HQMWireField>)
        ensures
            field_views(r@) == self@.info(ping, team_size),
    {
        let player_count: usize = self.player_count();
        let mut fields: Vec<HQMWireField> = Vec::new();
        push_header(&mut fields);
        push_field(&mut fields, HQMWireField::Byte(1));
        push_field(&mut fields, HQMWireField::Bits { count: 8, value: GAME_VERSION });
        push_field(&mut fields, HQMWireField::Word(ping));
        push_field(&mut fields, HQMWireField::Bits { count: 8, value: player_count as u32 });
        push_field(&mut fields, HQMWireField::Bits { count: 4, value: 4 });
        push_field(&mut fields, HQMWireField::Bits { count: 4, value: team_size as u32 });
        push_field(
            &mut fields,
            HQMWireField::PaddedBytes {
                width: NAME_WIDTH,
                bytes: self.config.server_name.as_str().as_bytes_vec(),
            },
        );
        assert(field_views(fields@) =~= info_fields(
            ping,
            self@.player_count(),
            team_size as u32,
            self@.config.server_name@,
        ));
        fields
    }

    /// What one client is told at the end of a tick.
    pub fn write_update(
        &self,
        data: &HQMNetworkPlayerData,
        game_step: u32,
        force_view: Option<HQMServerPlayerIndex>,
    ) -> (r: Vec<HQMWireField>)
        ensures
            field_views(r@) == self@.update_fields(data@, game_step, force_view),
    {
        let mut fields: Vec<HQMWireField> = Vec::new();
        assert(field_views(fields@) =~= seq![]);
        push_header(&mut fields);
        if data.game_id != self.game_id {
            push_field(&mut fields, HQMWireField::Byte(6));
            push_field(&mut fields, HQMWireField::Word(self.game_id));
        } else {
            push_field(&mut fields, HQMWireField::Byte(5));
            push_field(&mut fields, HQMWireField::Word(self.game_id));
            push_field(&mut fields, HQMWireField::Word(game_step));
            push_score(&mut fields, self.values);
            let view: u32 = match force_view {
                Some(view) => view.0 as u32,
                None => data.view_player_index.0 as u32,
            };
            push_field(&mut fields, HQMWireField::Bits { count: 8, value: view });
            let ghost before = field_views(fields@);
            if data.client_version.has_ping() {
                push_field(&mut fields, HQMWireField::Word(data.deltatime));
            }
            if data.client_version.has_rules() {
                push_field(&mut fields, HQMWireField::Word(self.values.rules_state.get_code()));
            }
            assert(field_views(fields@) =~= before + data@.extra_fields(self.values.rules_state));
            push_field(
                &mut fields,
                HQMWireField::Objects {
                    current_packet: self.packet,
                    known_packet: data.known_packet,
                },
            );
            let start: usize = if data.known_msgpos > data.messages.len() {
                data.messages.len()
            } else {
                data.known_msgpos
            };
            let left: usize = data.messages.len() - start;
            let remaining_messages: usize = if left < MESSAGES_PER_UPDATE {
                left
            } else {
                MESSAGES_PER_UPDATE
            };
            push_field(
                &mut fields,
                HQMWireField::Bits { count: 4, value: remaining_messages as u32 },
            );
            push_field(&mut fields, HQMWireField::Bits { count: 16, value: start as u32 });
            push_messages(&mut fields, &data.messages, start, start + remaining_messages);
        }
        assert(field_views(fields@) =~= self@.update_fields(data@, game_step, force_view));
        fields
    }

    /// What every client is told at the end of a tick.
    pub fn send_updates(&self, game_step: u32, force_view: Option<HQMServerPlayerIndex>) -> (r: Vec<
        HQMUpdate,
    >)
        ensures
            update_views(r@) == self@.updates(game_step, force_view),
    {
        let mut r: Vec<HQMUpdate> = Vec::new();
        let n: usize = self.players.players.len();
        let ghost all = picked(self@.players, everyone(), 0);
        let ghost mut done: Seq<(HQMServerPlayerIndex, HQMServerPlayerView)> = seq![];
        assert(done + all =~= all);
        for i in 0..n
            invariant
                n == self.players.players@.len(),
                all == picked(self@.players, everyone(), 0),
                done + picked(self@.players, everyone(), i as int) == all,
                r@.len() == done.len(),
                forall|k: int|
                    #![trigger r@[k]]
                    0 <= k < r@.len() ==> r@[k].addr == done[k].1.data.addr && field_views(
                        r@[k].fields@,
                    ) == self@.update_fields(done[k].1.data, game_step, force_view),
        {
            if let Some(player) = &self.players.players[i] {
                assert(self@.players[i as int] == Some(player@));
                match &player.data {
                    HQMServerPlayerData::NetworkPlayer { data } => {
                        let fields = self.write_update(data, game_step, force_view);
                        r.push(HQMUpdate { addr: data.addr, fields });
                    },
                }
                proof {
                    let index = HQMServerPlayerIndex(i);
                    let rest = picked(self@.players, everyone(), i + 1);
                    assert(done + (seq![(index, player@)] + rest) =~= done.push((index, player@))
                        + rest);
                    done = done.push((index, player@));
                }
            }
        }
        assert(all =~= done);
        assert(update_views(r@) =~= self@.updates(game_step, force_view));
        r
    }

    /// What goes into the replay at the end of a tick.
    pub fn write_replay(&mut self) -> (r: Vec<HQMWireField>)
        requires
            old(self)@.wf(),
        ensures
            final(self)@.wf(),
            final(self)@ == old(self)@.after_recording(),
            field_views(r@) == old(self)@.replay_fields(),
    {
        let count: usize = self.messages.replay_messages.len();
        let remaining_messages: usize = count - self.replay_msg_pos;
        let mut fields: Vec<HQMWireField> = Vec::new();
        assert(field_views(fields@) =~= seq![]);
        push_field(&mut fields, HQMWireField::Byte(5));
        push_score(&mut fields, self.values);
        push_field(
            &mut fields,
            HQMWireField::Objects {
                current_packet: self.packet,
                known_packet: self.replay_last_packet,
            },
        );
        self.replay_last_packet = self.packet;
        push_field(&mut fields, HQMWireField::Bits { count: 16, value: remaining_messages as u32 });
        push_field(
            &mut fields,
            HQMWireField::Bits { count: 16, value: self.replay_msg_pos as u32 },
        );
        push_messages(&mut fields, &self.messages.replay_messages, self.replay_msg_pos, count);
        self.replay_msg_pos = count;
        push_field(&mut fields, HQMWireField::ReplayFix);
        assert(field_views(fields@) =~= old(self)@.replay_fields());
        fields
    }
}

} // verus!
