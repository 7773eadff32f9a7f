//! Laws on what clients and replays are told, field by field.

use crate::game::{HQMClientVersion, HQMRulesState};
use crate::player::{HQMNetworkPlayerDataView, HQMServerPlayerIndex};
use crate::server::HQMServerView;
use crate::wire::HQMWireFieldView;
use super::sessions::{law_player_counts, taken};
use vstd::prelude::*;
use vstd::utf8::encode_utf8;

verus! {

/// The bytes of `Hock`.
pub open spec fn is_header(field: HQMWireFieldView) -> bool {
    &&& field is Bytes
    &&& field->Bytes_0.len() == 4
    &&& field->Bytes_0[0] == 0x48
    &&& field->Bytes_0[1] == 0x6f
    &&& field->Bytes_0[2] == 0x63
    &&& field->Bytes_0[3] == 0x6b
}

/// The number in a field of so many bits.
pub open spec fn number_in(field: HQMWireFieldView, count: u8) -> Option<u32> {
    match field {
        HQMWireFieldView::Bits { count: width, value } => if width == count {
            Some(value)
        } else {
            None
        },
        _ => None,
    }
}

/// How many fields beyond the basic protocol a client is told.
pub open spec fn extras(version: HQMClientVersion) -> int {
    match version {
        HQMClientVersion::Vanilla => 0,
        HQMClientVersion::Ping => 1,
        HQMClientVersion::PingRules => 2,
    }
}

/// A client that is in another game is told the number of the current one, and
/// nothing else.
pub proof fn law_packets_to_other_games(
    s: HQMServerView,
    data: HQMNetworkPlayerDataView,
    game_step: u32,
    force_view: Option<HQMServerPlayerIndex>,
)
    requires
        data.game_id != s.game_id,
    ensures
        ({
            let f = s.update_fields(data, game_step, force_view);
            &&& f.len() == 3
            &&& is_header(f[0])
            &&& f[1] == HQMWireFieldView::Byte(6)
            &&& f[2] == HQMWireFieldView::Word(s.game_id)
        }),
{
}

/// A client in the current game is told the step and the whole score board.
pub proof fn law_packets_show_the_score(
    s: HQMServerView,
    data: HQMNetworkPlayerDataView,
    game_step: u32,
    force_view: Option<HQMServerPlayerIndex>,
)
    requires
        data.game_id == s.game_id,
    ensures
        ({
            let f = s.update_fields(data, game_step, force_view);
            &&& f.len() >= 14
            &&& is_header(f[0])
            &&& f[1] == HQMWireFieldView::Byte(5)
            &&& f[2] == HQMWireFieldView::Word(s.game_id)
            &&& f[3] == HQMWireFieldView::Word(game_step)
            &&& s.values.game_over ==> number_in(f[4], 1) == Some(1u32)
            &&& !s.values.game_over ==> number_in(f[4], 1) == Some(0u32)
            &&& number_in(f[5], 8) == Some(s.values.red_score)
            &&& number_in(f[6], 8) == Some(s.values.blue_score)
            &&& number_in(f[7], 16) == Some(s.values.time)
            &&& number_in(f[8], 16) == Some(s.values.goal_message_timer)
            &&& number_in(f[9], 8) == Some(s.values.period)
        }),
{
}

/// A client sees the rink through the player whose view is forced; when none is, through
/// the player whom the client views.
pub proof fn law_packets_show_the_view(
    s: HQMServerView,
    data: HQMNetworkPlayerDataView,
    game_step: u32,
    force_view: Option<HQMServerPlayerIndex>,
)
    requires
        data.game_id == s.game_id,
    ensures
        ({
            let shown = number_in(s.update_fields(data, game_step, force_view)[10], 8);
            &&& force_view is None ==> shown == Some(data.view_player_index.0 as u32)
            &&& force_view is Some ==> shown == Some((force_view->0).0 as u32)
        }),
{
}

/// Two clients that view different players are told so, unless a view is forced; then
/// they are told the same view.
pub proof fn law_views_are_told_apart(
    s: HQMServerView,
    one: HQMNetworkPlayerDataView,
    other: HQMNetworkPlayerDataView,
    game_step: u32,
    forced: HQMServerPlayerIndex,
)
    requires
        one.game_id == s.game_id,
        other.game_id == s.game_id,
        one.view_player_index != other.view_player_index,
        one.view_player_index.0 <= u32::MAX,
        other.view_player_index.0 <= u32::MAX,
    ensures
        s.update_fields(one, game_step, None)[10] != s.update_fields(other, game_step, None)[10],
        s.update_fields(one, game_step, Some(forced))[10] == s.update_fields(
            other,
            game_step,
            Some(forced),
        )[10],
{
}

/// A client gets its own clock back if it expects it, and is told what the referee shows
/// if it can show it.
pub proof fn law_packets_suit_the_client(
    s: HQMServerView,
    data: HQMNetworkPlayerDataView,
    game_step: u32,
    force_view: Option<HQMServerPlayerIndex>,
)
    requires
        data.game_id == s.game_id,
    ensures
        ({
            let f = s.update_fields(data, game_step, force_view);
            &&& data.client_version != HQMClientVersion::Vanilla ==> f[11]
                == HQMWireFieldView::Word(data.deltatime)
            &&& data.client_version == HQMClientVersion::PingRules ==> f[12]
                == HQMWireFieldView::Word(
                match s.values.rules_state {
                    HQMRulesState::Offside => 4,
                    HQMRulesState::Icing => 8,
                    HQMRulesState::Regular { offside_warning, icing_warning } => ((
                    if offside_warning {
                        1int
                    } else {
                        0
                    }) + (if icing_warning {
                        2int
                    } else {
                        0
                    })) as u32,
                },
            )
            &&& f[11 + extras(data.client_version)] == (HQMWireFieldView::Objects {
                current_packet: s.packet,
                known_packet: data.known_packet,
            })
        }),
{
}

/// Behind the objects a client is told the messages from the one on that it has not
/// acknowledged: how many they are, where they begin, and each of them; fifteen at most.
pub proof fn law_packets_hold_the_messages(
    s: HQMServerView,
    data: HQMNetworkPlayerDataView,
    game_step: u32,
    force_view: Option<HQMServerPlayerIndex>,
)
    requires
        data.game_id == s.game_id,
    ensures
        ({
            let f = s.update_fields(data, game_step, force_view);
            let k = 12 + extras(data.client_version);
            let all = data.messages.len();
            let from = if data.known_msgpos <= all {
                data.known_msgpos as int
            } else {
                all as int
            };
            let n = f.len() - k - 2;
            &&& 0 <= n <= 15
            &&& n < 15 ==> from + n == all
            &&& n == 15 ==> from + 15 <= all
            &&& number_in(f[k], 4) == Some(n as u32)
            &&& number_in(f[k + 1], 16) == Some(from as u32)
            &&& forall|j: int|
                k + 2 <= j < f.len() ==> #[trigger] f[j] == HQMWireFieldView::Message(
                    data.messages[from + j - (k + 2)],
                )
        }),
{
}

/// A client that asks about the server is told the version of the game, the number that
/// it sent, how many players there are, how many a team has, and the name of the server.
pub proof fn law_answers_about_the_server(s: HQMServerView, ping: u32, team_size: usize)
    ensures
        ({
            let f = s.info(ping, team_size);
            &&& f.len() == 8
            &&& is_header(f[0])
            &&& f[1] == HQMWireFieldView::Byte(1)
            &&& number_in(f[2], 8) == Some(55u32)
            &&& f[3] == HQMWireFieldView::Word(ping)
            &&& number_in(f[4], 8) == Some(taken(s.players, 0) as u32)
            &&& number_in(f[5], 4) == Some(4u32)
            &&& number_in(f[6], 4) == Some(team_size as u32)
            &&& f[7] == (HQMWireFieldView::PaddedBytes {
                width: 32,
                bytes: encode_utf8(s.config.server_name@),
            })
        }),
{
    law_player_counts(s);
}

/// What a recorded step holds: the score board, the objects since the step recorded
/// before, and every message that was not recorded yet.
pub proof fn law_recorded_steps(s: HQMServerView)
    requires
        s.wf(),
    ensures
        ({
            let f = s.replay_fields();
            let left = s.messages.replay_messages.len() - s.replay_msg_pos;
            &&& f.len() == 11 + left
            &&& f[0] == HQMWireFieldView::Byte(5)
            &&& s.values.game_over ==> number_in(f[1], 1) == Some(1u32)
            &&& !s.values.game_over ==> number_in(f[1], 1) == Some(0u32)
            &&& number_in(f[2], 8) == Some(s.values.red_score)
            &&& number_in(f[3], 8) == Some(s.values.blue_score)
            &&& number_in(f[4], 16) == Some(s.values.time)
            &&& number_in(f[5], 16) == Some(s.values.goal_message_timer)
            &&& number_in(f[6], 8) == Some(s.values.period)
            &&& f[7] == (HQMWireFieldView::Objects {
                current_packet: s.packet,
                known_packet: s.replay_last_packet,
            })
            &&& number_in(f[8], 16) == Some(left as u32)
            &&& number_in(f[9], 16) == Some(s.replay_msg_pos as u32)
            &&& forall|j: int|
                10 <= j < 10 + left ==> #[trigger] f[j] == HQMWireFieldView::Message(
                    s.messages.replay_messages[s.replay_msg_pos + j - 10],
                )
            &&& f.last() == HQMWireFieldView::ReplayFix
        }),
{
}

/// Once a step was recorded, the next one tells of the objects since then, and of no
/// message again; nothing else has changed.
pub proof fn law_recording_moves_on(s: HQMServerView)
    requires
        s.wf(),
        s.messages.replay_messages.len() <= usize::MAX,
    ensures
        ({
            let t = s.after_recording();
            &&& t.replay_last_packet == s.packet
            &&& t.replay_msg_pos == s.messages.replay_messages.len()
            &&& t == (HQMServerView {
                replay_last_packet: t.replay_last_packet,
                replay_msg_pos: t.replay_msg_pos,
                ..s
            })
        }),
{
}

} // verus!
