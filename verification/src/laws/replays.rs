//! Laws on recording play and on showing it again.

use crate::game::{HQMGameValues, HQMObjectPacket};
use crate::message::{HQMMessageView, HQMServerMessagesView};
use crate::replay::{packed_replay, steps_ago, ReplayRequest};
use crate::server::HQMServerView;
use vstd::bytes::{spec_u32_from_le_bytes, spec_u32_to_le_bytes};
use vstd::prelude::*;

verus! {

/// A stored replay says how long it is, and holds what was recorded.
pub proof fn law_stored_replays(bytes: Seq<u8>)
    requires
        bytes.len() <= u32::MAX,
    ensures
        packed_replay(bytes).len() == bytes.len() + 8,
        spec_u32_from_le_bytes(packed_replay(bytes).subrange(0, 4)) == 0,
        spec_u32_from_le_bytes(packed_replay(bytes).subrange(4, 8)) == bytes.len(),
        packed_replay(bytes).skip(8) == bytes,
{
    vstd::bytes::lemma_auto_spec_u32_to_from_le_bytes();
    let all = packed_replay(bytes);
    assert(all.subrange(0, 4) =~= spec_u32_to_le_bytes(0));
    assert(all.subrange(4, 8) =~= spec_u32_to_le_bytes(bytes.len() as u32));
    assert(all.skip(8) =~= bytes);
}

/// Once a step is recorded, the replay has every message that goes into it.
pub proof fn law_recording_catches_up(s: HQMServerView)
    requires
        s.wf(),
        s.messages.replay_messages.len() <= usize::MAX,
    ensures
        s.after_recording().unrecorded().len() == 0,
        s.after_recording().messages == s.messages,
        s.after_recording().wf(),
{
}

/// The messages that two recordings write, whatever was said in between, are all
/// that there were from the first on, each once and in order.
pub proof fn law_messages_are_recorded_once(s: HQMServerView, more: Seq<HQMMessageView>)
    requires
        s.wf(),
        s.messages.replay_messages.len() <= usize::MAX,
    ensures
        ({
            let recorded = s.after_recording();
            let later = HQMServerView {
                messages: HQMServerMessagesView {
                    replay_messages: recorded.messages.replay_messages + more,
                    ..recorded.messages
                },
                ..recorded
            };
            &&& later.unrecorded() == more
            &&& s.messages.replay_messages.take(s.replay_msg_pos as int) + s.unrecorded()
                + later.unrecorded() == later.messages.replay_messages
        }),
{
    let all = s.messages.replay_messages;
    assert((all + more).skip(all.len() as int) =~= more);
    assert(all.take(s.replay_msg_pos as int) + all.skip(s.replay_msg_pos as int) + more =~= all
        + more);
}

/// Whether the steps that can be shown again follow each other without a gap, up to
/// the current one.
pub open spec fn unbroken(s: HQMServerView) -> bool {
    forall|i: int|
        0 <= i < s.saved_history.len() ==> (#[trigger] s.saved_history[i]).game_step == s.game_step
            - i
}

/// When a step is kept behind an unbroken history, the history stays unbroken, and it
/// never gets longer than it may be.
pub proof fn law_history_stays_unbroken(s: HQMServerView, packets: [HQMObjectPacket; 32])
    requires
        s.wf(),
        s.saved_history.len() > 0 ==> s.game_step < u32::MAX,
        unbroken(s),
    ensures
        ({
            let after = HQMServerView {
                game_step: s.game_step.wrapping_add(1),
                ..s
            }.with_history(packets);
            &&& unbroken(after)
            &&& after.saved_history.len() <= s.history_length
            &&& s.history_length > 0 ==> after.saved_history[0].packets == packets
        }),
{
    let stepped = HQMServerView { game_step: s.game_step.wrapping_add(1), ..s };
    let after = stepped.with_history(packets);
    assert forall|i: int| 0 <= i < after.saved_history.len() implies (
    #[trigger] after.saved_history[i]).game_step == after.game_step - i by {
        if i > 0 {
            assert(after.saved_history[i] == s.saved_history[i - 1]);
        }
    }
}

/// The history stays unbroken while play is shown again, and when a new game begins.
pub proof fn law_history_rests(s: HQMServerView, now: u64, values: HQMGameValues)
    requires
        unbroken(s),
    ensures
        unbroken(s.after_replay_tick(now)),
        s.after_replay_tick(now).game_step == s.game_step,
        unbroken(s.after_new_game(values)),
{
}

/// Of an unbroken history, a request brings the steps that it names, as far as they
/// have been played, from the first to the last in the order of play.
pub proof fn law_requests_show_what_they_name(s: HQMServerView, request: ReplayRequest)
    requires
        s.wf(),
        unbroken(s),
        request.0 < request.1,
        request.0 < s.game_step,
        s.game_step - request.0 < s.saved_history.len(),
    ensures
        s.can_show(request),
        s.requested_ticks(request) is Some,
        s.requested_ticks(request)->0.len() == (if request.1 < s.game_step {
            request.1
        } else {
            s.game_step
        }) - request.0 + 1,
        forall|k: int|
            0 <= k < s.requested_ticks(request)->0.len() ==> (
            #[trigger] s.requested_ticks(request)->0[k]).game_step == request.0 + k,
{
    let first = steps_ago(s.game_step, request.0);
    let ticks = s.requested_ticks(request)->0;
    assert forall|k: int| 0 <= k < ticks.len() implies (#[trigger] ticks[k]).game_step == request.0
        + k by {
        assert(ticks[k] == s.saved_history[first - k]);
    }
}

/// A request that names one step or none brings nothing.
pub proof fn law_short_requests_show_nothing(s: HQMServerView, request: ReplayRequest)
    requires
        request.0 >= request.1 || request.0 >= s.game_step,
    ensures
        s.requested_ticks(request) is None,
        s.can_show(request),
{
}

/// The server after a number of ticks in which play was shown again.
pub open spec fn shown_for(s: HQMServerView, times: Seq<u64>) -> HQMServerView
    decreases times.len(),
{
    if times.len() == 0 {
        s
    } else {
        shown_for(s, times.drop_last()).after_replay_tick(times.last())
    }
}

/// The stretch at the head of the queue is shown tick by tick in the order of play,
/// and the rest of the queue waits until it is over.
pub proof fn law_stretches_are_shown_in_order(s: HQMServerView, times: Seq<u64>)
    requires
        s.replay_queue.len() > 0,
        times.len() <= s.replay_queue[0].data.len(),
    ensures
        ({
            let after = shown_for(s, times);
            &&& after.replay_queue.len() == s.replay_queue.len()
            &&& after.replay_queue[0].data == s.replay_queue[0].data.skip(times.len() as int)
            &&& after.replay_queue[0].force_view == s.replay_queue[0].force_view
            &&& after.replay_queue.skip(1) == s.replay_queue.skip(1)
            &&& times.len() > 0 ==> after.saved_packets[0]
                == s.replay_queue[0].data[times.len() - 1].packets
        }),
    decreases times.len(),
{
    if times.len() > 0 {
        let before = shown_for(s, times.drop_last());
        law_stretches_are_shown_in_order(s, times.drop_last());
        let after = shown_for(s, times);
        let data = s.replay_queue[0].data;
        assert(before.replay_queue[0].data[0] == data[times.len() - 1]);
        assert(data.skip(times.len() - 1).drop_first() =~= data.skip(times.len() as int));
        assert forall|i: int| 0 < i < s.replay_queue.len() implies #[trigger] after.replay_queue[i]
            == s.replay_queue[i] by {
            assert(before.replay_queue.skip(1)[i - 1] == s.replay_queue.skip(1)[i - 1]);
        }
        assert(after.replay_queue.skip(1) =~= s.replay_queue.skip(1));
    } else {
        assert(s.replay_queue[0].data.skip(0) =~= s.replay_queue[0].data);
    }
}

} // verus!
