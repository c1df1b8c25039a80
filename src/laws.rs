use vstd::prelude::*;

use crate::event::{
    diff, fetched_step, next_step, reachability_step, status_event, woke_step, ActionView,
    EventView, Phase, PlayerEventsView,
};
use crate::float_bits::float_eq;
use crate::snapshot::SnapshotView;

verus! {

/// A pull on an empty queue asks about liveness first; if the player is
/// unreachable, the only item that follows is `PlayerShutDown`, no snapshot
/// is fetched, and the sequence then ends.
pub proof fn lemma_liveness_first(s: PlayerEventsView)
    requires
        s.phase == Phase::Ready,
        s.queue.len() == 0,
    ensures
        next_step(s).1 == ActionView::CheckReachable,
        reachability_step(next_step(s).0, false).1 == ActionView::Yield(EventView::PlayerShutDown),
        reachability_step(next_step(s).0, false).0 == (PlayerEventsView { phase: Phase::Done, ..s }),
        next_step(reachability_step(next_step(s).0, false).0) == (
            reachability_step(next_step(s).0, false).0,
            ActionView::End,
        ),
{
}

/// Two snapshots that agree on every compared field give no events, and the
/// stream goes back to checking liveness and waiting without handing out
/// anything.
pub proof fn lemma_no_op_diff(s: PlayerEventsView, next: SnapshotView)
    requires
        s.phase == Phase::Fetching,
        s.queue.len() == 0,
        s.last.playback_status == next.playback_status,
        s.last.loop_status == next.loop_status,
        s.last.shuffle == next.shuffle,
        float_eq(s.last.volume, next.volume),
        float_eq(s.last.playback_rate, next.playback_rate),
        s.last.metadata.track_id == next.metadata.track_id,
    ensures
        diff(s.last, next) == Seq::<EventView>::empty(),
        fetched_step(s, Ok(next)) == (
            PlayerEventsView { last: next, queue: Seq::empty(), phase: Phase::CheckingLiveness },
            ActionView::CheckReachable,
        ),
{
    assert(diff(s.last, next) =~= Seq::<EventView>::empty());
    assert(s.queue + diff(s.last, next) =~= Seq::<EventView>::empty());
}

/// When playback status, volume and track change together, the events come
/// in the fixed order: status, then volume, then track.
pub proof fn lemma_fixed_order(prev: SnapshotView, next: SnapshotView)
    requires
        prev.playback_status != next.playback_status,
        prev.loop_status == next.loop_status,
        prev.shuffle == next.shuffle,
        !float_eq(prev.volume, next.volume),
        float_eq(prev.playback_rate, next.playback_rate),
        prev.metadata.track_id != next.metadata.track_id,
    ensures
        diff(prev, next) == seq![
            status_event(next.playback_status),
            EventView::VolumeChanged(next.volume),
            EventView::TrackChanged(next.metadata.without_rest()),
        ],
{
    assert(diff(prev, next) =~= seq![
        status_event(next.playback_status),
        EventView::VolumeChanged(next.volume),
        EventView::TrackChanged(next.metadata.without_rest()),
    ]);
}

/// On a track change the last event carries the new metadata with its track
/// identity and every named field kept, and no auxiliary entry.
pub proof fn lemma_track_changed_strips_rest(prev: SnapshotView, next: SnapshotView)
    requires
        prev.metadata.track_id != next.metadata.track_id,
    ensures
        diff(prev, next).len() > 0,
        match diff(prev, next).last() {
            EventView::TrackChanged(m) => {
                &&& m.track_id == next.metadata.track_id
                &&& m.title == next.metadata.title
                &&& m.album_name == next.metadata.album_name
                &&& m.artists == next.metadata.artists
                &&& m.length_in_microseconds == next.metadata.length_in_microseconds
                &&& m.rest.len() == 0
            },
            _ => false,
        },
{
}

/// Three events found by one diff are handed out by the fetch report and the
/// next two pulls, with no wait in between; the pull after them asks about
/// liveness again.
pub proof fn lemma_burst_draining(s: PlayerEventsView, next: SnapshotView)
    requires
        s.phase == Phase::Fetching,
        s.queue.len() == 0,
        diff(s.last, next).len() == 3,
    ensures
        fetched_step(s, Ok(next)).1 == ActionView::Yield(diff(s.last, next)[0]),
        next_step(fetched_step(s, Ok(next)).0).1 == ActionView::Yield(diff(s.last, next)[1]),
        next_step(next_step(fetched_step(s, Ok(next)).0).0).1 == ActionView::Yield(
            diff(s.last, next)[2],
        ),
        next_step(next_step(next_step(fetched_step(s, Ok(next)).0).0).0).1
            == ActionView::CheckReachable,
{
    let d = diff(s.last, next);
    assert(s.queue + d =~= d);
}

/// A failed fetch is handed out as it came and leaves the last snapshot
/// alone: the next full cycle diffs against the snapshot from before the
/// failure.
pub proof fn lemma_error_passthrough(
    s: PlayerEventsView,
    message: Seq<char>,
    next: SnapshotView,
)
    requires
        s.phase == Phase::Fetching,
        s.queue.len() == 0,
    ensures
        fetched_step(s, Err(message)) == (
            PlayerEventsView { phase: Phase::Ready, ..s },
            ActionView::Fail(message),
        ),
        next_step(fetched_step(s, Err(message)).0) == (
            PlayerEventsView { phase: Phase::CheckingLiveness, ..s },
            ActionView::CheckReachable,
        ),
        reachability_step(PlayerEventsView { phase: Phase::CheckingLiveness, ..s }, true) == (
            PlayerEventsView { phase: Phase::Blocked, ..s },
            ActionView::WaitUntilDirty,
        ),
        woke_step(PlayerEventsView { phase: Phase::Blocked, ..s }) == (
            PlayerEventsView { phase: Phase::Rechecking, ..s },
            ActionView::CheckReachable,
        ),
        reachability_step(PlayerEventsView { phase: Phase::Rechecking, ..s }, true) == (s,
        ActionView::FetchSnapshot),
{
}

/// Once ended, the sequence stays ended: a pull reports the end again and
/// no report changes anything or hands out an event.
pub proof fn lemma_terminal_idempotence(
    s: PlayerEventsView,
    reachable: bool,
    r: Result<SnapshotView, Seq<char>>,
)
    requires
        s.phase == Phase::Done,
    ensures
        next_step(s) == (s, ActionView::End),
        reachability_step(s, reachable) == (s, ActionView::Unexpected),
        woke_step(s) == (s, ActionView::Unexpected),
        fetched_step(s, r) == (s, ActionView::Unexpected),
{
}

/// Every step keeps events in the queue only between pulls, so a stream
/// that is waiting on the player has nothing queued.
pub proof fn lemma_steps_preserve_wf(
    s: PlayerEventsView,
    reachable: bool,
    r: Result<SnapshotView, Seq<char>>,
)
    requires
        s.wf(),
    ensures
        next_step(s).0.wf(),
        reachability_step(s, reachable).0.wf(),
        woke_step(s).0.wf(),
        fetched_step(s, r).0.wf(),
{
}

} // verus!
