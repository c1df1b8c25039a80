use vstd::prelude::*;

use crate::float_bits::{float_eq, FloatBits};
use crate::snapshot::{LoopStatus, Metadata, MetadataView, PlaybackStatus, Snapshot, SnapshotView};

verus! {

/// Represents a change in player state.
///
/// Position changes (seeking, or time passing while media plays) are not events.
#[derive(Debug)]
pub enum Event {
    /// Player was shut down / quit.
    PlayerShutDown,
    /// Player was paused.
    Paused,
    /// Player started playing media.
    Playing,
    /// Player was stopped.
    Stopped,
    /// Loop status changed; the new loop status is given.
    LoopingChanged(LoopStatus),
    /// Shuffle status changed; the new shuffle status is given.
    ShuffleToggled(bool),
    /// Volume changed; the new volume is given.
    VolumeChanged(FloatBits),
    /// Playback rate changed; the new rate is given.
    PlaybackRateChanged(FloatBits),
    /// Track changed; the new track's metadata is given, without its
    /// auxiliary entries.
    TrackChanged(Metadata),
}

/// An event as a model, with its metadata as a `MetadataView`.
pub enum EventView {
    PlayerShutDown,
    Paused,
    Playing,
    Stopped,
    LoopingChanged(LoopStatus),
    ShuffleToggled(bool),
    VolumeChanged(FloatBits),
    PlaybackRateChanged(FloatBits),
    TrackChanged(MetadataView),
}

impl View for Event {
    type V = EventView;

    open spec fn view(&self) -> EventView {
        match self {
            Event::PlayerShutDown => EventView::PlayerShutDown,
            Event::Paused => EventView::Paused,
            Event::Playing => EventView::Playing,
            Event::Stopped => EventView::Stopped,
            Event::LoopingChanged(l) => EventView::LoopingChanged(*l),
            Event::ShuffleToggled(b) => EventView::ShuffleToggled(*b),
            Event::VolumeChanged(v) => EventView::VolumeChanged(*v),
            Event::PlaybackRateChanged(r) => EventView::PlaybackRateChanged(*r),
            Event::TrackChanged(m) => EventView::TrackChanged(m@),
        }
    }
}

/// Fetching a snapshot from the player failed.
#[derive(Debug)]
pub struct ConnectionError {
    pub message: String,
}

impl View for ConnectionError {
    type V = Seq<char>;

    open spec fn view(&self) -> Seq<char> {
        self.message@
    }
}

/// The event that a new playback status maps to.
pub open spec fn status_event(status: PlaybackStatus) -> EventView {
    match status {
        PlaybackStatus::Playing => EventView::Playing,
        PlaybackStatus::Paused => EventView::Paused,
        PlaybackStatus::Stopped => EventView::Stopped,
    }
}

/// One event if `changed`, none otherwise.
pub open spec fn when(changed: bool, e: EventView) -> Seq<EventView> {
    if changed {
        seq![e]
    } else {
        Seq::empty()
    }
}

pub open spec fn playback_status_events(prev: SnapshotView, next: SnapshotView) -> Seq<EventView> {
    when(prev.playback_status != next.playback_status, status_event(next.playback_status))
}

pub open spec fn loop_status_events(prev: SnapshotView, next: SnapshotView) -> Seq<EventView> {
    when(prev.loop_status != next.loop_status, EventView::LoopingChanged(next.loop_status))
}

pub open spec fn shuffle_events(prev: SnapshotView, next: SnapshotView) -> Seq<EventView> {
    when(prev.shuffle != next.shuffle, EventView::ShuffleToggled(next.shuffle))
}

pub open spec fn volume_events(prev: SnapshotView, next: SnapshotView) -> Seq<EventView> {
    when(!float_eq(prev.volume, next.volume), EventView::VolumeChanged(next.volume))
}

pub open spec fn playback_rate_events(prev: SnapshotView, next: SnapshotView) -> Seq<EventView> {
    when(
        !float_eq(prev.playback_rate, next.playback_rate),
        EventView::PlaybackRateChanged(next.playback_rate),
    )
}

pub open spec fn metadata_events(prev: SnapshotView, next: SnapshotView) -> Seq<EventView> {
    when(
        prev.metadata.track_id != next.metadata.track_id,
        EventView::TrackChanged(next.metadata.without_rest()),
    )
}

/// The events between two consecutive snapshots, in their fixed order:
/// playback status, loop status, shuffle, volume, playback rate, track.
pub open spec fn diff(prev: SnapshotView, next: SnapshotView) -> Seq<EventView> {
    playback_status_events(prev, next) + loop_status_events(prev, next) + shuffle_events(prev, next)
        + volume_events(prev, next) + playback_rate_events(prev, next) + metadata_events(prev, next)
}

/// Where the stream stands between two calls.
#[derive(Clone, Copy, Debug, PartialEq, Eq, Structural)]
pub enum Phase {
    /// Between pulls: queued events are handed out first.
    Ready,
    /// The queue is empty; waiting to learn whether the player is reachable.
    CheckingLiveness,
    /// Waiting for the player to signal a change.
    Blocked,
    /// Woken; waiting to learn whether the player is still reachable.
    Rechecking,
    /// Waiting for a fresh snapshot.
    Fetching,
    /// The sequence has ended for good.
    Done,
}

/// What the caller is to do after a step of the stream.
#[derive(Debug)]
pub enum Action {
    /// Find out whether the player is reachable; report with `reachability`.
    CheckReachable,
    /// Block until the player signals some change; report with `woke`.
    WaitUntilDirty,
    /// Fetch a snapshot; report with `fetched`.
    FetchSnapshot,
    /// Hand this event to the consumer.
    Yield(Event),
    /// Hand this error to the consumer.
    Fail(ConnectionError),
    /// The sequence has ended.
    End,
    /// The call did not answer what the stream was waiting for; nothing changed.
    Unexpected,
}

/// An action as a model.
pub enum ActionView {
    CheckReachable,
    WaitUntilDirty,
    FetchSnapshot,
    Yield(EventView),
    Fail(Seq<char>),
    End,
    Unexpected,
}

impl View for Action {
    type V = ActionView;

    open spec fn view(&self) -> ActionView {
        match self {
            Action::CheckReachable => ActionView::CheckReachable,
            Action::WaitUntilDirty => ActionView::WaitUntilDirty,
            Action::FetchSnapshot => ActionView::FetchSnapshot,
            Action::Yield(e) => ActionView::Yield(e@),
            Action::Fail(e) => ActionView::Fail(e@),
            Action::End => ActionView::End,
            Action::Unexpected => ActionView::Unexpected,
        }
    }
}

/// Turns snapshots of a player into a sequence of events.
///
/// The caller drives it: each call returns the next `Action`, and the caller
/// reports the outcome of that action through the matching method.
#[derive(Debug)]
pub struct PlayerEvents {
    /// Used to diff older state to find events.
    last: Snapshot,
    /// Events found by the last diff and not yet handed out.
    buffer: Vec<Event>,
    phase: Phase,
}

/// The stream as a model: the last snapshot, the events not yet handed out,
/// and the phase.
pub struct PlayerEventsView {
    pub last: SnapshotView,
    pub queue: Seq<EventView>,
    pub phase: Phase,
}

impl PlayerEventsView {
    /// Events wait in the queue only between pulls.
    pub open spec fn wf(self) -> bool {
        self.phase != Phase::Ready ==> self.queue.len() == 0
    }
}

pub open spec fn events_view(v: Seq<Event>) -> Seq<EventView> {
    v.map_values(|e: Event| e@)
}

impl View for PlayerEvents {
    type V = PlayerEventsView;

    closed spec fn view(&self) -> PlayerEventsView {
        PlayerEventsView { last: self.last@, queue: events_view(self.buffer@), phase: self.phase }
    }
}

/// A pull from the consumer.
pub open spec fn next_step(s: PlayerEventsView) -> (PlayerEventsView, ActionView) {
    match s.phase {
        Phase::Done => (s, ActionView::End),
        Phase::Ready => if s.queue.len() > 0 {
            (PlayerEventsView { queue: s.queue.drop_first(), ..s }, ActionView::Yield(s.queue[0]))
        } else {
            (PlayerEventsView { phase: Phase::CheckingLiveness, ..s }, ActionView::CheckReachable)
        },
        _ => (s, ActionView::Unexpected),
    }
}

/// The player was found reachable or not.
pub open spec fn reachability_step(s: PlayerEventsView, reachable: bool) -> (
    PlayerEventsView,
    ActionView,
) {
    if s.phase == Phase::CheckingLiveness || s.phase == Phase::Rechecking {
        if !reachable {
            (PlayerEventsView { phase: Phase::Done, ..s }, ActionView::Yield(EventView::PlayerShutDown))
        } else if s.phase == Phase::CheckingLiveness {
            (PlayerEventsView { phase: Phase::Blocked, ..s }, ActionView::WaitUntilDirty)
        } else {
            (PlayerEventsView { phase: Phase::Fetching, ..s }, ActionView::FetchSnapshot)
        }
    } else {
        (s, ActionView::Unexpected)
    }
}

/// The player signalled a change.
pub open spec fn woke_step(s: PlayerEventsView) -> (PlayerEventsView, ActionView) {
    if s.phase == Phase::Blocked {
        (PlayerEventsView { phase: Phase::Rechecking, ..s }, ActionView::CheckReachable)
    } else {
        (s, ActionView::Unexpected)
    }
}

/// A snapshot was fetched, or fetching it failed.
pub open spec fn fetched_step(s: PlayerEventsView, r: Result<SnapshotView, Seq<char>>) -> (
    PlayerEventsView,
    ActionView,
) {
    if s.phase == Phase::Fetching {
        match r {
            Err(message) => (PlayerEventsView { phase: Phase::Ready, ..s }, ActionView::Fail(message)),
            Ok(next) => {
                let q = s.queue + diff(s.last, next);
                if q.len() > 0 {
                    (
                        PlayerEventsView { last: next, queue: q.drop_first(), phase: Phase::Ready },
                        ActionView::Yield(q[0]),
                    )
                } else {
                    (
                        PlayerEventsView { last: next, queue: q, phase: Phase::CheckingLiveness },
                        ActionView::CheckReachable,
                    )
                }
            },
        }
    } else {
        (s, ActionView::Unexpected)
    }
}

pub open spec fn result_view(r: Result<Snapshot, ConnectionError>) -> Result<SnapshotView, Seq<char>> {
    match r {
        Ok(s) => Ok(s@),
        Err(e) => Err(e@),
    }
}

impl PlayerEvents {
    /// Starts a stream from the player's first snapshot; a failed fetch is
    /// handed back as the error.
    pub fn new(initial: Result<Snapshot, ConnectionError>) -> (r: Result<PlayerEvents, ConnectionError>)
        ensures
            match (initial, r) {
                (Ok(s), Ok(p)) => p@ == (PlayerEventsView {
                    last: s@,
                    queue: Seq::empty(),
                    phase: Phase::Ready,
                }) && p@.wf(),
                (Err(e), Err(f)) => f@ == e@,
                _ => false,
            },
    {
        match initial {
            Ok(s) => {
                let p = PlayerEvents { last: s, buffer: Vec::new(), phase: Phase::Ready };
                assert(p@.queue =~= Seq::<EventView>::empty());
                Ok(p)
            },
            Err(e) => Err(e),
        }
    }

    pub fn phase(&self) -> (r: Phase)
        ensures
            r == self@.phase,
    {
        self.phase
    }

    /// The number of events found and not yet handed out.
    pub fn pending(&self) -> (r: usize)
        ensures
            r == self@.queue.len(),
    {
        self.buffer.len()
    }

    fn push_event(&mut self, e: Event)
        ensures
            final(self)@ == (PlayerEventsView { queue: old(self)@.queue.push(e@), ..old(self)@ }),
    {
        self.buffer.push(e);
        assert(events_view(self.buffer@) =~= events_view(old(self).buffer@).push(e@));
    }

    fn detect_playback_status_events(&mut self, new_progress: &Snapshot)
        ensures
            final(self)@ == (PlayerEventsView {
                queue: old(self)@.queue + playback_status_events(old(self)@.last, new_progress@),
                ..old(self)@
            }),
    {
        let ghost q = self@.queue;
        if self.last.playback_status != new_progress.playback_status {
            match new_progress.playback_status {
                PlaybackStatus::Playing => self.push_event(Event::Playing),
                PlaybackStatus::Paused => self.push_event(Event::Paused),
                PlaybackStatus::Stopped => self.push_event(Event::Stopped),
            }
        }
        assert(self@.queue =~= q + playback_status_events(old(self)@.last, new_progress@));
    }

    fn detect_loop_status_events(&mut self, new_progress: &Snapshot)
        ensures
            final(self)@ == (PlayerEventsView {
                queue: old(self)@.queue + loop_status_events(old(self)@.last, new_progress@),
                ..old(self)@
            }),
    {
        let ghost q = self@.queue;
        let loop_status = new_progress.loop_status;
        if self.last.loop_status != loop_status {
            self.push_event(Event::LoopingChanged(loop_status));
        }
        assert(self@.queue =~= q + loop_status_events(old(self)@.last, new_progress@));
    }

    fn detect_shuffle_events(&mut self, new_progress: &Snapshot)
        ensures
            final(self)@ == (PlayerEventsView {
                queue: old(self)@.queue + shuffle_events(old(self)@.last, new_progress@),
                ..old(self)@
            }),
    {
        let ghost q = self@.queue;
        let status = new_progress.shuffle;
        if self.last.shuffle != status {
            self.push_event(Event::ShuffleToggled(status));
        }
        assert(self@.queue =~= q + shuffle_events(old(self)@.last, new_progress@));
    }

    fn detect_volume_events(&mut self, new_progress: &Snapshot)
        ensures
            final(self)@ == (PlayerEventsView {
                queue: old(self)@.queue + volume_events(old(self)@.last, new_progress@),
                ..old(self)@
            }),
    {
        let ghost q = self@.queue;
        let volume = new_progress.volume;
        if !self.last.volume.float_eq(&volume) {
            self.push_event(Event::VolumeChanged(volume));
        }
        assert(self@.queue =~= q + volume_events(old(self)@.last, new_progress@));
    }

    fn detect_playback_rate_events(&mut self, new_progress: &Snapshot)
        ensures
            final(self)@ == (PlayerEventsView {
                queue: old(self)@.queue + playback_rate_events(old(self)@.last, new_progress@),
                ..old(self)@
            }),
    {
        let ghost q = self@.queue;
        let rate = new_progress.playback_rate;
        if !self.last.playback_rate.float_eq(&rate) {
            self.push_event(Event::PlaybackRateChanged(rate));
        }
        assert(self@.queue =~= q + playback_rate_events(old(self)@.last, new_progress@));
    }

    fn detect_metadata_events(&mut self, new_progress: &Snapshot)
        ensures
            final(self)@ == (PlayerEventsView {
                queue: old(self)@.queue + metadata_events(old(self)@.last, new_progress@),
                ..old(self)@
            }),
    {
        let ghost q = self@.queue;
        let metadata = &new_progress.metadata;
        if !self.last.metadata.track_id.eq(&metadata.track_id) {
            self.push_event(Event::TrackChanged(metadata.clone_without_rest()));
        }
        assert(self@.queue =~= q + metadata_events(old(self)@.last, new_progress@));
    }

    /// Appends the events between the last snapshot and `new_progress`, in
    /// their fixed order, and keeps `new_progress` as the last snapshot.
    #[verifier::spinoff_prover]
    #[verifier::rlimit(50)]
    fn read_events(&mut self, new_progress: Snapshot)
        ensures
            final(self)@ == (PlayerEventsView {
                last: new_progress@,
                queue: old(self)@.queue + diff(old(self)@.last, new_progress@),
                phase: old(self)@.phase,
            }),
    {
        let ghost prev = self@.last;
        let ghost next = new_progress@;
        let ghost q = self@.queue;
        let ghost a = playback_status_events(prev, next);
        let ghost b = loop_status_events(prev, next);
        let ghost c = shuffle_events(prev, next);
        let ghost d = volume_events(prev, next);
        let ghost e = playback_rate_events(prev, next);
        let ghost f = metadata_events(prev, next);
        self.detect_playback_status_events(&new_progress);
        self.detect_loop_status_events(&new_progress);
        assert(self@.queue == q + a + b);
        self.detect_shuffle_events(&new_progress);
        self.detect_volume_events(&new_progress);
        assert(self@.queue == q + a + b + c + d);
        self.detect_playback_rate_events(&new_progress);
        self.detect_metadata_events(&new_progress);
        assert(self@.queue == q + a + b + c + d + e + f);
        assert(q + a + b + c + d + e + f =~= q + diff(prev, next));
        self.last = new_progress;
    }

    /// Hands out the first queued event.
    fn pop_event(&mut self) -> (r: Action)
        requires
            old(self)@.queue.len() > 0,
        ensures
            r@ == ActionView::Yield(old(self)@.queue[0]),
            final(self)@ == (PlayerEventsView { queue: old(self)@.queue.drop_first(), ..old(self)@ }),
    {
        let e = self.buffer.remove(0);
        assert(events_view(self.buffer@) =~= events_view(old(self).buffer@).drop_first());
        Action::Yield(e)
    }

    /// The consumer asks for the next item.
    pub fn next(&mut self) -> (r: Action)
        ensures
            (final(self)@, r@) == next_step(old(self)@),
    {
        match self.phase {
            Phase::Done => Action::End,
            Phase::Ready => {
                if self.buffer.len() > 0 {
                    self.pop_event()
                } else {
                    self.phase = Phase::CheckingLiveness;
                    Action::CheckReachable
                }
            },
            _ => Action::Unexpected,
        }
    }

    /// Reports whether the player is reachable.
    pub fn reachability(&mut self, reachable: bool) -> (r: Action)
        ensures
            (final(self)@, r@) == reachability_step(old(self)@, reachable),
    {
        if self.phase == Phase::CheckingLiveness || self.phase == Phase::Rechecking {
            if !reachable {
                self.phase = Phase::Done;
                Action::Yield(Event::PlayerShutDown)
            } else if self.phase == Phase::CheckingLiveness {
                self.phase = Phase::Blocked;
                Action::WaitUntilDirty
            } else {
                self.phase = Phase::Fetching;
                Action::FetchSnapshot
            }
        } else {
            Action::Unexpected
        }
    }

    /// Reports that the player signalled some change.
    pub fn woke(&mut self) -> (r: Action)
        ensures
            (final(self)@, r@) == woke_step(old(self)@),
    {
        if self.phase == Phase::Blocked {
            self.phase = Phase::Rechecking;
            Action::CheckReachable
        } else {
            Action::Unexpected
        }
    }

    /// Reports the outcome of fetching a snapshot.
    pub fn fetched(&mut self, result: Result<Snapshot, ConnectionError>) -> (r: Action)
        ensures
            (final(self)@, r@) == fetched_step(old(self)@, result_view(result)),
    {
        if self.phase != Phase::Fetching {
            return Action::Unexpected;
        }
        match result {
            Err(e) => {
                self.phase = Phase::Ready;
                Action::Fail(e)
            },
            Ok(new_progress) => {
                self.read_events(new_progress);
                if self.buffer.len() > 0 {
                    self.phase = Phase::Ready;
                    self.pop_event()
                } else {
                    self.phase = Phase::CheckingLiveness;
                    Action::CheckReachable
                }
            },
        }
    }
}

} // verus!
