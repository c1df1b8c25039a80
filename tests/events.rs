use player_events::event::{Action, ConnectionError, Event, Phase, PlayerEvents};
use player_events::float_bits::FloatBits;
use player_events::snapshot::{LoopStatus, Metadata, MetadataEntry, PlaybackStatus, Snapshot};

fn float(v: f64) -> FloatBits {
    FloatBits::from_bits(v.to_bits())
}

fn metadata(track_id: &str) -> Metadata {
    Metadata {
        track_id: track_id.to_string(),
        title: Some(format!("title of {}", track_id)),
        album_name: Some("album".to_string()),
        artists: vec!["first".to_string(), "second".to_string()],
        length_in_microseconds: Some(180_000_000),
        rest: vec![MetadataEntry { key: "xesam:genre".to_string(), value: "jazz".to_string() }],
    }
}

fn snapshot(status: PlaybackStatus, volume: f64, track_id: &str) -> Snapshot {
    Snapshot {
        playback_status: status,
        loop_status: LoopStatus::Off,
        shuffle: false,
        volume: float(volume),
        playback_rate: float(1.0),
        metadata: metadata(track_id),
    }
}

fn base() -> Snapshot {
    snapshot(PlaybackStatus::Paused, 0.5, "/track/1")
}

fn stream(initial: Snapshot) -> PlayerEvents {
    PlayerEvents::new(Ok(initial)).unwrap()
}

/// Drives a stream from `Ready` through one wake-up to a fetch of `next`.
fn cycle(p: &mut PlayerEvents, next: Result<Snapshot, ConnectionError>) -> Action {
    assert!(matches!(p.next(), Action::CheckReachable));
    assert!(matches!(p.reachability(true), Action::WaitUntilDirty));
    assert!(matches!(p.woke(), Action::CheckReachable));
    assert!(matches!(p.reachability(true), Action::FetchSnapshot));
    p.fetched(next)
}

#[test]
fn new_propagates_fetch_error() {
    let r = PlayerEvents::new(Err(ConnectionError { message: "gone".to_string() }));
    match r {
        Err(e) => assert_eq!(e.message, "gone"),
        Ok(_) => panic!("expected an error"),
    }
}

#[test]
fn new_starts_ready_and_empty() {
    let p = stream(base());
    assert_eq!(p.phase(), Phase::Ready);
    assert_eq!(p.pending(), 0);
}

#[test]
fn unreachable_before_wait_yields_shutdown_then_ends() {
    let mut p = stream(base());
    assert!(matches!(p.next(), Action::CheckReachable));
    assert!(matches!(p.reachability(false), Action::Yield(Event::PlayerShutDown)));
    assert_eq!(p.phase(), Phase::Done);
    assert!(matches!(p.next(), Action::End));
}

#[test]
fn unreachable_after_wake_yields_shutdown_without_fetch() {
    let mut p = stream(base());
    assert!(matches!(p.next(), Action::CheckReachable));
    assert!(matches!(p.reachability(true), Action::WaitUntilDirty));
    assert!(matches!(p.woke(), Action::CheckReachable));
    assert!(matches!(p.reachability(false), Action::Yield(Event::PlayerShutDown)));
    assert!(matches!(p.next(), Action::End));
}

#[test]
fn equal_snapshots_yield_nothing() {
    let mut p = stream(base());
    let mut same = base();
    same.metadata.title = Some("renamed".to_string());
    same.metadata.rest = Vec::new();
    assert!(matches!(cycle(&mut p, Ok(same)), Action::CheckReachable));
    assert_eq!(p.pending(), 0);
    assert_eq!(p.phase(), Phase::CheckingLiveness);
}

#[test]
fn negative_zero_volume_is_no_change() {
    let mut p = stream(snapshot(PlaybackStatus::Paused, 0.0, "/track/1"));
    let next = snapshot(PlaybackStatus::Paused, -0.0, "/track/1");
    assert!(matches!(cycle(&mut p, Ok(next)), Action::CheckReachable));
}

#[test]
fn nan_volume_is_always_a_change() {
    let mut p = stream(snapshot(PlaybackStatus::Paused, f64::NAN, "/track/1"));
    let next = snapshot(PlaybackStatus::Paused, f64::NAN, "/track/1");
    match cycle(&mut p, Ok(next)) {
        Action::Yield(Event::VolumeChanged(v)) => assert!(f64::from_bits(v.to_bits()).is_nan()),
        other => panic!("unexpected {:?}", other),
    }
}

#[test]
fn events_come_in_fixed_order() {
    let mut p = stream(base());
    let next = snapshot(PlaybackStatus::Playing, 0.75, "/track/2");
    assert!(matches!(cycle(&mut p, Ok(next)), Action::Yield(Event::Playing)));
    match p.next() {
        Action::Yield(Event::VolumeChanged(v)) => assert_eq!(f64::from_bits(v.to_bits()), 0.75),
        other => panic!("unexpected {:?}", other),
    }
    match p.next() {
        Action::Yield(Event::TrackChanged(m)) => assert_eq!(m.track_id, "/track/2"),
        other => panic!("unexpected {:?}", other),
    }
    assert!(matches!(p.next(), Action::CheckReachable));
}

#[test]
fn every_field_in_order() {
    let mut p = stream(base());
    let mut next = snapshot(PlaybackStatus::Stopped, 0.25, "/track/9");
    next.loop_status = LoopStatus::Playlist;
    next.shuffle = true;
    next.playback_rate = float(2.0);
    assert!(matches!(cycle(&mut p, Ok(next)), Action::Yield(Event::Stopped)));
    assert!(matches!(p.next(), Action::Yield(Event::LoopingChanged(LoopStatus::Playlist))));
    assert!(matches!(p.next(), Action::Yield(Event::ShuffleToggled(true))));
    assert!(matches!(p.next(), Action::Yield(Event::VolumeChanged(_))));
    match p.next() {
        Action::Yield(Event::PlaybackRateChanged(r)) => {
            assert_eq!(f64::from_bits(r.to_bits()), 2.0)
        }
        other => panic!("unexpected {:?}", other),
    }
    assert!(matches!(p.next(), Action::Yield(Event::TrackChanged(_))));
    assert!(matches!(p.next(), Action::CheckReachable));
}

#[test]
fn track_changed_strips_rest() {
    let mut p = stream(base());
    let next = snapshot(PlaybackStatus::Paused, 0.5, "/track/2");
    match cycle(&mut p, Ok(next)) {
        Action::Yield(Event::TrackChanged(m)) => {
            assert_eq!(m.track_id, "/track/2");
            assert_eq!(m.title, Some("title of /track/2".to_string()));
            assert_eq!(m.album_name, Some("album".to_string()));
            assert_eq!(m.artists, vec!["first".to_string(), "second".to_string()]);
            assert_eq!(m.length_in_microseconds, Some(180_000_000));
            assert!(m.rest.is_empty());
        }
        other => panic!("unexpected {:?}", other),
    }
}

#[test]
fn clone_without_rest_keeps_named_fields() {
    let m = metadata("/track/5");
    let c = m.clone_without_rest();
    assert_eq!(c.track_id, "/track/5");
    assert_eq!(c.artists.len(), 2);
    assert!(c.rest.is_empty());
    assert_eq!(m.rest.len(), 1);
    assert_eq!(m.track_id(), "/track/5");
}

#[test]
fn burst_drains_without_waiting() {
    let mut p = stream(base());
    let next = snapshot(PlaybackStatus::Playing, 0.9, "/track/3");
    assert!(matches!(cycle(&mut p, Ok(next)), Action::Yield(Event::Playing)));
    assert_eq!(p.pending(), 2);
    assert!(matches!(p.next(), Action::Yield(Event::VolumeChanged(_))));
    assert!(matches!(p.next(), Action::Yield(Event::TrackChanged(_))));
    assert_eq!(p.pending(), 0);
    assert!(matches!(p.next(), Action::CheckReachable));
}

#[test]
fn fetch_error_passes_through_and_keeps_baseline() {
    let mut p = stream(base());
    let err = ConnectionError { message: "timed out".to_string() };
    match cycle(&mut p, Err(err)) {
        Action::Fail(e) => assert_eq!(e.message, "timed out"),
        other => panic!("unexpected {:?}", other),
    }
    assert_eq!(p.phase(), Phase::Ready);
    // Same as the baseline: nothing to report.
    assert!(matches!(cycle(&mut p, Ok(base())), Action::CheckReachable));
    assert!(matches!(p.reachability(true), Action::WaitUntilDirty));
    assert!(matches!(p.woke(), Action::CheckReachable));
    assert!(matches!(p.reachability(true), Action::FetchSnapshot));
    let next = snapshot(PlaybackStatus::Playing, 0.5, "/track/1");
    assert!(matches!(p.fetched(Ok(next)), Action::Yield(Event::Playing)));
}

#[test]
fn ended_sequence_stays_ended() {
    let mut p = stream(base());
    assert!(matches!(p.next(), Action::CheckReachable));
    assert!(matches!(p.reachability(false), Action::Yield(Event::PlayerShutDown)));
    for _ in 0..3 {
        assert!(matches!(p.next(), Action::End));
    }
    assert!(matches!(p.reachability(true), Action::Unexpected));
    assert!(matches!(p.woke(), Action::Unexpected));
    assert!(matches!(p.fetched(Ok(base())), Action::Unexpected));
    assert!(matches!(p.next(), Action::End));
    assert_eq!(p.pending(), 0);
}

#[test]
fn out_of_turn_reports_change_nothing() {
    let mut p = stream(base());
    assert!(matches!(p.woke(), Action::Unexpected));
    assert!(matches!(p.reachability(false), Action::Unexpected));
    assert!(matches!(p.fetched(Ok(snapshot(PlaybackStatus::Playing, 0.1, "x"))), Action::Unexpected));
    assert_eq!(p.phase(), Phase::Ready);
    assert!(matches!(p.next(), Action::CheckReachable));
    assert!(matches!(p.next(), Action::Unexpected));
    assert_eq!(p.phase(), Phase::CheckingLiveness);
}

#[test]
fn float_equality_follows_ieee() {
    assert!(float(1.5).float_eq(&float(1.5)));
    assert!(!float(1.5).float_eq(&float(1.25)));
    assert!(float(0.0).float_eq(&float(-0.0)));
    assert!(!float(f64::NAN).float_eq(&float(f64::NAN)));
    assert!(float(f64::INFINITY).float_eq(&float(f64::INFINITY)));
    assert!(!float(f64::INFINITY).float_eq(&float(f64::NEG_INFINITY)));
    assert!(float(f64::NAN).is_nan());
    assert!(!float(f64::INFINITY).is_nan());
    assert!(float(-0.0).is_zero());
    assert_eq!(float(0.5).to_bits(), 0.5f64.to_bits());
}
