use mpris_native::controller::{ConnectAction, ConnectRetry, ControllerInner, PlayerReads};
use mpris_native::error::MprisError;
use mpris_native::feed::{SnapshotFeed, StatusSlot, SNAPSHOT_BACKLOG};
use mpris_native::metadata::{MetaItem, MetaValue, Metadata};
use mpris_native::types::{PlaybackState, RepeatMode, SpotifydStatus, VOLUME_FULL_SCALE};

fn connected() -> ControllerInner {
    let mut c = ControllerInner::new();
    c.mark_connected();
    c
}

#[test]
fn new_controller_holds_zero_snapshot() {
    let c = ControllerInner::new();
    let s = c.get_state();
    assert!(!s.is_playing && !s.shuffle);
    assert_eq!((s.position_ms, s.duration_ms, s.volume), (0, 0, 0));
    assert_eq!(s.repeat, RepeatMode::Off);
    assert!(s.track.is_none());
    assert!(!c.is_connected());
}

#[test]
fn commands_need_a_connection() {
    let c = ControllerInner::new();
    assert_eq!(c.require_connection(), Err(MprisError::NotConnected));
    assert_eq!(c.seek_offset(2000), Err(MprisError::NotConnected));
    assert_eq!(c.repeat_request(RepeatMode::Track), Err(MprisError::NotConnected));
    let c = connected();
    assert_eq!(c.require_connection(), Ok(()));
}

#[test]
fn seek_converts_to_microseconds() {
    let c = connected();
    assert_eq!(c.seek_offset(2000), Ok(2_000_000));
    assert_eq!(c.seek_offset(-1500), Ok(-1_500_000));
    assert_eq!(c.seek_offset(0), Ok(0));
}

#[test]
fn repeat_request_names_the_loop_status() {
    let c = connected();
    assert_eq!(c.repeat_request(RepeatMode::Playlist), Ok("Playlist".to_string()));
    assert_eq!(c.repeat_request(RepeatMode::Off), Ok("None".to_string()));
}

#[test]
fn every_command_reaches_an_earlier_subscriber() {
    let mut c = connected();
    let id = c.subscribe_state_changes();
    assert_eq!(c.next_state_change(id).map(|s| s.is_playing), None);

    assert!(c.apply_play_pause("Playing"));
    let s = c.next_state_change(id).expect("snapshot after play/pause");
    assert!(s.is_playing);

    c.apply_volume(500_000);
    assert_eq!(c.next_state_change(id).expect("snapshot after volume").volume, 500_000);

    c.apply_shuffle(true);
    assert!(c.next_state_change(id).expect("snapshot after shuffle").shuffle);

    c.apply_repeat(RepeatMode::Track);
    assert_eq!(c.next_state_change(id).expect("snapshot after repeat").repeat, RepeatMode::Track);

    c.apply_transport();
    let s = c.next_state_change(id).expect("snapshot after skip");
    assert!(s.is_playing && s.shuffle);
    assert_eq!(s.volume, 500_000);

    assert!(!c.apply_play_pause("Paused"));
    assert!(!c.get_state().is_playing);
    assert_eq!(c.pending_state_changes(id), 1);
}

#[test]
fn late_subscriber_sees_only_later_snapshots() {
    let mut c = connected();
    c.apply_volume(1);
    let id = c.subscribe_state_changes();
    assert_eq!(c.pending_state_changes(id), 0);
    c.apply_volume(2);
    assert_eq!(c.next_state_change(id).unwrap().volume, 2);
    assert!(c.next_state_change(id).is_none());
}

#[test]
fn slow_subscriber_keeps_the_freshest_snapshots() {
    let mut c = connected();
    let id = c.subscribe_state_changes();
    for v in 0..40u32 {
        c.apply_volume(v);
    }
    assert_eq!(c.pending_state_changes(id), SNAPSHOT_BACKLOG);
    assert_eq!(c.next_state_change(id).unwrap().volume, 40 - SNAPSHOT_BACKLOG as u32);
    let mut last = 0;
    while let Some(s) = c.next_state_change(id) {
        last = s.volume;
    }
    assert_eq!(last, 39);
}

#[test]
fn unsubscribed_reader_gets_nothing() {
    let mut c = connected();
    let a = c.subscribe_state_changes();
    let b = c.subscribe_state_changes();
    c.apply_volume(3);
    c.unsubscribe_state_changes(a);
    assert_eq!(c.pending_state_changes(a), 0);
    assert_eq!(c.pending_state_changes(b), 1);
    c.apply_shuffle(true);
    assert!(c.next_state_change(a).is_none());
    assert_eq!(c.pending_state_changes(b), 2);
    assert!(c.next_state_change(b).is_some());
    assert!(c.next_state_change(99).is_none());
}

fn meta() -> Metadata {
    let mut m = Metadata::new();
    m.insert("xesam:title".to_string(), MetaValue::Str("Song A".to_string()));
    m.insert(
        "xesam:artist".to_string(),
        MetaValue::Array(vec![MetaItem::Str("Artist B".to_string())]),
    );
    m.insert("mpris:length".to_string(), MetaValue::Int64(3_000_000));
    m
}

#[test]
fn refresh_reads_every_property() {
    let mut c = connected();
    let id = c.subscribe_state_changes();
    let reads = PlayerReads {
        playback_status: Some("Playing".to_string()),
        metadata: Some(meta()),
        volume: Some(250_000),
        shuffle: Some(true),
        loop_status: Some("Playlist".to_string()),
        position_us: Some(61_500_000),
    };
    c.apply_refresh(&reads);
    let s = c.get_state();
    assert!(s.is_playing && s.shuffle);
    assert_eq!(s.position_ms, 61_500);
    assert_eq!(s.duration_ms, 3000);
    assert_eq!(s.volume, 250_000);
    assert_eq!(s.repeat, RepeatMode::Playlist);
    let t = s.track.expect("track");
    assert_eq!((t.title.as_str(), t.artist.as_str()), ("Song A", "Artist B"));
    assert!(c.next_state_change(id).is_some());
}

#[test]
fn refresh_defaults_failed_reads() {
    let mut c = connected();
    c.apply_shuffle(true);
    let reads = PlayerReads {
        playback_status: None,
        metadata: None,
        volume: None,
        shuffle: None,
        loop_status: None,
        position_us: None,
    };
    c.apply_refresh(&reads);
    let s = c.get_state();
    assert!(!s.is_playing && !s.shuffle);
    assert_eq!((s.position_ms, s.duration_ms), (0, 0));
    assert_eq!(s.volume, VOLUME_FULL_SCALE);
    assert_eq!(s.repeat, RepeatMode::Off);
    assert!(s.track.is_none());
}

#[test]
fn change_notifications_update_the_snapshot() {
    let mut c = connected();
    let id = c.subscribe_state_changes();
    c.apply_volume(7);
    c.apply_status_change("Playing");
    assert!(c.get_state().is_playing);
    c.apply_metadata_change(&meta());
    let s = c.get_state();
    assert_eq!(s.duration_ms, 3000);
    assert_eq!(s.track.as_ref().unwrap().title, "Song A");
    assert_eq!(s.volume, 7);
    c.apply_metadata_change(&Metadata::new());
    assert!(c.get_state().track.is_none());
    assert_eq!(c.get_state().duration_ms, 0);
    assert_eq!(c.pending_state_changes(id), 4);
}

#[test]
fn connect_schedule_backs_off_exponentially() {
    let (mut r, a) = ConnectRetry::standard();
    assert!(matches!(a, ConnectAction::Attempt { delay_ms: 0 }));
    let a = r.step(Err(MprisError::PlayerNotFound));
    assert!(matches!(a, ConnectAction::Attempt { delay_ms: 1000 }));
    let a = r.step(Err(MprisError::PlayerNotFound));
    assert!(matches!(a, ConnectAction::Attempt { delay_ms: 2000 }));
    let a = r.step(Err(MprisError::ConnectionFailed("no bus".to_string())));
    match a {
        ConnectAction::Finish(Err(e)) => assert_eq!(e, MprisError::ConnectionFailed("no bus".to_string())),
        other => panic!("unexpected {:?}", other),
    }
}

#[test]
fn connect_stops_at_first_success() {
    let (mut r, _) = ConnectRetry::standard();
    r.step(Err(MprisError::PlayerNotFound));
    assert!(matches!(r.step(Ok(())), ConnectAction::Finish(Ok(()))));
    let (_, a) = ConnectRetry::new(0, 1000);
    assert!(matches!(a, ConnectAction::Finish(Err(MprisError::NotConnected))));
    let (mut r, _) = ConnectRetry::new(5, 10);
    let delays: Vec<u64> = (0..4)
        .map(|_| match r.step(Err(MprisError::PlayerNotFound)) {
            ConnectAction::Attempt { delay_ms } => delay_ms,
            other => panic!("unexpected {:?}", other),
        })
        .collect();
    assert_eq!(delays, vec![10, 20, 40, 80]);
}

#[test]
fn feed_and_status_slot_directly() {
    let mut f = SnapshotFeed::new();
    let id = f.subscribe();
    f.publish(&PlaybackState::default());
    assert_eq!(f.pending(id), 1);
    assert!(f.recv(id).is_some());
    assert!(f.recv(id).is_none());

    let mut slot = StatusSlot::new(SpotifydStatus::default());
    let w = slot.subscribe();
    assert!(!slot.has_changed(w));
    let up = SpotifydStatus { running: true, pid: Some(3), authenticated: true };
    slot.send(up);
    slot.send(up);
    assert!(slot.has_changed(w));
    assert_eq!(slot.mark_seen(w), up);
    assert!(!slot.has_changed(w));
    assert_eq!(slot.get(), up);
}
