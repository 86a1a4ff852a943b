use mpris_native::metadata::{
    duration_ms_of, extract_duration, is_playing_status, loop_status_for, micros_to_millis,
    parse_metadata, repeat_from_loop_status, MetaItem, MetaValue, Metadata,
};
use mpris_native::types::RepeatMode;

fn entry(key: &str, value: MetaValue) -> (String, MetaValue) {
    (key.to_string(), value)
}

fn meta(entries: Vec<(String, MetaValue)>) -> Metadata {
    let mut m = Metadata::new();
    for (k, v) in entries {
        m.insert(k, v);
    }
    m
}

fn s(v: &str) -> MetaValue {
    MetaValue::Str(v.to_string())
}

#[test]
fn metadata_without_title_has_no_track() {
    let m = meta(vec![
        entry("xesam:artist", MetaValue::Array(vec![MetaItem::Str("Artist B".to_string())])),
        entry("xesam:album", s("Album C")),
        entry("mpris:length", MetaValue::Int64(3_000_000)),
    ]);
    assert!(parse_metadata(&m).is_none());
    assert!(parse_metadata(&Metadata::new()).is_none());
}

#[test]
fn metadata_with_title_artist_and_length() {
    let m = meta(vec![
        entry("xesam:title", s("Song A")),
        entry("xesam:artist", MetaValue::Array(vec![MetaItem::Str("Artist B".to_string())])),
        entry("mpris:length", MetaValue::Int64(3_000_000)),
    ]);
    let t = parse_metadata(&m).expect("track");
    assert_eq!(t.title, "Song A");
    assert_eq!(t.artist, "Artist B");
    assert_eq!(t.album, "");
    assert_eq!(t.art_url, None);
    assert_eq!(t.uri, "");
    assert_eq!(duration_ms_of(&m), 3000);
}

#[test]
fn metadata_reads_every_field() {
    let m = meta(vec![
        entry("mpris:trackid", MetaValue::ObjectPath("/org/track/1".to_string())),
        entry("xesam:album", s("Album C")),
        entry("mpris:artUrl", s("https://img/1.jpg")),
        entry("xesam:title", s("Song A")),
        entry(
            "xesam:artist",
            MetaValue::Array(vec![
                MetaItem::Str("First".to_string()),
                MetaItem::Str("Second".to_string()),
            ]),
        ),
    ]);
    let t = parse_metadata(&m).expect("track");
    assert_eq!(t.artist, "First");
    assert_eq!(t.album, "Album C");
    assert_eq!(t.art_url.as_deref(), Some("https://img/1.jpg"));
    assert_eq!(t.uri, "/org/track/1");
    assert_eq!(duration_ms_of(&m), 0);
    assert_eq!(extract_duration(&m), None);
}

#[test]
fn metadata_ignores_values_of_the_wrong_type() {
    let m = meta(vec![
        entry("xesam:title", s("Song A")),
        entry("xesam:artist", MetaValue::Array(vec![MetaItem::Other, MetaItem::Str("X".to_string())])),
        entry("xesam:album", MetaValue::Int64(4)),
        entry("mpris:trackid", s("/not/a/path")),
        entry("mpris:length", s("3000000")),
    ]);
    let t = parse_metadata(&m).expect("track");
    assert_eq!(t.artist, "");
    assert_eq!(t.album, "");
    assert_eq!(t.uri, "");
    assert_eq!(extract_duration(&m), None);
    let untitled = meta(vec![entry("xesam:title", MetaValue::ObjectPath("/t".to_string()))]);
    assert!(parse_metadata(&untitled).is_none());
}

#[test]
fn metadata_insert_replaces_a_key() {
    let m = meta(vec![entry("xesam:title", s("One")), entry("xesam:album", s("A")), entry("xesam:title", s("Two"))]);
    assert_eq!(m.entries().len(), 2);
    assert_eq!(parse_metadata(&m).expect("track").title, "Two");
}

#[test]
fn microseconds_round_toward_zero() {
    assert_eq!(micros_to_millis(3_000_000), 3000);
    assert_eq!(micros_to_millis(1_999), 1);
    assert_eq!(micros_to_millis(999), 0);
    assert_eq!(micros_to_millis(-1_500), -1);
    assert_eq!(micros_to_millis(-999), 0);
    assert_eq!(micros_to_millis(i64::MIN), i64::MIN / 1000);
    assert_eq!(micros_to_millis(i64::MAX), i64::MAX / 1000);
    let m = meta(vec![entry("mpris:length", MetaValue::Int64(-2_500))]);
    assert_eq!(duration_ms_of(&m), -2);
}

#[test]
fn status_and_loop_values() {
    assert!(is_playing_status("Playing"));
    assert!(!is_playing_status("Paused"));
    assert!(!is_playing_status("playing"));
    assert!(!is_playing_status(""));
    assert_eq!(repeat_from_loop_status("Playlist"), RepeatMode::Playlist);
    assert_eq!(repeat_from_loop_status("Track"), RepeatMode::Track);
    assert_eq!(repeat_from_loop_status("None"), RepeatMode::Off);
    assert_eq!(repeat_from_loop_status("bogus"), RepeatMode::Off);
    assert_eq!(loop_status_for(RepeatMode::Off), "None");
    assert_eq!(loop_status_for(RepeatMode::Playlist), "Playlist");
    assert_eq!(loop_status_for(RepeatMode::Track), "Track");
}
