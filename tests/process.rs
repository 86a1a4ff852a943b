use mpris_native::bus::{check_dbus_responsive, daemon_service_names, discover_player, has_prefix};
use mpris_native::error::MprisError;
use mpris_native::process::{
    find_spotifyd_binary, first_pid_in_listing, parse_pid_line, pids_in_listing,
    spawn_args, stat_reports_alive, BinaryProbe,
};

#[test]
fn stat_record_liveness() {
    assert!(stat_reports_alive(Some("1234 (spotifyd) S 1 1234 1234 0 -1")));
    assert!(!stat_reports_alive(Some("1234 (spotifyd) Z 1 1234 1234 0 -1")));
    assert!(!stat_reports_alive(None));
    assert!(stat_reports_alive(Some("garbage without parenthesis")));
    assert!(stat_reports_alive(Some("1234 (spotifyd)")));
    assert!(stat_reports_alive(Some("1234 (spotifyd) ")));
    assert!(stat_reports_alive(Some("")));
}

#[test]
fn stat_record_uses_last_parenthesis() {
    assert!(!stat_reports_alive(Some("77 (odd) name) Z 1")));
    assert!(stat_reports_alive(Some("77 (odd) Z name) R 1")));
}

#[test]
fn pid_lines() {
    assert_eq!(parse_pid_line("123"), Some(123));
    assert_eq!(parse_pid_line("  42\t"), Some(42));
    assert_eq!(parse_pid_line("+7"), Some(7));
    assert_eq!(parse_pid_line("4294967295"), Some(u32::MAX));
    assert_eq!(parse_pid_line("4294967296"), None);
    assert_eq!(parse_pid_line("99999999999"), None);
    assert_eq!(parse_pid_line(""), None);
    assert_eq!(parse_pid_line("+"), None);
    assert_eq!(parse_pid_line("-5"), None);
    assert_eq!(parse_pid_line("12a"), None);
    assert_eq!(parse_pid_line("1 2"), None);
    assert_eq!(parse_pid_line("\u{a0}15\u{3000}"), Some(15));
}

#[test]
fn listings_of_processes() {
    assert_eq!(pids_in_listing("123\n456\n"), vec![123, 456]);
    assert_eq!(pids_in_listing(" 42 \r\nabc\n+7\n99999999999\n8"), vec![42, 7, 8]);
    assert_eq!(pids_in_listing(""), Vec::<u32>::new());
    assert_eq!(first_pid_in_listing("31\n32\n"), Some(31));
    assert_eq!(first_pid_in_listing("x\n32\n"), None);
    assert_eq!(first_pid_in_listing(""), None);
}

fn probe(path: &str, exists: bool) -> Option<BinaryProbe> {
    Some(BinaryProbe { path: path.to_string(), exists })
}

#[test]
fn executable_resolution_order() {
    assert_eq!(find_spotifyd_binary(&probe("/c", true), &probe("/e", true), &probe("/d", true)), "/c");
    assert_eq!(find_spotifyd_binary(&probe("/c", false), &probe("/e", true), &probe("/d", true)), "/e");
    assert_eq!(find_spotifyd_binary(&None, &probe("/e", false), &probe("/d", true)), "/d");
    assert_eq!(find_spotifyd_binary(&probe("/c", false), &None, &probe("/d", false)), "spotifyd");
    assert_eq!(find_spotifyd_binary(&None, &None, &None), "spotifyd");
}

#[test]
fn daemon_arguments() {
    assert_eq!(spawn_args(&None), vec!["--no-daemon".to_string()]);
    assert_eq!(
        spawn_args(&Some("spotify-tui".to_string())),
        vec!["--no-daemon".to_string(), "--device-name".to_string(), "spotify-tui".to_string()]
    );
}

fn names(v: &[&str]) -> Vec<String> {
    v.iter().map(|s| s.to_string()).collect()
}

#[test]
fn bus_name_matching() {
    assert!(has_prefix("org.mpris.MediaPlayer2.spotifyd.instance1", "org.mpris.MediaPlayer2.spotifyd"));
    assert!(!has_prefix("org.mpris", "org.mpris.MediaPlayer2"));
    assert!(has_prefix("abc", ""));
    let ns = names(&[
        "org.freedesktop.DBus",
        "org.mpris.MediaPlayer2.vlc",
        "org.mpris.MediaPlayer2.spotifyd.instance9",
        "org.mpris.MediaPlayer2.spotifyd.instance10",
    ]);
    assert!(check_dbus_responsive(&ns));
    assert!(!check_dbus_responsive(&names(&["org.mpris.MediaPlayer2.vlc", "org.mpris.MediaPlayer2.spotify"])));
    assert!(!check_dbus_responsive(&Vec::new()));
    assert_eq!(
        daemon_service_names(&ns),
        names(&["org.mpris.MediaPlayer2.spotifyd.instance9", "org.mpris.MediaPlayer2.spotifyd.instance10"])
    );
}

#[test]
fn player_discovery_is_exclusive() {
    let ns = names(&["org.mpris.MediaPlayer2.vlc", "org.mpris.MediaPlayer2.spotify", "org.mpris.MediaPlayer2.spotifyd.i1"]);
    assert_eq!(discover_player(&ns), Ok("org.mpris.MediaPlayer2.spotifyd.i1".to_string()));
    assert_eq!(
        discover_player(&names(&["org.mpris.MediaPlayer2.spotify"])),
        Err(MprisError::PlayerNotFound)
    );
    assert_eq!(
        discover_player(&names(&["org.mpris.MediaPlayer2.vlc", "org.mpris.MediaPlayer2.rhythmbox"])),
        Err(MprisError::PlayerNotFound)
    );
    assert_eq!(discover_player(&Vec::new()), Err(MprisError::PlayerNotFound));
}
