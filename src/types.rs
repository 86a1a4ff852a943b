use vstd::prelude::*;
use vstd::string::StringExecFns;

verus! {

/// Full scale of [`PlaybackState::volume`]: the volume is kept in millionths.
pub const VOLUME_FULL_SCALE: u32 = 1_000_000;

/// How the player repeats once the current item ends.
#[derive(Clone, Copy, Debug, PartialEq, Eq, Structural)]
pub enum RepeatMode {
    /// No repetition (the protocol's loop status `None`).
    Off,
    Playlist,
    Track,
}

impl Default for RepeatMode {
    fn default() -> (r: RepeatMode)
        ensures
            r == RepeatMode::Off,
    {
        RepeatMode::Off
    }
}

/// Copies an optional string, keeping its contents.
pub fn copy_opt_string(s: &Option<String>) -> (r: Option<String>)
    ensures
        r == *s,
{
    match s {
        Some(v) => Some(v.clone()),
        None => None,
    }
}

/// What is known of the item that is playing.
#[derive(Clone, Debug)]
pub struct TrackInfo {
    pub title: String,
    /// The first artist of the item's artist list; empty when there is none.
    pub artist: String,
    pub album: String,
    pub art_url: Option<String>,
    /// The item's track identifier; empty when the player gives none.
    pub uri: String,
}

impl TrackInfo {
    /// A copy with the same contents.
    pub fn copy(&self) -> (r: TrackInfo)
        ensures
            r == *self,
    {
        TrackInfo {
            title: self.title.clone(),
            artist: self.artist.clone(),
            album: self.album.clone(),
            art_url: copy_opt_string(&self.art_url),
            uri: self.uri.clone(),
        }
    }
}

/// Copies an optional track, keeping its contents.
pub fn copy_opt_track(t: &Option<TrackInfo>) -> (r: Option<TrackInfo>)
    ensures
        r == *t,
{
    match t {
        Some(v) => Some(v.copy()),
        None => None,
    }
}

/// An immutable picture of the player's state at one moment.
#[derive(Clone, Debug)]
pub struct PlaybackState {
    pub is_playing: bool,
    pub position_ms: i64,
    pub duration_ms: i64,
    /// Volume in millionths of full scale ([`VOLUME_FULL_SCALE`] is 1.0).
    pub volume: u32,
    pub shuffle: bool,
    pub repeat: RepeatMode,
    pub track: Option<TrackInfo>,
}

impl PlaybackState {
    /// The state a controller starts from: everything zero, off or absent.
    pub open spec fn initial() -> PlaybackState {
        PlaybackState {
            is_playing: false,
            position_ms: 0,
            duration_ms: 0,
            volume: 0,
            shuffle: false,
            repeat: RepeatMode::Off,
            track: None,
        }
    }

    pub fn new() -> (r: PlaybackState)
        ensures
            r == PlaybackState::initial(),
    {
        PlaybackState {
            is_playing: false,
            position_ms: 0,
            duration_ms: 0,
            volume: 0,
            shuffle: false,
            repeat: RepeatMode::Off,
            track: None,
        }
    }

    /// A copy with the same contents.
    pub fn copy(&self) -> (r: PlaybackState)
        ensures
            r == *self,
    {
        PlaybackState {
            is_playing: self.is_playing,
            position_ms: self.position_ms,
            duration_ms: self.duration_ms,
            volume: self.volume,
            shuffle: self.shuffle,
            repeat: self.repeat,
            track: copy_opt_track(&self.track),
        }
    }
}

impl Default for PlaybackState {
    fn default() -> (r: PlaybackState)
        ensures
            r == PlaybackState::initial(),
    {
        PlaybackState::new()
    }
}

/// Overall connection picture handed to the host.
#[derive(Clone, Debug)]
pub struct ConnectionStatus {
    pub mpris_connected: bool,
    pub spotifyd_running: bool,
    pub spotifyd_authenticated: bool,
    pub error: Option<String>,
}

/// The daemon's status as last published by the supervisor.
#[derive(Clone, Copy, Debug, PartialEq, Eq, Structural)]
pub struct SpotifydStatus {
    pub running: bool,
    pub pid: Option<u32>,
    pub authenticated: bool,
}

impl SpotifydStatus {
    pub open spec fn stopped() -> SpotifydStatus {
        SpotifydStatus { running: false, pid: None, authenticated: false }
    }

    /// The status of a daemon that runs as `pid` and answers on the bus.
    pub open spec fn serving(pid: u32) -> SpotifydStatus {
        SpotifydStatus { running: true, pid: Some(pid), authenticated: true }
    }
}

impl Default for SpotifydStatus {
    fn default() -> (r: SpotifydStatus)
        ensures
            r == SpotifydStatus::stopped(),
    {
        SpotifydStatus { running: false, pid: None, authenticated: false }
    }
}

/// Outcome of starting or adopting the daemon.
#[derive(Clone, Debug)]
pub struct SpotifydStartResult {
    pub success: bool,
    pub message: String,
    pub pid: Option<u32>,
    /// True if an existing process was adopted, false if a new one was spawned.
    pub adopted: bool,
}

/// Startup parameters of the supervisor.
#[derive(Clone, Debug)]
pub struct SpotifydConfig {
    /// Explicit path of the daemon's executable.
    pub config_path: Option<String>,
    pub username: Option<String>,
    pub password: Option<String>,
    /// Name under which the daemon announces itself as a playback device.
    pub device_name: Option<String>,
}

impl Default for SpotifydConfig {
    fn default() -> (r: SpotifydConfig)
        ensures
            r.config_path is None,
            r.username is None,
            r.password is None,
            r.device_name is Some,
            r.device_name->0@ == "spotify-tui"@,
    {
        SpotifydConfig {
            config_path: None,
            username: None,
            password: None,
            device_name: Some(String::from_str("spotify-tui")),
        }
    }
}

} // verus!
