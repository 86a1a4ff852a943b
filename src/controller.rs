use vstd::prelude::*;

use crate::error::MprisError;
use crate::feed::{lemma_published_reaches_subscriber, published_feed, FeedView, SnapshotFeed};
use crate::metadata::{
    duration_ms_of,
    is_playing_status,
    loop_status_for,
    loop_status_of,
    micros_to_millis,
    millis_of_micros,
    parse_metadata,
    parsed_duration_ms,
    parsed_track,
    opt_track_view,
    playing_status,
    repeat_from_loop_status,
    repeat_of_loop_status,
    MetaEntry,
    Metadata,
};
use crate::types::{PlaybackState, RepeatMode, VOLUME_FULL_SCALE};

verus! {

/// Largest seek, in milliseconds, whose offset in microseconds fits in an `i64`.
pub const MAX_SEEK_MS: i64 = 9_223_372_036_854_775;

pub ghost struct ControllerView {
    /// A connection to the player's service is established.
    pub connected: bool,
    /// The cached snapshot.
    pub state: PlaybackState,
    pub feed: FeedView,
}

/// The controller's cached state: whether it is connected, the latest snapshot, and the
/// feed that hands every new snapshot to subscribers. The protocol calls themselves are
/// made by the caller, which reports their results here.
pub struct ControllerInner {
    connected: bool,
    state: PlaybackState,
    feed: SnapshotFeed,
}

impl View for ControllerInner {
    type V = ControllerView;

    closed spec fn view(&self) -> ControllerView {
        ControllerView { connected: self.connected, state: self.state, feed: self.feed@ }
    }
}

/// What one full read of the player's properties returned; `None` where a read failed.
#[derive(Clone, Debug)]
pub struct PlayerReads {
    pub playback_status: Option<String>,
    pub metadata: Option<Metadata>,
    /// Volume in millionths of full scale.
    pub volume: Option<u32>,
    pub shuffle: Option<bool>,
    pub loop_status: Option<String>,
    /// Position in microseconds.
    pub position_us: Option<i64>,
}

/// The metadata that a full read gave; none when the read failed.
pub open spec fn reads_metadata(r: PlayerReads) -> Seq<MetaEntry> {
    match r.metadata {
        Some(m) => m@,
        None => Seq::empty(),
    }
}

/// `s` is the snapshot that a full read gives, each failed read replaced by its
/// default: not playing, no metadata, full volume, no shuffle, no repetition, position
/// zero.
pub open spec fn refreshed_from(s: PlaybackState, r: PlayerReads) -> bool {
    &&& s.is_playing == match r.playback_status {
        Some(st) => st@ == playing_status(),
        None => false,
    }
    &&& s.position_ms == match r.position_us {
        Some(p) => millis_of_micros(p as int),
        None => 0,
    }
    &&& s.duration_ms == parsed_duration_ms(reads_metadata(r))
    &&& s.volume == match r.volume {
        Some(v) => v,
        None => VOLUME_FULL_SCALE,
    }
    &&& s.shuffle == match r.shuffle {
        Some(b) => b,
        None => false,
    }
    &&& s.repeat == match r.loop_status {
        Some(l) => repeat_of_loop_status(l@),
        None => RepeatMode::Off,
    }
    &&& opt_track_view(s.track) == parsed_track(reads_metadata(r))
}

impl ControllerView {
    pub open spec fn wf(self) -> bool {
        &&& self.feed.queues.len() == self.feed.live.len()
        &&& forall|i: int|
            0 <= i < self.feed.queues.len() ==> (#[trigger] self.feed.queues[i]).len()
                <= crate::feed::SNAPSHOT_BACKLOG
    }

    /// The controller after `s` becomes the snapshot and is published.
    pub open spec fn with_published(self, s: PlaybackState) -> ControllerView {
        ControllerView { state: s, feed: published_feed(self.feed, s), ..self }
    }
}

impl ControllerInner {
    /// A controller that is not connected, holding the initial snapshot and no
    /// subscribers.
    pub fn new() -> (r: ControllerInner)
        ensures
            r@.wf(),
            !r@.connected,
            r@.state == PlaybackState::initial(),
            r@.feed.queues.len() == 0,
    {
        ControllerInner { connected: false, state: PlaybackState::new(), feed: SnapshotFeed::new() }
    }

    pub fn is_connected(&self) -> (r: bool)
        ensures
            r == self@.connected,
    {
        self.connected
    }

    /// Records that a connection to the player's service is established.
    pub fn mark_connected(&mut self)
        ensures
            final(self)@ == (ControllerView { connected: true, ..old(self)@ }),
    {
        self.connected = true;
    }

    /// The cached snapshot.
    pub fn get_state(&self) -> (r: PlaybackState)
        ensures
            r == self@.state,
    {
        self.state.copy()
    }

    /// Registers a subscriber; it sees the snapshots published from now on.
    pub fn subscribe_state_changes(&mut self) -> (id: usize)
        requires
            old(self)@.wf(),
        ensures
            final(self)@.wf(),
            id == old(self)@.feed.queues.len(),
            final(self)@.connected == old(self)@.connected,
            final(self)@.state == old(self)@.state,
            final(self)@.feed.queues == old(self)@.feed.queues.push(Seq::empty()),
            final(self)@.feed.live == old(self)@.feed.live.push(true),
    {
        self.feed.subscribe()
    }

    /// Removes a subscriber: it is no longer registered and its unread snapshots are
    /// dropped. An unknown `id` changes nothing.
    pub fn unsubscribe_state_changes(&mut self, id: usize)
        requires
            old(self)@.wf(),
        ensures
            final(self)@.wf(),
            final(self)@.connected == old(self)@.connected,
            final(self)@.state == old(self)@.state,
            id < old(self)@.feed.queues.len() ==> final(self)@.feed.queues == old(
                self,
            )@.feed.queues.update(id as int, Seq::empty()) && final(self)@.feed.live == old(
                self,
            )@.feed.live.update(id as int, false),
            id >= old(self)@.feed.queues.len() ==> final(self)@.feed == old(self)@.feed,
    {
        self.feed.unsubscribe(id)
    }

    /// Takes the oldest snapshot that subscriber `id` has not read.
    pub fn next_state_change(&mut self, id: usize) -> (r: Option<PlaybackState>)
        requires
            old(self)@.wf(),
        ensures
            final(self)@.wf(),
            final(self)@.connected == old(self)@.connected,
            final(self)@.state == old(self)@.state,
            final(self)@.feed.live == old(self)@.feed.live,
            if id < old(self)@.feed.queues.len() && old(self)@.feed.queues[id as int].len() > 0 {
                r == Some(old(self)@.feed.queues[id as int][0]) && final(self)@.feed.queues == old(
                    self,
                )@.feed.queues.update(id as int, old(self)@.feed.queues[id as int].drop_first())
            } else {
                r is None && final(self)@.feed == old(self)@.feed
            },
    {
        self.feed.recv(id)
    }

    /// Number of snapshots that subscriber `id` has not read.
    pub fn pending_state_changes(&self, id: usize) -> (r: usize)
        requires
            self@.wf(),
        ensures
            id < self@.feed.queues.len() ==> r == self@.feed.queues[id as int].len(),
            id >= self@.feed.queues.len() ==> r == 0,
    {
        self.feed.pending(id)
    }

    fn set_and_publish(&mut self, s: PlaybackState)
        requires
            old(self)@.wf(),
        ensures
            final(self)@ == old(self)@.with_published(s),
            final(self)@.wf(),
    {
        self.feed.publish(&s);
        self.state = s;
    }

    // ─────────────────────────────────────────────────────────
    // Commands: what to send, and what follows a call that succeeded
    // ─────────────────────────────────────────────────────────

    /// Every command needs an established connection.
    pub fn require_connection(&self) -> (r: Result<(), MprisError>)
        ensures
            self@.connected ==> r is Ok,
            !self@.connected ==> r == Err::<(), MprisError>(MprisError::NotConnected),
    {
        if self.connected {
            Ok(())
        } else {
            Err(MprisError::NotConnected)
        }
    }

    /// The offset to send for a seek of `offset_ms` milliseconds: the protocol counts
    /// microseconds.
    pub fn seek_offset(&self, offset_ms: i64) -> (r: Result<i64, MprisError>)
        requires
            -MAX_SEEK_MS <= offset_ms <= MAX_SEEK_MS,
        ensures
            self@.connected ==> r == Ok::<i64, MprisError>((offset_ms * 1000) as i64),
            !self@.connected ==> r == Err::<i64, MprisError>(MprisError::NotConnected),
    {
        if self.connected {
            Ok(offset_ms * 1000)
        } else {
            Err(MprisError::NotConnected)
        }
    }

    /// The loop-status value to send for `repeat`.
    pub fn repeat_request(&self, repeat: RepeatMode) -> (r: Result<String, MprisError>)
        ensures
            self@.connected ==> r is Ok && r->Ok_0@ == loop_status_of(repeat),
            !self@.connected ==> r == Err::<String, MprisError>(MprisError::NotConnected),
    {
        if self.connected {
            Ok(loop_status_for(repeat))
        } else {
            Err(MprisError::NotConnected)
        }
    }

    /// After a play/pause toggle, takes the playback status read back from the player
    /// and publishes the snapshot with the new playing flag; returns that flag.
    pub fn apply_play_pause(&mut self, status: &str) -> (r: bool)
        requires
            old(self)@.wf(),
        ensures
            final(self)@.wf(),
            r == (status@ == playing_status()),
            final(self)@ == old(self)@.with_published(
                PlaybackState { is_playing: r, ..old(self)@.state },
            ),
    {
        let playing = is_playing_status(status);
        let mut s = self.state.copy();
        s.is_playing = playing;
        self.set_and_publish(s);
        playing
    }

    /// After a skip or a seek, republishes the snapshot as it stands.
    pub fn apply_transport(&mut self)
        requires
            old(self)@.wf(),
        ensures
            final(self)@.wf(),
            final(self)@ == old(self)@.with_published(old(self)@.state),
    {
        let s = self.state.copy();
        self.set_and_publish(s);
    }

    /// After the volume was set, publishes the snapshot with that volume.
    pub fn apply_volume(&mut self, volume: u32)
        requires
            old(self)@.wf(),
        ensures
            final(self)@.wf(),
            final(self)@ == old(self)@.with_published(
                PlaybackState { volume, ..old(self)@.state },
            ),
    {
        let mut s = self.state.copy();
        s.volume = volume;
        self.set_and_publish(s);
    }

    /// After shuffle was set, publishes the snapshot with that setting.
    pub fn apply_shuffle(&mut self, shuffle: bool)
        requires
            old(self)@.wf(),
        ensures
            final(self)@.wf(),
            final(self)@ == old(self)@.with_published(
                PlaybackState { shuffle, ..old(self)@.state },
            ),
    {
        let mut s = self.state.copy();
        s.shuffle = shuffle;
        self.set_and_publish(s);
    }

    /// After the loop status was set, publishes the snapshot with that repeat mode.
    pub fn apply_repeat(&mut self, repeat: RepeatMode)
        requires
            old(self)@.wf(),
        ensures
            final(self)@.wf(),
            final(self)@ == old(self)@.with_published(
                PlaybackState { repeat, ..old(self)@.state },
            ),
    {
        let mut s = self.state.copy();
        s.repeat = repeat;
        self.set_and_publish(s);
    }

    /// Replaces the snapshot by one built from a full read of the player and publishes
    /// it; each failed read takes its default.
    pub fn apply_refresh(&mut self, reads: &PlayerReads)
        requires
            old(self)@.wf(),
        ensures
            final(self)@.wf(),
            final(self)@.connected == old(self)@.connected,
            refreshed_from(final(self)@.state, *reads),
            final(self)@ == old(self)@.with_published(final(self)@.state),
    {
        let empty = Metadata::new();
        let meta: &Metadata = match &reads.metadata {
            Some(m) => m,
            None => &empty,
        };
        let is_playing = match &reads.playback_status {
            Some(st) => is_playing_status(st.as_str()),
            None => false,
        };
        let position_ms = match reads.position_us {
            Some(p) => micros_to_millis(p),
            None => 0,
        };
        let repeat = match &reads.loop_status {
            Some(l) => repeat_from_loop_status(l.as_str()),
            None => RepeatMode::Off,
        };
        let s = PlaybackState {
            is_playing,
            position_ms,
            duration_ms: duration_ms_of(meta),
            volume: match reads.volume {
                Some(v) => v,
                None => VOLUME_FULL_SCALE,
            },
            shuffle: match reads.shuffle {
                Some(b) => b,
                None => false,
            },
            repeat,
            track: parse_metadata(meta),
        };
        self.set_and_publish(s);
    }

    /// A change notification of the playback status: publishes the snapshot with the
    /// new playing flag.
    pub fn apply_status_change(&mut self, status: &str)
        requires
            old(self)@.wf(),
        ensures
            final(self)@.wf(),
            final(self)@ == old(self)@.with_published(
                PlaybackState { is_playing: status@ == playing_status(), ..old(self)@.state },
            ),
    {
        let mut s = self.state.copy();
        s.is_playing = is_playing_status(status);
        self.set_and_publish(s);
    }

    /// A change notification of the metadata: publishes the snapshot with the track and
    /// duration that the new metadata gives.
    pub fn apply_metadata_change(&mut self, metadata: &Metadata)
        requires
            old(self)@.wf(),
        ensures
            final(self)@.wf(),
            opt_track_view(final(self)@.state.track) == parsed_track(metadata@),
            final(self)@.state.duration_ms == parsed_duration_ms(metadata@),
            final(self)@ == old(self)@.with_published(
                PlaybackState {
                    track: final(self)@.state.track,
                    duration_ms: final(self)@.state.duration_ms,
                    ..old(self)@.state
                },
            ),
    {
        let mut s = self.state.copy();
        s.track = parse_metadata(metadata);
        s.duration_ms = duration_ms_of(metadata);
        self.set_and_publish(s);
    }
}

/// A command that changes the player's state, once its protocol call has succeeded.
pub ghost enum CommandEffect {
    PlayPause { status: Seq<char> },
    Transport,
    Volume { volume: u32 },
    Shuffle { shuffle: bool },
    Repeat { repeat: RepeatMode },
}

/// The snapshot that a successful command leaves.
pub open spec fn snapshot_after(s: PlaybackState, c: CommandEffect) -> PlaybackState {
    match c {
        CommandEffect::PlayPause { status } => PlaybackState {
            is_playing: status == playing_status(),
            ..s
        },
        CommandEffect::Transport => s,
        CommandEffect::Volume { volume } => PlaybackState { volume, ..s },
        CommandEffect::Shuffle { shuffle } => PlaybackState { shuffle, ..s },
        CommandEffect::Repeat { repeat } => PlaybackState { repeat, ..s },
    }
}

/// Every successful command is seen by each subscriber that registered before it: the
/// subscriber's backlog then ends with the snapshot that the command left, which is
/// the controller's new snapshot.
pub proof fn lemma_command_reaches_prior_subscriber(c: ControllerView, cmd: CommandEffect, id: int)
    requires
        c.wf(),
        0 <= id < c.feed.live.len(),
        c.feed.live[id],
    ensures
        c.with_published(snapshot_after(c.state, cmd)).feed.queues[id].len() > 0,
        c.with_published(snapshot_after(c.state, cmd)).feed.queues[id].last() == c.with_published(
            snapshot_after(c.state, cmd),
        ).state,
{
    lemma_published_reaches_subscriber(c.feed, snapshot_after(c.state, cmd), id);
}

// ─────────────────────────────────────────────────────────────
// Connecting with retries
// ─────────────────────────────────────────────────────────────

/// Connection attempts before giving up.
pub const CONNECT_ATTEMPTS: u32 = 3;

/// Pause before the first retry, in milliseconds; each further retry waits twice as
/// long as the one before.
pub const CONNECT_INITIAL_DELAY_MS: u64 = 1000;

/// `initial` doubled `k` times.
pub open spec fn backoff_delay(initial: int, k: nat) -> int
    decreases k,
{
    if k == 0 {
        initial
    } else {
        2 * backoff_delay(initial, (k - 1) as nat)
    }
}

proof fn lemma_backoff_grows(initial: int, k: nat, m: nat)
    requires
        initial >= 0,
        k <= m,
    ensures
        0 <= backoff_delay(initial, k) <= backoff_delay(initial, m),
    decreases m,
{
    if k < m {
        lemma_backoff_grows(initial, k, (m - 1) as nat);
    } else if m > 0 {
        lemma_backoff_grows(initial, (m - 1) as nat, (m - 1) as nat);
    }
}

/// What the caller is to do next while connecting.
#[derive(Debug)]
pub enum ConnectAction {
    /// Wait `delay_ms`, then make one connection attempt.
    Attempt { delay_ms: u64 },
    /// Connecting is over, with this outcome.
    Finish(Result<(), MprisError>),
}

/// Connecting with a capped number of attempts and exponential backoff between them.
#[derive(Clone, Copy, Debug)]
pub struct ConnectRetry {
    attempt: u32,
    max_attempts: u32,
    initial_delay_ms: u64,
}

pub ghost struct ConnectRetryView {
    /// Attempts made so far.
    pub attempt: u32,
    pub max_attempts: u32,
    pub initial_delay_ms: u64,
}

impl View for ConnectRetry {
    type V = ConnectRetryView;

    closed spec fn view(&self) -> ConnectRetryView {
        ConnectRetryView {
            attempt: self.attempt,
            max_attempts: self.max_attempts,
            initial_delay_ms: self.initial_delay_ms,
        }
    }
}

impl ConnectRetryView {
    /// Every delay of the schedule fits in a `u64`.
    pub open spec fn delays_fit(self) -> bool {
        backoff_delay(self.initial_delay_ms as int, self.max_attempts as nat) <= u64::MAX
    }
}

impl ConnectRetry {
    /// Starts connecting: the first attempt is made at once. With no attempts allowed,
    /// connecting fails as not connected.
    pub fn new(max_attempts: u32, initial_delay_ms: u64) -> (r: (ConnectRetry, ConnectAction))
        requires
            backoff_delay(initial_delay_ms as int, max_attempts as nat) <= u64::MAX,
        ensures
            r.0@.attempt == 0,
            r.0@.max_attempts == max_attempts,
            r.0@.initial_delay_ms == initial_delay_ms,
            r.0@.delays_fit(),
            max_attempts > 0 ==> r.1 == (ConnectAction::Attempt { delay_ms: 0 }),
            max_attempts == 0 ==> r.1 == ConnectAction::Finish(Err(MprisError::NotConnected)),
    {
        let c = ConnectRetry { attempt: 0, max_attempts, initial_delay_ms };
        if max_attempts > 0 {
            (c, ConnectAction::Attempt { delay_ms: 0 })
        } else {
            (c, ConnectAction::Finish(Err(MprisError::NotConnected)))
        }
    }

    /// The schedule of the connection entry point: three attempts, the retries after
    /// one and then two seconds.
    pub fn standard() -> (r: (ConnectRetry, ConnectAction))
        ensures
            r.0@.attempt == 0,
            r.0@.max_attempts == CONNECT_ATTEMPTS,
            r.0@.initial_delay_ms == CONNECT_INITIAL_DELAY_MS,
            r.0@.delays_fit(),
            r.1 == (ConnectAction::Attempt { delay_ms: 0 }),
    {
        assert(backoff_delay(1000, 0) == 1000);
        assert(backoff_delay(1000, 1) == 2000);
        assert(backoff_delay(1000, 2) == 4000);
        assert(backoff_delay(1000, 3) == 8000);
        ConnectRetry::new(CONNECT_ATTEMPTS, CONNECT_INITIAL_DELAY_MS)
    }

    /// Takes the outcome of the last attempt. Success ends the connecting; a failure
    /// leads to another attempt after `initial_delay_ms` doubled once per earlier
    /// retry, or, once the attempts are used up, ends with that failure.
    pub fn step(&mut self, outcome: Result<(), MprisError>) -> (a: ConnectAction)
        requires
            old(self)@.attempt < old(self)@.max_attempts,
            old(self)@.delays_fit(),
        ensures
            final(self)@.max_attempts == old(self)@.max_attempts,
            final(self)@.initial_delay_ms == old(self)@.initial_delay_ms,
            final(self)@.delays_fit(),
            outcome is Ok ==> a == ConnectAction::Finish(Ok(())) && final(self)@ == old(self)@,
            outcome is Err ==> final(self)@.attempt == old(self)@.attempt + 1,
            outcome is Err && old(self)@.attempt + 1 < old(self)@.max_attempts ==> a == (
            ConnectAction::Attempt {
                delay_ms: backoff_delay(
                    old(self)@.initial_delay_ms as int,
                    old(self)@.attempt as nat,
                ) as u64,
            }),
            outcome is Err && old(self)@.attempt + 1 >= old(self)@.max_attempts ==> a
                == ConnectAction::Finish(outcome),
    {
        match outcome {
            Ok(()) => ConnectAction::Finish(Ok(())),
            Err(e) => {
                self.attempt = self.attempt + 1;
                if self.attempt < self.max_attempts {
                    let mut d: u64 = self.initial_delay_ms;
                    let mut k: u32 = 0;
                    while k + 1 < self.attempt
                        invariant
                            self.attempt < self.max_attempts,
                            backoff_delay(self.initial_delay_ms as int, self.max_attempts as nat)
                                <= u64::MAX,
                            k < self.attempt,
                            d as int == backoff_delay(self.initial_delay_ms as int, k as nat),
                        decreases self.attempt - k,
                    {
                        proof {
                            lemma_backoff_grows(
                                self.initial_delay_ms as int,
                                (k + 1) as nat,
                                self.max_attempts as nat,
                            );
                        }
                        d = d * 2;
                        k = k + 1;
                    }
                    ConnectAction::Attempt { delay_ms: d }
                } else {
                    ConnectAction::Finish(Err(e))
                }
            },
        }
    }
}

} // verus!
