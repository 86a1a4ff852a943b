use vstd::prelude::*;
use vstd::string::{StringExecFns, StringSliceAdditionalSpecFns};
use vstd::utf8::encode_utf8;

use crate::bus::{any_has_prefix, check_dbus_responsive, daemon_prefix, name_views};
use crate::feed::{StatusSlot, StatusSlotView};
use crate::process::{
    chosen_binary,
    daemon_args,
    find_spotifyd_binary,
    spawn_args,
    stat_alive,
    stat_reports_alive,
    BinaryProbe,
};
use crate::metadata::opt_string_view;
use crate::types::{copy_opt_string, SpotifydConfig, SpotifydStartResult, SpotifydStatus};

verus! {

/// Pause after killing every stray daemon before looking for stragglers, in ms.
pub const KILL_ALL_SETTLE_MS: u64 = 300;

/// Pause after killing stragglers, in ms.
pub const STRAGGLER_SETTLE_MS: u64 = 500;

/// Pause between spawning the daemon and checking that it still runs, in ms.
pub const SPAWN_SETTLE_MS: u64 = 1500;

pub ghost struct SupervisorView {
    pub spawned_pid: Option<u32>,
    pub adopted_pid: Option<u32>,
    pub status: StatusSlotView,
    pub config: SpotifydConfig,
}

impl SupervisorView {
    /// The tracked process: the one spawned here, else the adopted one.
    pub open spec fn tracked_pid(self) -> Option<u32> {
        if self.spawned_pid is Some {
            self.spawned_pid
        } else {
            self.adopted_pid
        }
    }

    /// At most one of the two identities is set.
    pub open spec fn wf(self) -> bool {
        !(self.spawned_pid is Some && self.adopted_pid is Some)
    }

    pub open spec fn cleared(self) -> SupervisorView {
        SupervisorView { spawned_pid: None, adopted_pid: None, ..self }
    }

    pub open spec fn published(self, v: SpotifydStatus) -> SupervisorView {
        SupervisorView {
            status: StatusSlotView {
                value: v,
                unseen: Seq::new(self.status.unseen.len(), |i: int| true),
            },
            ..self
        }
    }

    /// After adopting `pid`: tracked as adopted, status says it serves.
    pub open spec fn adopted(self, pid: u32) -> SupervisorView {
        SupervisorView {
            spawned_pid: None,
            adopted_pid: Some(pid),
            ..self
        }.published(SpotifydStatus::serving(pid))
    }

    /// After spawning `pid`: tracked as spawned here.
    pub open spec fn spawned(self, pid: u32) -> SupervisorView {
        SupervisorView { spawned_pid: Some(pid), adopted_pid: None, ..self }
    }

    /// After stopping: nothing tracked, status says stopped.
    pub open spec fn stopped(self) -> SupervisorView {
        self.cleared().published(SpotifydStatus::stopped())
    }
}

/// The daemon supervisor's state: which process it tracks, the status it publishes,
/// and its configuration. The operations that talk to the system are driven from
/// outside through [`StartRun`] and [`StopRun`].
pub struct SupervisorInner {
    spawned_child_pid: Option<u32>,
    adopted_pid: Option<u32>,
    status: StatusSlot,
    config: SpotifydConfig,
}

impl View for SupervisorInner {
    type V = SupervisorView;

    closed spec fn view(&self) -> SupervisorView {
        SupervisorView {
            spawned_pid: self.spawned_child_pid,
            adopted_pid: self.adopted_pid,
            status: self.status@,
            config: self.config,
        }
    }
}

/// A process is alive by the stat record read for it.
pub open spec fn alive_by_stat(stat: Option<&str>) -> bool {
    stat_alive(
        match stat {
            Some(s) => Some(s.spec_bytes()),
            None => None,
        },
    )
}

/// The tracked process exists and its stat record `stat` shows it alive.
pub open spec fn tracked_alive(s: SupervisorView, stat: Option<&str>) -> bool {
    s.tracked_pid() is Some && alive_by_stat(stat)
}

/// The tracked process is alive and the daemon's name is registered on the bus.
pub open spec fn tracked_healthy(s: SupervisorView, stat: Option<&str>, names: Seq<String>) -> bool {
    tracked_alive(s, stat) && any_has_prefix(names, daemon_prefix())
}

/// Health is liveness of the tracked process together with the daemon's presence on
/// the bus; nothing else enters into it.
pub proof fn lemma_healthy_iff_alive_and_registered(
    s: SupervisorView,
    stat: Option<&str>,
    names: Seq<String>,
)
    ensures
        tracked_healthy(s, stat, names) <==> (tracked_alive(s, stat) && any_has_prefix(
            names,
            daemon_prefix(),
        )),
{
}

impl SupervisorInner {
    pub fn new(config: SpotifydConfig) -> (r: SupervisorInner)
        ensures
            r@.spawned_pid is None,
            r@.adopted_pid is None,
            r@.status.value == SpotifydStatus::stopped(),
            r@.status.unseen.len() == 0,
            r@.config == config,
            r@.wf(),
    {
        SupervisorInner {
            spawned_child_pid: None,
            adopted_pid: None,
            status: StatusSlot::new(SpotifydStatus { running: false, pid: None, authenticated: false }),
            config,
        }
    }

    /// The tracked process id: the spawned one, else the adopted one.
    pub fn get_tracked_pid(&self) -> (r: Option<u32>)
        ensures
            r == self@.tracked_pid(),
    {
        if self.spawned_child_pid.is_some() {
            self.spawned_child_pid
        } else {
            self.adopted_pid
        }
    }

    /// Whether the tracked process is alive, given its stat record (`None` when it
    /// could not be read).
    pub fn is_alive(&self, stat: Option<&str>) -> (r: bool)
        ensures
            r == tracked_alive(self@, stat),
    {
        match self.get_tracked_pid() {
            Some(_) => stat_reports_alive(stat),
            None => false,
        }
    }

    /// Whether the tracked process is alive and the daemon is registered on the bus,
    /// given its stat record and the registered bus names.
    pub fn is_healthy(&self, stat: Option<&str>, names: &Vec<String>) -> (r: bool)
        ensures
            r == tracked_healthy(self@, stat, names@),
    {
        self.is_alive(stat) && check_dbus_responsive(names)
    }

    /// Whether the daemon answers on the bus: some registered name has its prefix.
    pub fn check_dbus_responsive(&self, names: &Vec<String>) -> (r: bool)
        ensures
            r == any_has_prefix(names@, daemon_prefix()),
    {
        check_dbus_responsive(names)
    }

    /// The latest published status.
    pub fn get_status(&self) -> (r: SpotifydStatus)
        ensures
            r == self@.status.value,
    {
        self.status.get()
    }

    /// Registers a status watcher.
    pub fn subscribe_status(&mut self) -> (id: usize)
        ensures
            id == old(self)@.status.unseen.len(),
            final(self)@ == (SupervisorView {
                status: StatusSlotView {
                    unseen: old(self)@.status.unseen.push(false),
                    ..old(self)@.status
                },
                ..old(self)@
            }),
    {
        self.status.subscribe()
    }

    /// Whether watcher `id` has not yet seen the latest status.
    pub fn status_changed(&self, id: usize) -> (r: bool)
        ensures
            r == (id < self@.status.unseen.len() && self@.status.unseen[id as int]),
    {
        self.status.has_changed(id)
    }

    /// The latest status, now seen by watcher `id`.
    pub fn take_status(&mut self, id: usize) -> (r: SpotifydStatus)
        ensures
            r == old(self)@.status.value,
            final(self)@.spawned_pid == old(self)@.spawned_pid,
            final(self)@.adopted_pid == old(self)@.adopted_pid,
            final(self)@.config == old(self)@.config,
            final(self)@.status.value == old(self)@.status.value,
            id < old(self)@.status.unseen.len() ==> final(self)@.status.unseen == old(
                self,
            )@.status.unseen.update(id as int, false),
            id >= old(self)@.status.unseen.len() ==> final(self)@.status.unseen == old(
                self,
            )@.status.unseen,
    {
        self.status.mark_seen(id)
    }

    /// The configuration.
    pub fn config(&self) -> (r: &SpotifydConfig)
        ensures
            *r == self@.config,
    {
        &self.config
    }

    /// Tracks `pid` as an adopted process (termination rights not claimed) and
    /// publishes that it runs and answers on the bus.
    pub fn adopt(&mut self, pid: u32)
        ensures
            final(self)@ == old(self)@.adopted(pid),
    {
        self.spawned_child_pid = None;
        self.adopted_pid = Some(pid);
        self.status.send(SpotifydStatus { running: true, pid: Some(pid), authenticated: true });
    }

    fn clear_tracked(&mut self)
        ensures
            final(self)@ == old(self)@.cleared(),
    {
        self.spawned_child_pid = None;
        self.adopted_pid = None;
    }

    fn mark_stopped(&mut self)
        ensures
            final(self)@ == old(self)@.stopped(),
    {
        self.clear_tracked();
        self.status.send(SpotifydStatus { running: false, pid: None, authenticated: false });
    }
}

// ─────────────────────────────────────────────────────────────
// Starting or adopting the daemon
// ─────────────────────────────────────────────────────────────

/// Where a start-or-adopt sequence stands.
#[derive(Clone, Copy, Debug, PartialEq, Eq, Structural)]
pub enum StartPhase {
    /// Checking the health of the process already tracked.
    CheckTracked { pid: u32 },
    /// Looking for the daemon by its bus name.
    FindOnBus,
    /// Looking for the daemon in the process table.
    FindInTable,
    /// Checking the health of a daemon that was found.
    CheckFound { pid: u32 },
    /// Listing every daemon process, to kill them all before spawning.
    ListBeforeSpawn,
    KillingAll,
    /// Listing daemon processes that survived.
    ListStragglers,
    KillingStragglers,
    ResolveBinary,
    ConfirmBinary,
    Spawning,
    /// Waiting for the spawned process to settle.
    Settling { pid: u32 },
    /// Waiting for the spawned process to register on the bus.
    Registering { pid: u32 },
    Done,
}

/// The candidate locations of the executable, as found on the system.
#[derive(Clone, Debug)]
pub struct BinaryProbes {
    pub configured: Option<BinaryProbe>,
    pub from_env: Option<BinaryProbe>,
    pub downloaded: Option<BinaryProbe>,
}

/// What the caller observed while doing the last action.
#[derive(Debug)]
pub enum StartEvent {
    /// What a health probe saw: the probed process's stat record (`None` when it
    /// could not be read) and the names registered on the bus (`None` when they were
    /// not listed).
    Health { stat: Option<String>, names: Option<Vec<String>> },
    Found(Option<u32>),
    /// Every process running the daemon's executable.
    Listed(Vec<u32>),
    /// The action is complete.
    Completed,
    Binaries(BinaryProbes),
    BinaryExists(bool),
    /// The new process id, or what made the spawn fail.
    Spawned(Result<u32, String>),
    Alive(bool),
}

/// What the caller is to do next.
#[derive(Clone, Debug)]
pub enum StartAction {
    /// Read the stat record of `pid` and, if it shows the process alive, list the
    /// names registered on the bus.
    ProbeHealth { pid: u32 },
    /// Look up the daemon's process through its bus name.
    FindOnBus,
    /// Look up the first process running the daemon's executable.
    FindInTable,
    /// List every process running the daemon's executable.
    ListAll,
    /// Terminate each of `pids`, then pause `settle_ms`.
    TerminateAll { pids: Vec<u32>, settle_ms: u64 },
    /// Look for the executable at the configured path, the environment's path and
    /// the downloaded copy.
    ProbeBinaries { configured: Option<String> },
    /// Check that the executable exists: a path must name a file, a bare name must be
    /// found on the search path.
    CheckBinaryExists { path: String },
    /// Launch `binary` with `args` as a detached daemon.
    Spawn { binary: String, args: Vec<String> },
    /// Pause `settle_ms`, then check that `pid` is alive.
    SettleThenCheckAlive { pid: u32, settle_ms: u64 },
    /// Wait for the daemon to register on the bus; the outcome does not matter.
    AwaitRegistration,
    /// The sequence is over.
    Finish(SpotifydStartResult),
}

/// What a health probe's observations mean: the probed process is alive by its stat
/// record and the daemon's name is registered on the bus.
pub open spec fn probe_healthy(stat: Option<String>, names: Option<Vec<String>>) -> bool {
    &&& stat_alive(
        match stat {
            Some(s) => Some(encode_utf8(s@)),
            None => None,
        },
    )
    &&& names is Some
    &&& any_has_prefix(names->0@, daemon_prefix())
}

/// Decides a health probe from its observations.
pub fn health_of(stat: &Option<String>, names: &Option<Vec<String>>) -> (r: bool)
    ensures
        r == probe_healthy(*stat, *names),
{
    let alive = match stat {
        Some(s) => stat_reports_alive(Some(s.as_str())),
        None => stat_reports_alive(None),
    };
    alive && match names {
        Some(n) => check_dbus_responsive(n),
        None => false,
    }
}

pub ghost enum StartEventView {
    /// The probed process is alive and the daemon is registered on the bus.
    Health(bool),
    Found(Option<u32>),
    Listed(Seq<u32>),
    Completed,
    /// The executable that the probes select.
    Binaries(Seq<char>),
    BinaryExists(bool),
    Spawned(Result<u32, Seq<char>>),
    Alive(bool),
}

pub ghost enum StartActionView {
    ProbeHealth { pid: u32 },
    FindOnBus,
    FindInTable,
    ListAll,
    TerminateAll { pids: Seq<u32>, settle_ms: u64 },
    ProbeBinaries { configured: Option<Seq<char>> },
    CheckBinaryExists { path: Seq<char> },
    Spawn { binary: Seq<char>, args: Seq<Seq<char>> },
    SettleThenCheckAlive { pid: u32, settle_ms: u64 },
    AwaitRegistration,
    Finish { success: bool, message: Seq<char>, pid: Option<u32>, adopted: bool },
}

impl View for StartEvent {
    type V = StartEventView;

    open spec fn view(&self) -> StartEventView {
        match self {
            StartEvent::Health { stat, names } => StartEventView::Health(
                probe_healthy(*stat, *names),
            ),
            StartEvent::Found(p) => StartEventView::Found(*p),
            StartEvent::Listed(v) => StartEventView::Listed(v@),
            StartEvent::Completed => StartEventView::Completed,
            StartEvent::Binaries(b) => StartEventView::Binaries(
                chosen_binary(b.configured, b.from_env, b.downloaded),
            ),
            StartEvent::BinaryExists(e) => StartEventView::BinaryExists(*e),
            StartEvent::Spawned(r) => StartEventView::Spawned(
                match r {
                    Ok(p) => Ok(*p),
                    Err(m) => Err(m@),
                },
            ),
            StartEvent::Alive(a) => StartEventView::Alive(*a),
        }
    }
}

impl View for StartAction {
    type V = StartActionView;

    open spec fn view(&self) -> StartActionView {
        match self {
            StartAction::ProbeHealth { pid } => StartActionView::ProbeHealth { pid: *pid },
            StartAction::FindOnBus => StartActionView::FindOnBus,
            StartAction::FindInTable => StartActionView::FindInTable,
            StartAction::ListAll => StartActionView::ListAll,
            StartAction::TerminateAll { pids, settle_ms } => StartActionView::TerminateAll {
                pids: pids@,
                settle_ms: *settle_ms,
            },
            StartAction::ProbeBinaries { configured } => StartActionView::ProbeBinaries {
                configured: opt_string_view(*configured),
            },
            StartAction::CheckBinaryExists { path } => StartActionView::CheckBinaryExists {
                path: path@,
            },
            StartAction::Spawn { binary, args } => StartActionView::Spawn {
                binary: binary@,
                args: name_views(args@),
            },
            StartAction::SettleThenCheckAlive { pid, settle_ms } =>
                StartActionView::SettleThenCheckAlive { pid: *pid, settle_ms: *settle_ms },
            StartAction::AwaitRegistration => StartActionView::AwaitRegistration,
            StartAction::Finish(r) => StartActionView::Finish {
                success: r.success,
                message: r.message@,
                pid: r.pid,
                adopted: r.adopted,
            },
        }
    }
}

/// A start-or-adopt sequence in progress: its phase and the executable it chose.
pub struct StartRun {
    phase: StartPhase,
    binary: String,
}

pub ghost struct StartRunView {
    pub phase: StartPhase,
    pub binary: Seq<char>,
}

impl View for StartRun {
    type V = StartRunView;

    closed spec fn view(&self) -> StartRunView {
        StartRunView { phase: self.phase, binary: self.binary@ }
    }
}

/// The event kind that a phase waits for.
pub open spec fn start_accepts(p: StartPhase, e: StartEventView) -> bool {
    match (p, e) {
        (StartPhase::CheckTracked { .. }, StartEventView::Health(_)) => true,
        (StartPhase::FindOnBus, StartEventView::Found(_)) => true,
        (StartPhase::FindInTable, StartEventView::Found(_)) => true,
        (StartPhase::CheckFound { .. }, StartEventView::Health(_)) => true,
        (StartPhase::ListBeforeSpawn, StartEventView::Listed(_)) => true,
        (StartPhase::KillingAll, StartEventView::Completed) => true,
        (StartPhase::ListStragglers, StartEventView::Listed(_)) => true,
        (StartPhase::KillingStragglers, StartEventView::Completed) => true,
        (StartPhase::ResolveBinary, StartEventView::Binaries(_)) => true,
        (StartPhase::ConfirmBinary, StartEventView::BinaryExists(_)) => true,
        (StartPhase::Spawning, StartEventView::Spawned(_)) => true,
        (StartPhase::Settling { .. }, StartEventView::Alive(_)) => true,
        (StartPhase::Registering { .. }, StartEventView::Completed) => true,
        _ => false,
    }
}

/// The message of a failed start whose cause is `cause`.
pub open spec fn start_failure(cause: Seq<char>) -> Seq<char> {
    "Failed to start spotifyd: Process spawn failed: "@ + cause
}

pub open spec fn finish_fail(cause: Seq<char>) -> StartActionView {
    StartActionView::Finish {
        success: false,
        message: start_failure(cause),
        pid: None,
        adopted: false,
    }
}

/// How a start-or-adopt sequence begins: health-check the tracked process if there is
/// one, else look for a running daemon on the bus.
pub open spec fn start_begin(s: SupervisorView) -> (StartPhase, StartActionView) {
    match s.tracked_pid() {
        Some(pid) => (StartPhase::CheckTracked { pid }, StartActionView::ProbeHealth { pid }),
        None => (StartPhase::FindOnBus, StartActionView::FindOnBus),
    }
}

/// One step of a start-or-adopt sequence: from the supervisor's state, the phase, the
/// chosen executable and the observed event, the new state, phase, executable and
/// action.
pub open spec fn start_next(s: SupervisorView, r: StartRunView, e: StartEventView) -> (
    SupervisorView,
    StartRunView,
    StartActionView,
) {
    let goto = |p: StartPhase| StartRunView { phase: p, ..r };
    let done = StartRunView { phase: StartPhase::Done, ..r };
    match (r.phase, e) {
        (StartPhase::CheckTracked { pid }, StartEventView::Health(true)) => (
            s,
            done,
            StartActionView::Finish {
                success: true,
                message: "Spotifyd already running"@,
                pid: Some(pid),
                adopted: true,
            },
        ),
        (StartPhase::CheckTracked { .. }, StartEventView::Health(false)) => (
            s.cleared(),
            goto(StartPhase::FindOnBus),
            StartActionView::FindOnBus,
        ),
        (StartPhase::FindOnBus, StartEventView::Found(Some(pid))) => (
            s,
            goto(StartPhase::CheckFound { pid }),
            StartActionView::ProbeHealth { pid },
        ),
        (StartPhase::FindOnBus, StartEventView::Found(None)) => (
            s,
            goto(StartPhase::FindInTable),
            StartActionView::FindInTable,
        ),
        (StartPhase::FindInTable, StartEventView::Found(Some(pid))) => (
            s,
            goto(StartPhase::CheckFound { pid }),
            StartActionView::ProbeHealth { pid },
        ),
        (StartPhase::FindInTable, StartEventView::Found(None)) => (
            s,
            goto(StartPhase::ListBeforeSpawn),
            StartActionView::ListAll,
        ),
        (StartPhase::CheckFound { pid }, StartEventView::Health(true)) => (
            s.adopted(pid),
            done,
            StartActionView::Finish {
                success: true,
                message: "Adopted existing spotifyd instance (instant start!)"@,
                pid: Some(pid),
                adopted: true,
            },
        ),
        (StartPhase::CheckFound { .. }, StartEventView::Health(false)) => (
            s,
            goto(StartPhase::ListBeforeSpawn),
            StartActionView::ListAll,
        ),
        (StartPhase::ListBeforeSpawn, StartEventView::Listed(pids)) => if pids.len() > 0 {
            (
                s,
                goto(StartPhase::KillingAll),
                StartActionView::TerminateAll { pids, settle_ms: KILL_ALL_SETTLE_MS },
            )
        } else {
            (s, goto(StartPhase::ListStragglers), StartActionView::ListAll)
        },
        (StartPhase::KillingAll, StartEventView::Completed) => (
            s,
            goto(StartPhase::ListStragglers),
            StartActionView::ListAll,
        ),
        (StartPhase::ListStragglers, StartEventView::Listed(pids)) => if pids.len() > 0 {
            (
                s,
                goto(StartPhase::KillingStragglers),
                StartActionView::TerminateAll { pids, settle_ms: STRAGGLER_SETTLE_MS },
            )
        } else {
            (
                s,
                goto(StartPhase::ResolveBinary),
                StartActionView::ProbeBinaries {
                    configured: opt_string_view(s.config.config_path),
                },
            )
        },
        (StartPhase::KillingStragglers, StartEventView::Completed) => (
            s,
            goto(StartPhase::ResolveBinary),
            StartActionView::ProbeBinaries { configured: opt_string_view(s.config.config_path) },
        ),
        (StartPhase::ResolveBinary, StartEventView::Binaries(path)) => (
            s,
            StartRunView { phase: StartPhase::ConfirmBinary, binary: path },
            StartActionView::CheckBinaryExists { path },
        ),
        (StartPhase::ConfirmBinary, StartEventView::BinaryExists(exists)) => if !exists {
            (s, done, finish_fail("spotifyd binary not found at "@ + r.binary))
        } else {
            (
                s,
                goto(StartPhase::Spawning),
                StartActionView::Spawn {
                    binary: r.binary,
                    args: daemon_args(s.config.device_name),
                },
            )
        },
        (StartPhase::Spawning, StartEventView::Spawned(Ok(pid))) => (
            s.spawned(pid),
            goto(StartPhase::Settling { pid }),
            StartActionView::SettleThenCheckAlive { pid, settle_ms: SPAWN_SETTLE_MS },
        ),
        (StartPhase::Spawning, StartEventView::Spawned(Err(cause))) => (
            s,
            done,
            finish_fail(cause),
        ),
        (StartPhase::Settling { .. }, StartEventView::Alive(false)) => (
            SupervisorView { spawned_pid: None, ..s },
            done,
            finish_fail("spotifyd exited immediately after starting"@),
        ),
        (StartPhase::Settling { pid }, StartEventView::Alive(true)) => (
            s.published(SpotifydStatus::serving(pid)),
            goto(StartPhase::Registering { pid }),
            StartActionView::AwaitRegistration,
        ),
        (StartPhase::Registering { pid }, StartEventView::Completed) => (
            s,
            done,
            StartActionView::Finish {
                success: true,
                message: "Started fresh spotifyd instance"@,
                pid: Some(pid),
                adopted: false,
            },
        ),
        // Events that the phase does not wait for are refused by `start_accepts`.
        _ => (s, r, StartActionView::ListAll),
    }
}

fn failure(cause: &str) -> (r: SpotifydStartResult)
    ensures
        r.success == false,
        r.message@ == start_failure(cause@),
        r.pid is None,
        r.adopted == false,
{
    let mut message = String::from_str("Failed to start spotifyd: Process spawn failed: ");
    message.append(cause);
    SpotifydStartResult { success: false, message, pid: None, adopted: false }
}

impl StartRun {
    /// Whether `event` answers the action that this sequence is waiting on.
    pub fn accepts(&self, event: &StartEvent) -> (r: bool)
        ensures
            r == start_accepts(self@.phase, event@),
    {
        match (self.phase, event) {
            (StartPhase::CheckTracked { .. }, StartEvent::Health { .. }) => true,
            (StartPhase::FindOnBus, StartEvent::Found(_)) => true,
            (StartPhase::FindInTable, StartEvent::Found(_)) => true,
            (StartPhase::CheckFound { .. }, StartEvent::Health { .. }) => true,
            (StartPhase::ListBeforeSpawn, StartEvent::Listed(_)) => true,
            (StartPhase::KillingAll, StartEvent::Completed) => true,
            (StartPhase::ListStragglers, StartEvent::Listed(_)) => true,
            (StartPhase::KillingStragglers, StartEvent::Completed) => true,
            (StartPhase::ResolveBinary, StartEvent::Binaries(_)) => true,
            (StartPhase::ConfirmBinary, StartEvent::BinaryExists(_)) => true,
            (StartPhase::Spawning, StartEvent::Spawned(_)) => true,
            (StartPhase::Settling { .. }, StartEvent::Alive(_)) => true,
            (StartPhase::Registering { .. }, StartEvent::Completed) => true,
            _ => false,
        }
    }

    /// Whether the sequence is over.
    pub fn is_done(&self) -> (r: bool)
        ensures
            r == (self@.phase == StartPhase::Done),
    {
        self.phase == StartPhase::Done
    }
}

impl SupervisorInner {
    /// Begins a start-or-adopt sequence.
    pub fn start_or_adopt_begin(&self) -> (r: (StartRun, StartAction))
        ensures
            (r.0@.phase, r.1@) == start_begin(self@),
            r.0@.binary == Seq::<char>::empty(),
    {
        let run_at = |phase: StartPhase| -> (r: StartRun)
            ensures
                r@.phase == phase,
                r@.binary == Seq::<char>::empty(),
            { StartRun { phase, binary: String::new() } };
        match self.get_tracked_pid() {
            Some(pid) => (run_at(StartPhase::CheckTracked { pid }), StartAction::ProbeHealth { pid }),
            None => (run_at(StartPhase::FindOnBus), StartAction::FindOnBus),
        }
    }

    /// Advances a start-or-adopt sequence by the event that answered its last action.
    pub fn start_or_adopt_step(&mut self, run: &mut StartRun, event: StartEvent) -> (a: StartAction)
        requires
            old(self)@.wf(),
            start_accepts(old(run)@.phase, event@),
        ensures
            final(self)@.wf(),
            (final(self)@, final(run)@, a@) == start_next(old(self)@, old(run)@, event@),
    {
        let ghost e = event@;
        match (run.phase, event) {
            (StartPhase::CheckTracked { pid }, StartEvent::Health { stat, names }) => {
                if health_of(&stat, &names) {
                    run.phase = StartPhase::Done;
                    StartAction::Finish(
                        SpotifydStartResult {
                            success: true,
                            message: String::from_str("Spotifyd already running"),
                            pid: Some(pid),
                            adopted: true,
                        },
                    )
                } else {
                    self.clear_tracked();
                    run.phase = StartPhase::FindOnBus;
                    StartAction::FindOnBus
                }
            },
            (StartPhase::FindOnBus, StartEvent::Found(found)) => match found {
                Some(pid) => {
                    run.phase = StartPhase::CheckFound { pid };
                    StartAction::ProbeHealth { pid }
                },
                None => {
                    run.phase = StartPhase::FindInTable;
                    StartAction::FindInTable
                },
            },
            (StartPhase::FindInTable, StartEvent::Found(found)) => match found {
                Some(pid) => {
                    run.phase = StartPhase::CheckFound { pid };
                    StartAction::ProbeHealth { pid }
                },
                None => {
                    run.phase = StartPhase::ListBeforeSpawn;
                    StartAction::ListAll
                },
            },
            (StartPhase::CheckFound { pid }, StartEvent::Health { stat, names }) => {
                if health_of(&stat, &names) {
                    self.adopt(pid);
                    run.phase = StartPhase::Done;
                    StartAction::Finish(
                        SpotifydStartResult {
                            success: true,
                            message: String::from_str(
                                "Adopted existing spotifyd instance (instant start!)",
                            ),
                            pid: Some(pid),
                            adopted: true,
                        },
                    )
                } else {
                    run.phase = StartPhase::ListBeforeSpawn;
                    StartAction::ListAll
                }
            },
            (StartPhase::ListBeforeSpawn, StartEvent::Listed(pids)) => {
                if pids.len() > 0 {
                    run.phase = StartPhase::KillingAll;
                    StartAction::TerminateAll { pids, settle_ms: KILL_ALL_SETTLE_MS }
                } else {
                    run.phase = StartPhase::ListStragglers;
                    StartAction::ListAll
                }
            },
            (StartPhase::KillingAll, StartEvent::Completed) => {
                run.phase = StartPhase::ListStragglers;
                StartAction::ListAll
            },
            (StartPhase::ListStragglers, StartEvent::Listed(pids)) => {
                if pids.len() > 0 {
                    run.phase = StartPhase::KillingStragglers;
                    StartAction::TerminateAll { pids, settle_ms: STRAGGLER_SETTLE_MS }
                } else {
                    run.phase = StartPhase::ResolveBinary;
                    StartAction::ProbeBinaries { configured: copy_opt_string(&self.config.config_path) }
                }
            },
            (StartPhase::KillingStragglers, StartEvent::Completed) => {
                run.phase = StartPhase::ResolveBinary;
                StartAction::ProbeBinaries { configured: copy_opt_string(&self.config.config_path) }
            },
            (StartPhase::ResolveBinary, StartEvent::Binaries(probes)) => {
                let path = find_spotifyd_binary(
                    &probes.configured,
                    &probes.from_env,
                    &probes.downloaded,
                );
                run.binary = path.clone();
                run.phase = StartPhase::ConfirmBinary;
                StartAction::CheckBinaryExists { path }
            },
            (StartPhase::ConfirmBinary, StartEvent::BinaryExists(exists)) => {
                if !exists {
                    let mut cause = String::from_str("spotifyd binary not found at ");
                    cause.append(run.binary.as_str());
                    run.phase = StartPhase::Done;
                    StartAction::Finish(failure(cause.as_str()))
                } else {
                    run.phase = StartPhase::Spawning;
                    StartAction::Spawn {
                        binary: run.binary.clone(),
                        args: spawn_args(&self.config.device_name),
                    }
                }
            },
            (StartPhase::Spawning, StartEvent::Spawned(outcome)) => match outcome {
                Ok(pid) => {
                    self.spawned_child_pid = Some(pid);
                    self.adopted_pid = None;
                    run.phase = StartPhase::Settling { pid };
                    StartAction::SettleThenCheckAlive { pid, settle_ms: SPAWN_SETTLE_MS }
                },
                Err(cause) => {
                    run.phase = StartPhase::Done;
                    StartAction::Finish(failure(cause.as_str()))
                },
            },
            (StartPhase::Settling { pid }, StartEvent::Alive(alive)) => {
                if alive {
                    self.status.send(
                        SpotifydStatus { running: true, pid: Some(pid), authenticated: true },
                    );
                    run.phase = StartPhase::Registering { pid };
                    StartAction::AwaitRegistration
                } else {
                    self.spawned_child_pid = None;
                    run.phase = StartPhase::Done;
                    StartAction::Finish(failure("spotifyd exited immediately after starting"))
                }
            },
            (StartPhase::Registering { pid }, StartEvent::Completed) => {
                run.phase = StartPhase::Done;
                StartAction::Finish(
                    SpotifydStartResult {
                        success: true,
                        message: String::from_str("Started fresh spotifyd instance"),
                        pid: Some(pid),
                        adopted: false,
                    },
                )
            },
            _ => {
                assert(false);
                StartAction::ListAll
            },
        }
    }
}

// ─────────────────────────────────────────────────────────────
// Stopping the daemon
// ─────────────────────────────────────────────────────────────

/// Where a stop sequence stands.
#[derive(Clone, Copy, Debug, PartialEq, Eq, Structural)]
pub enum StopPhase {
    /// Looking for a daemon by its bus name (forced stop with nothing tracked).
    FindOnBus,
    /// Looking for a daemon in the process table.
    FindInTable,
    /// Waiting for the termination of a process to complete.
    Terminating,
    Done,
}

/// What the caller observed while doing the last action.
#[derive(Clone, Copy, Debug, PartialEq, Eq, Structural)]
pub enum StopEvent {
    Found(Option<u32>),
    /// The termination is complete, whatever its outcome.
    Completed,
}

/// What the caller is to do next.
#[derive(Clone, Copy, Debug, PartialEq, Eq, Structural)]
pub enum StopAction {
    /// Terminate `pid` by the termination policy.
    Terminate { pid: u32 },
    FindOnBus,
    FindInTable,
    /// The sequence is over; nothing is tracked and the status says stopped.
    Finish,
}

/// A stop sequence in progress.
#[derive(Clone, Copy, Debug)]
pub struct StopRun {
    phase: StopPhase,
}

impl View for StopRun {
    type V = StopPhase;

    closed spec fn view(&self) -> StopPhase {
        self.phase
    }
}

/// How a stop begins: a tracked process is terminated only if it was spawned here or
/// the stop is forced; with nothing tracked, a forced stop looks for any daemon. When
/// nothing is to be terminated the stop completes at once.
pub open spec fn stop_begin(s: SupervisorView, force: bool) -> (SupervisorView, StopPhase, StopAction) {
    match s.tracked_pid() {
        Some(pid) => if force || s.spawned_pid is Some {
            (s, StopPhase::Terminating, StopAction::Terminate { pid })
        } else {
            (s.stopped(), StopPhase::Done, StopAction::Finish)
        },
        None => if force {
            (s, StopPhase::FindOnBus, StopAction::FindOnBus)
        } else {
            (s.stopped(), StopPhase::Done, StopAction::Finish)
        },
    }
}

pub open spec fn stop_accepts(p: StopPhase, e: StopEvent) -> bool {
    match (p, e) {
        (StopPhase::FindOnBus, StopEvent::Found(_)) => true,
        (StopPhase::FindInTable, StopEvent::Found(_)) => true,
        (StopPhase::Terminating, StopEvent::Completed) => true,
        _ => false,
    }
}

/// One step of a stop sequence.
pub open spec fn stop_next(s: SupervisorView, p: StopPhase, e: StopEvent) -> (
    SupervisorView,
    StopPhase,
    StopAction,
) {
    match (p, e) {
        (StopPhase::FindOnBus, StopEvent::Found(Some(pid))) => (
            s,
            StopPhase::Terminating,
            StopAction::Terminate { pid },
        ),
        (StopPhase::FindOnBus, StopEvent::Found(None)) => (
            s,
            StopPhase::FindInTable,
            StopAction::FindInTable,
        ),
        (StopPhase::FindInTable, StopEvent::Found(Some(pid))) => (
            s,
            StopPhase::Terminating,
            StopAction::Terminate { pid },
        ),
        (StopPhase::FindInTable, StopEvent::Found(None)) => (
            s.stopped(),
            StopPhase::Done,
            StopAction::Finish,
        ),
        (StopPhase::Terminating, StopEvent::Completed) => (
            s.stopped(),
            StopPhase::Done,
            StopAction::Finish,
        ),
        // Events that the phase does not wait for are refused by `stop_accepts`.
        _ => (s, p, StopAction::Finish),
    }
}

impl StopRun {
    pub fn accepts(&self, event: StopEvent) -> (r: bool)
        ensures
            r == stop_accepts(self@, event),
    {
        match (self.phase, event) {
            (StopPhase::FindOnBus, StopEvent::Found(_)) => true,
            (StopPhase::FindInTable, StopEvent::Found(_)) => true,
            (StopPhase::Terminating, StopEvent::Completed) => true,
            _ => false,
        }
    }
}

impl SupervisorInner {
    /// Begins stopping the daemon.
    pub fn stop_begin(&mut self, force: bool) -> (r: (StopRun, StopAction))
        requires
            old(self)@.wf(),
        ensures
            final(self)@.wf(),
            (final(self)@, r.0@, r.1) == stop_begin(old(self)@, force),
    {
        match self.get_tracked_pid() {
            Some(pid) => {
                if force || self.spawned_child_pid.is_some() {
                    (StopRun { phase: StopPhase::Terminating }, StopAction::Terminate { pid })
                } else {
                    self.mark_stopped();
                    (StopRun { phase: StopPhase::Done }, StopAction::Finish)
                }
            },
            None => {
                if force {
                    (StopRun { phase: StopPhase::FindOnBus }, StopAction::FindOnBus)
                } else {
                    self.mark_stopped();
                    (StopRun { phase: StopPhase::Done }, StopAction::Finish)
                }
            },
        }
    }

    /// Advances a stop sequence by the event that answered its last action.
    pub fn stop_step(&mut self, run: &mut StopRun, event: StopEvent) -> (a: StopAction)
        requires
            old(self)@.wf(),
            stop_accepts(old(run)@, event),
        ensures
            final(self)@.wf(),
            (final(self)@, final(run)@, a) == stop_next(old(self)@, old(run)@, event),
    {
        match (run.phase, event) {
            (StopPhase::FindOnBus, StopEvent::Found(Some(pid))) => {
                run.phase = StopPhase::Terminating;
                StopAction::Terminate { pid }
            },
            (StopPhase::FindOnBus, StopEvent::Found(None)) => {
                run.phase = StopPhase::FindInTable;
                StopAction::FindInTable
            },
            (StopPhase::FindInTable, StopEvent::Found(Some(pid))) => {
                run.phase = StopPhase::Terminating;
                StopAction::Terminate { pid }
            },
            _ => {
                self.mark_stopped();
                run.phase = StopPhase::Done;
                StopAction::Finish
            },
        }
    }
}

// ─────────────────────────────────────────────────────────────
// Waiting for the daemon to register on the bus
// ─────────────────────────────────────────────────────────────

/// Looks at the bus before the wait for registration gives up.
pub const REGISTRATION_ATTEMPTS: u32 = 30;

/// Pause between two looks at the bus, in milliseconds.
pub const REGISTRATION_POLL_MS: u64 = 100;

/// What the caller is to do after one look at the bus.
#[derive(Clone, Copy, Debug, PartialEq, Eq, Structural)]
pub enum RegistrationStep {
    Registered,
    /// Wait `ms`, then look again.
    RetryAfter { ms: u64 },
    /// The daemon did not register in time, or the bus could not be read.
    TimedOut,
}

/// Polling the bus, a bounded number of times, for the daemon's name.
#[derive(Clone, Copy, Debug)]
pub struct RegistrationWait {
    attempts: u32,
}

impl View for RegistrationWait {
    type V = u32;

    /// Looks made so far.
    closed spec fn view(&self) -> u32 {
        self.attempts
    }
}

impl RegistrationWait {
    pub fn new() -> (r: RegistrationWait)
        ensures
            r@ == 0,
    {
        RegistrationWait { attempts: 0 }
    }

    /// Takes the names registered on the bus, `None` when they could not be listed.
    pub fn observe(&mut self, names: Option<&Vec<String>>) -> (r: RegistrationStep)
        requires
            old(self)@ < REGISTRATION_ATTEMPTS,
        ensures
            names is None ==> r == RegistrationStep::TimedOut,
            names is Some && any_has_prefix(names->0@, daemon_prefix()) ==> r
                == RegistrationStep::Registered,
            names is Some && !any_has_prefix(names->0@, daemon_prefix()) ==> final(self)@ == old(
                self,
            )@ + 1 && (if final(self)@ < REGISTRATION_ATTEMPTS {
                r == (RegistrationStep::RetryAfter { ms: REGISTRATION_POLL_MS })
            } else {
                r == RegistrationStep::TimedOut
            }),
            final(self)@ < REGISTRATION_ATTEMPTS || r == RegistrationStep::TimedOut,
    {
        match names {
            None => RegistrationStep::TimedOut,
            Some(n) => {
                if check_dbus_responsive(n) {
                    RegistrationStep::Registered
                } else {
                    self.attempts = self.attempts + 1;
                    if self.attempts < REGISTRATION_ATTEMPTS {
                        RegistrationStep::RetryAfter { ms: REGISTRATION_POLL_MS }
                    } else {
                        RegistrationStep::TimedOut
                    }
                }
            },
        }
    }
}

// ─────────────────────────────────────────────────────────────
// Laws of the supervisor
// ─────────────────────────────────────────────────────────────

/// The tracked identity is never both spawned and adopted: every step of starting and
/// of stopping keeps at most one of the two set.
pub proof fn lemma_steps_keep_single_identity(
    s: SupervisorView,
    r: StartRunView,
    e: StartEventView,
    p: StopPhase,
    f: StopEvent,
    force: bool,
)
    requires
        s.wf(),
    ensures
        start_next(s, r, e).0.wf(),
        stop_begin(s, force).0.wf(),
        stop_next(s, p, f).0.wf(),
{
}

/// Starting while the tracked process is healthy is a no-op: the sequence only checks
/// that process, reports it as adopted under its own pid, spawns nothing and leaves the
/// state as it was, so every repetition answers the same.
pub proof fn lemma_start_with_healthy_tracked_is_idempotent(s: SupervisorView, r: StartRunView, pid: u32)
    requires
        s.wf(),
        s.tracked_pid() == Some(pid),
        r.phase == (StartPhase::CheckTracked { pid }),
    ensures
        start_begin(s) == (StartPhase::CheckTracked { pid }, StartActionView::ProbeHealth { pid }),
        start_next(s, r, StartEventView::Health(true)).0 == s,
        start_next(s, r, StartEventView::Health(true)).1.phase == StartPhase::Done,
        start_next(s, r, StartEventView::Health(true)).2 == (StartActionView::Finish {
            success: true,
            message: "Spotifyd already running"@,
            pid: Some(pid),
            adopted: true,
        }),
{
}

/// With nothing tracked, a daemon that the bus names and that is healthy is adopted:
/// tracked as adopted, reported with `adopted: true`, and no spawn is asked for.
pub proof fn lemma_untracked_healthy_daemon_is_adopted(s: SupervisorView, b: Seq<char>, pid: u32)
    requires
        s.wf(),
        s.tracked_pid() is None,
    ensures
        start_begin(s) == (StartPhase::FindOnBus, StartActionView::FindOnBus),
        start_next(
            s,
            StartRunView { phase: StartPhase::FindOnBus, binary: b },
            StartEventView::Found(Some(pid)),
        ) == (s, StartRunView { phase: StartPhase::CheckFound { pid }, binary: b }, StartActionView::ProbeHealth { pid }),
        start_next(
            s,
            StartRunView { phase: StartPhase::CheckFound { pid }, binary: b },
            StartEventView::Health(true),
        ) == (s.adopted(pid), StartRunView { phase: StartPhase::Done, binary: b }, StartActionView::Finish {
            success: true,
            message: "Adopted existing spotifyd instance (instant start!)"@,
            pid: Some(pid),
            adopted: true,
        }),
        s.adopted(pid).adopted_pid == Some(pid),
        s.adopted(pid).spawned_pid is None,
{
}

/// With no daemon anywhere, the sequence goes on to spawn: nothing found on the bus or
/// in the process table, nothing to kill, and an existing executable lead to a spawn
/// of that executable.
pub proof fn lemma_no_daemon_leads_to_spawn(s: SupervisorView, b: Seq<char>, path: Seq<char>)
    requires
        s.wf(),
    ensures
        start_next(
            s,
            StartRunView { phase: StartPhase::FindOnBus, binary: b },
            StartEventView::Found(None),
        ).2 == StartActionView::FindInTable,
        start_next(
            s,
            StartRunView { phase: StartPhase::FindInTable, binary: b },
            StartEventView::Found(None),
        ).1.phase == StartPhase::ListBeforeSpawn,
        start_next(
            s,
            StartRunView { phase: StartPhase::ListBeforeSpawn, binary: b },
            StartEventView::Listed(Seq::empty()),
        ).1.phase == StartPhase::ListStragglers,
        start_next(
            s,
            StartRunView { phase: StartPhase::ListStragglers, binary: b },
            StartEventView::Listed(Seq::empty()),
        ).1.phase == StartPhase::ResolveBinary,
        start_next(
            s,
            StartRunView { phase: StartPhase::ResolveBinary, binary: b },
            StartEventView::Binaries(path),
        ).1 == (StartRunView { phase: StartPhase::ConfirmBinary, binary: path }),
        start_next(
            s,
            StartRunView { phase: StartPhase::ConfirmBinary, binary: path },
            StartEventView::BinaryExists(true),
        ).2 == (StartActionView::Spawn { binary: path, args: daemon_args(s.config.device_name) }),
{
}

/// A fresh spawn is reported only for a process found alive after it settled: a step
/// that finishes with success and `adopted: false` comes from the registration wait of
/// that pid, and that wait is entered only when the settle check found the pid alive.
pub proof fn lemma_spawn_reported_only_when_alive(s: SupervisorView, r: StartRunView, e: StartEventView)
    requires
        s.wf(),
        start_accepts(r.phase, e),
    ensures
        ({
            let a = start_next(s, r, e).2;
            a is Finish && a->Finish_success && !a->Finish_adopted ==> r.phase is Registering
                && a->Finish_pid == Some(r.phase->Registering_pid)
        }),
        start_next(s, r, e).1.phase is Registering ==> r.phase is Settling && e
            == StartEventView::Alive(true) && start_next(s, r, e).1.phase->Registering_pid
            == r.phase->Settling_pid,
{
}

/// Stopping without force while only an adopted process is tracked terminates nothing,
/// clears the tracked identity and publishes that the daemon is not running.
pub proof fn lemma_unforced_stop_leaves_adopted_running(s: SupervisorView, pid: u32)
    requires
        s.spawned_pid is None,
        s.adopted_pid == Some(pid),
    ensures
        stop_begin(s, false) == (s.stopped(), StopPhase::Done, StopAction::Finish),
        s.stopped().tracked_pid() is None,
        s.stopped().status.value == SpotifydStatus::stopped(),
        !s.stopped().status.value.running,
{
}

/// A missing executable fails the sequence before any spawn: whatever the chosen
/// executable, a report that it does not exist finishes with the failure that names
/// it, and the supervisor's state is left as it was.
pub proof fn lemma_missing_binary_fails_before_spawn(s: SupervisorView, b: Seq<char>)
    ensures
        start_next(
            s,
            StartRunView { phase: StartPhase::ConfirmBinary, binary: b },
            StartEventView::BinaryExists(false),
        ) == (s, StartRunView { phase: StartPhase::Done, binary: b }, finish_fail(
            "spotifyd binary not found at "@ + b,
        )),
{
}

/// In a start sequence a probed process counts as healthy exactly when its stat record
/// shows it alive and the daemon's name is registered on the bus.
pub proof fn lemma_probe_health_is_alive_and_registered(
    stat: Option<String>,
    names: Vec<String>,
)
    ensures
        (StartEvent::Health { stat: stat, names: Some(names) })@ == StartEventView::Health(
            stat_alive(
                match stat {
                    Some(t) => Some(encode_utf8(t@)),
                    None => None,
                },
            ) && any_has_prefix(names@, daemon_prefix()),
        ),
        (StartEvent::Health { stat: stat, names: None })@ == StartEventView::Health(false),
{
}

} // verus!
