use vstd::prelude::*;

verus! {

/// Liveness checks after the graceful request before the forceful kill is sent.
pub const GRACE_POLLS: u32 = 20;

/// Pause before each liveness check, in milliseconds (the grace window is
/// `GRACE_POLLS * POLL_INTERVAL_MS`).
pub const POLL_INTERVAL_MS: u64 = 100;

/// Where a termination stands.
#[derive(Clone, Copy, Debug, PartialEq, Eq, Structural)]
pub enum TermPhase {
    /// Waiting to learn whether the graceful request was delivered.
    AwaitTerminateSent,
    /// Polling liveness in the grace window; `checks` probes have found it alive.
    Polling { checks: u32 },
    /// Waiting to learn whether the forceful kill was delivered.
    AwaitKillSent,
    /// One last liveness probe after the kill.
    FinalCheck,
    Finished { gone: bool },
}

/// What the caller is to do next.
#[derive(Clone, Copy, Debug, PartialEq, Eq, Structural)]
pub enum TermAction {
    /// Deliver the graceful terminate signal.
    SendTerminate,
    /// Wait `ms` milliseconds, then probe liveness.
    WaitThenProbe { ms: u64 },
    /// Deliver the forceful kill signal.
    SendKill,
    /// Done: whether the process is confirmed gone.
    Report { gone: bool },
}

/// What the caller observed while doing the last action.
#[derive(Clone, Copy, Debug, PartialEq, Eq, Structural)]
pub enum TermEvent {
    SignalDelivered(bool),
    Probed { alive: bool },
}

/// The action that a phase waits on.
pub open spec fn pending_action(p: TermPhase) -> TermAction {
    match p {
        TermPhase::AwaitTerminateSent => TermAction::SendTerminate,
        TermPhase::Polling { .. } => TermAction::WaitThenProbe { ms: POLL_INTERVAL_MS },
        TermPhase::AwaitKillSent => TermAction::SendKill,
        TermPhase::FinalCheck => TermAction::WaitThenProbe { ms: POLL_INTERVAL_MS },
        TermPhase::Finished { gone } => TermAction::Report { gone },
    }
}

/// The termination policy as a transition: graceful request, up to [`GRACE_POLLS`]
/// probes, then the forceful kill and one more probe. An event that does not answer
/// the phase's action changes nothing and asks for that action again.
pub open spec fn term_next(p: TermPhase, e: TermEvent) -> (TermPhase, TermAction) {
    match (p, e) {
        (TermPhase::AwaitTerminateSent, TermEvent::SignalDelivered(true)) => (
            TermPhase::Polling { checks: 0 },
            TermAction::WaitThenProbe { ms: POLL_INTERVAL_MS },
        ),
        (TermPhase::AwaitTerminateSent, TermEvent::SignalDelivered(false)) => (
            TermPhase::Finished { gone: false },
            TermAction::Report { gone: false },
        ),
        (TermPhase::Polling { checks }, TermEvent::Probed { alive: false }) => (
            TermPhase::Finished { gone: true },
            TermAction::Report { gone: true },
        ),
        (TermPhase::Polling { checks }, TermEvent::Probed { alive: true }) => if checks + 1
            < GRACE_POLLS {
            (
                TermPhase::Polling { checks: (checks + 1) as u32 },
                TermAction::WaitThenProbe { ms: POLL_INTERVAL_MS },
            )
        } else {
            (TermPhase::AwaitKillSent, TermAction::SendKill)
        },
        (TermPhase::AwaitKillSent, TermEvent::SignalDelivered(true)) => (
            TermPhase::FinalCheck,
            TermAction::WaitThenProbe { ms: POLL_INTERVAL_MS },
        ),
        (TermPhase::AwaitKillSent, TermEvent::SignalDelivered(false)) => (
            TermPhase::Finished { gone: false },
            TermAction::Report { gone: false },
        ),
        (TermPhase::FinalCheck, TermEvent::Probed { alive }) => (
            TermPhase::Finished { gone: !alive },
            TermAction::Report { gone: !alive },
        ),
        _ => (p, pending_action(p)),
    }
}

/// The phase reached from `p` after the events `es`, in order.
pub open spec fn term_run(p: TermPhase, es: Seq<TermEvent>) -> TermPhase
    decreases es.len(),
{
    if es.len() == 0 {
        p
    } else {
        term_next(term_run(p, es.drop_last()), es.last()).0
    }
}

/// Terminating one process: the decisions of the policy, with the signals, pauses and
/// probes left to the caller.
#[derive(Clone, Copy, Debug)]
pub struct Termination {
    pub pid: u32,
    pub phase: TermPhase,
}

impl Termination {
    /// Starts terminating `pid`; the first action is the graceful request.
    pub fn new(pid: u32) -> (r: (Termination, TermAction))
        ensures
            r.0.pid == pid,
            r.0.phase == TermPhase::AwaitTerminateSent,
            r.1 == TermAction::SendTerminate,
    {
        (Termination { pid, phase: TermPhase::AwaitTerminateSent }, TermAction::SendTerminate)
    }

    /// Takes what was observed and says what to do next.
    pub fn step(&mut self, event: TermEvent) -> (r: TermAction)
        ensures
            final(self).pid == old(self).pid,
            (final(self).phase, r) == term_next(old(self).phase, event),
    {
        let (p, a) = match (self.phase, event) {
            (TermPhase::AwaitTerminateSent, TermEvent::SignalDelivered(true)) => (
                TermPhase::Polling { checks: 0 },
                TermAction::WaitThenProbe { ms: POLL_INTERVAL_MS },
            ),
            (TermPhase::AwaitTerminateSent, TermEvent::SignalDelivered(false)) => (
                TermPhase::Finished { gone: false },
                TermAction::Report { gone: false },
            ),
            (TermPhase::Polling { checks: _ }, TermEvent::Probed { alive: false }) => (
                TermPhase::Finished { gone: true },
                TermAction::Report { gone: true },
            ),
            (TermPhase::Polling { checks }, TermEvent::Probed { alive: true }) => {
                if checks < GRACE_POLLS - 1 {
                    (
                        TermPhase::Polling { checks: checks + 1 },
                        TermAction::WaitThenProbe { ms: POLL_INTERVAL_MS },
                    )
                } else {
                    (TermPhase::AwaitKillSent, TermAction::SendKill)
                }
            },
            (TermPhase::AwaitKillSent, TermEvent::SignalDelivered(true)) => (
                TermPhase::FinalCheck,
                TermAction::WaitThenProbe { ms: POLL_INTERVAL_MS },
            ),
            (TermPhase::AwaitKillSent, TermEvent::SignalDelivered(false)) => (
                TermPhase::Finished { gone: false },
                TermAction::Report { gone: false },
            ),
            (TermPhase::FinalCheck, TermEvent::Probed { alive }) => (
                TermPhase::Finished { gone: !alive },
                TermAction::Report { gone: !alive },
            ),
            (p, _) => (p, Self::pending(p)),
        };
        self.phase = p;
        a
    }

    fn pending(p: TermPhase) -> (r: TermAction)
        ensures
            r == pending_action(p),
    {
        match p {
            TermPhase::AwaitTerminateSent => TermAction::SendTerminate,
            TermPhase::Polling { .. } => TermAction::WaitThenProbe { ms: POLL_INTERVAL_MS },
            TermPhase::AwaitKillSent => TermAction::SendKill,
            TermPhase::FinalCheck => TermAction::WaitThenProbe { ms: POLL_INTERVAL_MS },
            TermPhase::Finished { gone } => TermAction::Report { gone },
        }
    }
}

/// `n` liveness probes that each found the process alive.
pub open spec fn alive_probes(n: nat) -> Seq<TermEvent> {
    Seq::new(n, |i: int| TermEvent::Probed { alive: true })
}

proof fn lemma_polling_after_alive_probes(k: nat)
    requires
        k < GRACE_POLLS,
    ensures
        term_run(
            TermPhase::AwaitTerminateSent,
            seq![TermEvent::SignalDelivered(true)] + alive_probes(k),
        ) == (TermPhase::Polling { checks: k as u32 }),
    decreases k,
{
    let es = seq![TermEvent::SignalDelivered(true)] + alive_probes(k);
    assert(es.len() == k + 1);
    if k == 0 {
        assert(es.drop_last() =~= Seq::<TermEvent>::empty());
        assert(es.last() == TermEvent::SignalDelivered(true));
        assert(term_run(TermPhase::AwaitTerminateSent, es.drop_last())
            == TermPhase::AwaitTerminateSent);
    } else {
        assert(es.last() == (TermEvent::Probed { alive: true }));
        lemma_polling_after_alive_probes((k - 1) as nat);
        assert(es.drop_last() =~= seq![TermEvent::SignalDelivered(true)] + alive_probes(
            (k - 1) as nat,
        ));
    }
}

/// The events of a grace window in which the process ignores the graceful request:
/// the request is delivered, then all but the last probe find it alive.
pub open spec fn ignored_grace_window() -> Seq<TermEvent> {
    seq![TermEvent::SignalDelivered(true)] + alive_probes((GRACE_POLLS - 1) as nat)
}

/// A process that stays alive through every probe of the grace window is sent the
/// forceful kill: after the graceful request is delivered and [`GRACE_POLLS`] probes
/// find the process alive, the next action is the kill.
pub proof fn lemma_ignored_terminate_gets_killed()
    ensures
        term_next(
            term_run(TermPhase::AwaitTerminateSent, ignored_grace_window()),
            (TermEvent::Probed { alive: true }),
        ) == (TermPhase::AwaitKillSent, TermAction::SendKill),
{
    lemma_polling_after_alive_probes((GRACE_POLLS - 1) as nat);
}

/// A termination reports success only after a probe found the process gone: whatever
/// the events, reaching `Finished { gone: true }` from the start takes a probe that
/// answered "not alive".
pub proof fn lemma_success_needs_dead_probe(es: Seq<TermEvent>)
    requires
        term_run(TermPhase::AwaitTerminateSent, es) == (TermPhase::Finished { gone: true }),
    ensures
        exists|i: int| 0 <= i < es.len() && es[i] == (TermEvent::Probed { alive: false }),
    decreases es.len(),
{
    if es.len() == 0 {
    } else {
        let prev = term_run(TermPhase::AwaitTerminateSent, es.drop_last());
        if prev == (TermPhase::Finished { gone: true }) {
            lemma_success_needs_dead_probe(es.drop_last());
            let i = choose|i: int|
                0 <= i < es.drop_last().len() && es.drop_last()[i] == (TermEvent::Probed {
                    alive: false,
                });
            assert(es[i] == es.drop_last()[i]);
        } else {
            assert(es[es.len() - 1] == (TermEvent::Probed { alive: false }));
        }
    }
}

} // verus!
