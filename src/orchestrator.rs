use vstd::prelude::*;

use crate::connectivity::{ConnectivityMonitor, Transition};
use crate::entity::{EntityKind, SyncStatus};
use crate::store::{
    dirty_count, pull_applied, push_acknowledged, LocalStore, PullEffect, PushJob, RemoteRow,
};
use crate::sync_log::{entry, text_of, SyncAction, SyncLog};

verus! {

/// The first retry delay after a failed cycle, in seconds.
pub const BASE_RETRY_SECS: u64 = 5;

/// The longest retry delay, in seconds.
pub const MAX_RETRY_SECS: u64 = 300;

/// Why a whole cycle stopped.
#[derive(Clone, Copy, Debug, PartialEq, Eq, Structural)]
pub enum FailReason {
    /// The service refused the credentials.
    Auth,
    /// The local store could not be written.
    Storage,
}

#[derive(Clone, Copy, Debug, PartialEq, Eq, Structural)]
pub enum SyncPhase {
    Idle,
    Syncing,
    Failed(FailReason),
}

/// The answer to a request for a cycle.
#[derive(Clone, Copy, Debug, PartialEq, Eq, Structural)]
pub enum TriggerOutcome {
    /// A new cycle began.
    Started,
    /// A cycle is already running; the request joins it.
    Coalesced,
    /// The service is unreachable; nothing to do.
    Offline,
    /// The last cycle failed; only the retry timer restarts.
    BackingOff,
}

/// The service's answer to one upload.
pub enum PushOutcome {
    /// Accepted, with the server's timestamp.
    Accepted(u64),
    /// A network failure; the row is retried on a later cycle.
    NetworkError(String),
    /// The credentials were refused; the cycle stops.
    AuthError(String),
}

/// The phase and outcome after a trigger in `phase` with connectivity `online`.
pub open spec fn trigger_step(phase: SyncPhase, online: bool) -> (SyncPhase, TriggerOutcome) {
    match phase {
        SyncPhase::Syncing => (SyncPhase::Syncing, TriggerOutcome::Coalesced),
        SyncPhase::Failed(r) => (SyncPhase::Failed(r), TriggerOutcome::BackingOff),
        SyncPhase::Idle => if online {
            (SyncPhase::Syncing, TriggerOutcome::Started)
        } else {
            (SyncPhase::Idle, TriggerOutcome::Offline)
        },
    }
}

/// How many of a run of triggers, starting in `phase`, begin a cycle.
pub open spec fn started_count(phase: SyncPhase, onlines: Seq<bool>) -> nat
    decreases onlines.len(),
{
    if onlines.len() == 0 {
        0
    } else {
        let (next, outcome) = trigger_step(phase, onlines[0]);
        started_count(next, onlines.drop_first()) + if outcome == TriggerOutcome::Started {
            1nat
        } else {
            0nat
        }
    }
}

/// The retry delay after `n` consecutive failed cycles: doubling from the
/// base, capped at the maximum.
pub open spec fn retry_delay(n: nat) -> nat
    decreases n,
{
    if n == 0 {
        BASE_RETRY_SECS as nat
    } else {
        let d = 2 * retry_delay((n - 1) as nat);
        if d > MAX_RETRY_SECS {
            MAX_RETRY_SECS as nat
        } else {
            d
        }
    }
}

/// The log action of an upload.
pub open spec fn push_action(job_first_push: bool) -> SyncAction {
    if job_first_push {
        SyncAction::Create
    } else {
        SyncAction::Update
    }
}

/// The decisions of sync cycles: when one starts, how the answers of the
/// service are folded into the store and the log, and when to retry.
pub struct Orchestrator {
    pub phase: SyncPhase,
    pub consecutive_failures: u32,
    pub last_sync: Option<u64>,
}

proof fn lemma_retry_delay_bounded(n: nat)
    ensures
        BASE_RETRY_SECS <= retry_delay(n) <= MAX_RETRY_SECS,
    decreases n,
{
    if n > 0 {
        lemma_retry_delay_bounded((n - 1) as nat);
    }
}

proof fn lemma_retry_delay_saturates(n: nat, m: nat)
    requires
        retry_delay(n) == MAX_RETRY_SECS,
        n <= m,
    ensures
        retry_delay(m) == MAX_RETRY_SECS,
    decreases m - n,
{
    if n < m {
        lemma_retry_delay_saturates(n, (m - 1) as nat);
    }
}

impl Orchestrator {
    pub fn new() -> (o: Orchestrator)
        ensures
            o.phase == SyncPhase::Idle,
            o.consecutive_failures == 0,
            o.last_sync is None,
    {
        Orchestrator { phase: SyncPhase::Idle, consecutive_failures: 0, last_sync: None }
    }

    /// A request for a cycle, from the user, the timer or a reconnect. At most
    /// one cycle runs: a request while one runs is folded into it.
    pub fn trigger(&mut self, online: bool) -> (r: TriggerOutcome)
        ensures
            (final(self).phase, r) == trigger_step(old(self).phase, online),
            final(self).consecutive_failures == old(self).consecutive_failures,
            final(self).last_sync == old(self).last_sync,
    {
        match self.phase {
            SyncPhase::Syncing => TriggerOutcome::Coalesced,
            SyncPhase::Failed(_) => TriggerOutcome::BackingOff,
            SyncPhase::Idle => {
                if online {
                    self.phase = SyncPhase::Syncing;
                    TriggerOutcome::Started
                } else {
                    TriggerOutcome::Offline
                }
            },
        }
    }

    /// Edge-triggered sync: coming back online with dirty rows requests a
    /// cycle; any other change requests nothing.
    pub fn on_status_change(&mut self, t: Transition, pending: usize) -> (r: Option<
        TriggerOutcome,
    >)
        ensures
            t == Transition::WentOnline && pending > 0 ==> r == Some(
                trigger_step(old(self).phase, true).1,
            ) && final(self).phase == trigger_step(old(self).phase, true).0,
            !(t == Transition::WentOnline && pending > 0) ==> r is None && final(self).phase
                == old(self).phase,
            final(self).consecutive_failures == old(self).consecutive_failures,
            final(self).last_sync == old(self).last_sync,
    {
        if t == Transition::WentOnline && pending > 0 {
            Some(self.trigger(true))
        } else {
            None
        }
    }

    /// Folds the service's answer to one upload into the store and the log,
    /// the log entry first. Returns whether the cycle goes on: only a refused
    /// credential stops it, and moves the orchestrator to `Failed`.
    pub fn record_push(
        &mut self,
        store: &mut LocalStore,
        log: &mut SyncLog,
        job: &PushJob,
        outcome: PushOutcome,
    ) -> (proceed: bool)
        requires
            old(store).wf(),
            old(log).wf(),
        ensures
            final(store).wf(),
            final(log).wf(),
            match outcome {
                PushOutcome::Accepted(ts) => {
                    &&& proceed
                    &&& *final(self) == *old(self)
                    &&& exists|cleared: bool|
                        push_acknowledged(
                            old(store)@,
                            old(store).server_copies(),
                            final(store)@,
                            final(store).server_copies(),
                            job@,
                            ts,
                            cleared,
                        )
                    &&& final(log)@ == old(log)@.push(
                        entry(
                            old(log)@.len(),
                            job.kind,
                            job.id@,
                            push_action(job.first_push),
                            Some(ts),
                            None,
                        ),
                    )
                },
                PushOutcome::NetworkError(msg) => {
                    &&& proceed
                    &&& *final(self) == *old(self)
                    &&& final(store)@ == old(store)@
                    &&& final(store).server_copies() == old(store).server_copies()
                    &&& final(log)@ == old(log)@.push(
                        entry(
                            old(log)@.len(),
                            job.kind,
                            job.id@,
                            push_action(job.first_push),
                            None,
                            Some(msg@),
                        ),
                    )
                },
                PushOutcome::AuthError(msg) => {
                    &&& !proceed
                    &&& final(self).phase == SyncPhase::Failed(FailReason::Auth)
                    &&& final(self).consecutive_failures == if old(self).consecutive_failures
                        == u32::MAX {
                        u32::MAX
                    } else {
                        (old(self).consecutive_failures + 1) as u32
                    }
                    &&& final(self).last_sync == old(self).last_sync
                    &&& final(store)@ == old(store)@
                    &&& final(store).server_copies() == old(store).server_copies()
                    &&& final(log)@ == old(log)@.push(
                        entry(
                            old(log)@.len(),
                            job.kind,
                            job.id@,
                            push_action(job.first_push),
                            None,
                            Some(msg@),
                        ),
                    )
                },
            },
    {
        let action = if job.first_push {
            SyncAction::Create
        } else {
            SyncAction::Update
        };
        match outcome {
            PushOutcome::Accepted(ts) => {
                log.record(job.kind, job.id.clone(), action, Some(ts), None);
                let _ = store.acknowledge_push(job, ts);
                true
            },
            PushOutcome::NetworkError(msg) => {
                log.record(job.kind, job.id.clone(), action, None, Some(msg));
                true
            },
            PushOutcome::AuthError(msg) => {
                log.record(job.kind, job.id.clone(), action, None, Some(msg));
                self.fail_cycle(FailReason::Auth);
                false
            },
        }
    }

    /// Applies one pulled row under the conflict policy and logs what it did:
    /// a stored remote copy as a pull, a kept local edit as a conflict that
    /// the local side won; a stale copy of a clean row leaves no entry.
    pub fn apply_pull(
        &mut self,
        store: &mut LocalStore,
        log: &mut SyncLog,
        remote: RemoteRow,
        pulled_at: u64,
    ) -> (e: PullEffect)
        requires
            old(store).wf(),
            old(log).wf(),
        ensures
            final(store).wf(),
            final(log).wf(),
            *final(self) == *old(self),
            pull_applied(
                old(store)@,
                old(store).server_copies(),
                final(store)@,
                final(store).server_copies(),
                remote,
                pulled_at,
                e,
            ),
            e == PullEffect::Inserted || e == PullEffect::Overwritten ==> final(log)@ == old(
                log,
            )@.push(
                entry(old(log)@.len(), remote.kind, remote.id@, SyncAction::Pull, Some(pulled_at), None),
            ),
            e == PullEffect::ConflictLocalWins ==> final(log)@ == old(log)@.push(
                entry(
                    old(log)@.len(),
                    remote.kind,
                    remote.id@,
                    SyncAction::ConflictLocalWins,
                    None,
                    None,
                ),
            ),
            e == PullEffect::KeptLocal ==> final(log)@ == old(log)@,
    {
        let kind = remote.kind;
        let id = remote.id.clone();
        let e = store.apply_remote(remote, pulled_at);
        match e {
            PullEffect::Inserted | PullEffect::Overwritten => {
                log.record(kind, id, SyncAction::Pull, Some(pulled_at), None);
            },
            PullEffect::ConflictLocalWins => {
                log.record(kind, id, SyncAction::ConflictLocalWins, None, None);
            },
            PullEffect::KeptLocal => {},
        }
        e
    }

    /// The running cycle completed at time `now`.
    pub fn finish_cycle(&mut self, now: u64)
        ensures
            old(self).phase == SyncPhase::Syncing ==> *final(self) == (Orchestrator {
                phase: SyncPhase::Idle,
                consecutive_failures: 0,
                last_sync: Some(now),
            }),
            old(self).phase != SyncPhase::Syncing ==> *final(self) == *old(self),
    {
        if self.phase == SyncPhase::Syncing {
            self.phase = SyncPhase::Idle;
            self.consecutive_failures = 0;
            self.last_sync = Some(now);
        }
    }

    /// A cycle-level error (refused credentials, a failed local write) stops
    /// the running cycle.
    pub fn fail_cycle(&mut self, reason: FailReason)
        ensures
            final(self).phase == SyncPhase::Failed(reason),
            final(self).consecutive_failures == if old(self).consecutive_failures == u32::MAX {
                u32::MAX
            } else {
                (old(self).consecutive_failures + 1) as u32
            },
            final(self).last_sync == old(self).last_sync,
    {
        self.phase = SyncPhase::Failed(reason);
        if self.consecutive_failures < u32::MAX {
            self.consecutive_failures = self.consecutive_failures + 1;
        }
    }

    /// A manual cancel between two rows: the cycle ends without completing.
    pub fn cancel(&mut self)
        ensures
            old(self).phase == SyncPhase::Syncing ==> final(self).phase == SyncPhase::Idle,
            old(self).phase != SyncPhase::Syncing ==> final(self).phase == old(self).phase,
            final(self).consecutive_failures == old(self).consecutive_failures,
            final(self).last_sync == old(self).last_sync,
    {
        if self.phase == SyncPhase::Syncing {
            self.phase = SyncPhase::Idle;
        }
    }

    /// The retry timer fired: a failed orchestrator may start again.
    pub fn backoff_elapsed(&mut self)
        ensures
            old(self).phase is Failed ==> final(self).phase == SyncPhase::Idle,
            !(old(self).phase is Failed) ==> final(self).phase == old(self).phase,
            final(self).consecutive_failures == old(self).consecutive_failures,
            final(self).last_sync == old(self).last_sync,
    {
        if let SyncPhase::Failed(_) = self.phase {
            self.phase = SyncPhase::Idle;
        }
    }

    /// How long to wait before leaving `Failed`, in seconds.
    pub fn retry_delay_secs(&self) -> (d: u64)
        ensures
            d == retry_delay(self.consecutive_failures as nat),
    {
        let n = self.consecutive_failures;
        let mut d: u64 = BASE_RETRY_SECS;
        let mut k: u32 = 0;
        while k < n && d < MAX_RETRY_SECS
            invariant
                k <= n,
                d == retry_delay(k as nat),
            decreases n - k,
        {
            proof {
                lemma_retry_delay_bounded(k as nat);
            }
            d = if 2 * d > MAX_RETRY_SECS {
                MAX_RETRY_SECS
            } else {
                2 * d
            };
            k = k + 1;
        }
        proof {
            lemma_retry_delay_bounded(k as nat);
            if k < n {
                lemma_retry_delay_saturates(k as nat, n as nat);
            }
        }
        d
    }

    /// The status display: the cached connectivity, the exact number of dirty
    /// rows (capped at `i32::MAX`), and the time of the last completed cycle.
    pub fn sync_status(&self, monitor: &ConnectivityMonitor, store: &LocalStore) -> (s:
        SyncStatus)
        ensures
            s.is_online == monitor@,
            s.pending_changes == if dirty_count(store@, None) > i32::MAX {
                i32::MAX as int
            } else {
                dirty_count(store@, None) as int
            },
            s.last_sync == self.last_sync,
    {
        let n = store.pending_count(None);
        let pending: i32 = if n > i32::MAX as usize {
            i32::MAX
        } else {
            n as i32
        };
        SyncStatus {
            is_online: monitor.current_status(),
            pending_changes: pending,
            last_sync: self.last_sync,
        }
    }
}

/// However many triggers arrive, and whatever connectivity each sees, at most
/// one of them starts a cycle until the running cycle ends.
pub proof fn lemma_at_most_one_cycle(phase: SyncPhase, onlines: Seq<bool>)
    ensures
        started_count(phase, onlines) <= 1,
        phase == SyncPhase::Syncing ==> started_count(phase, onlines) == 0,
    decreases onlines.len(),
{
    if onlines.len() > 0 {
        let (next, outcome) = trigger_step(phase, onlines[0]);
        lemma_at_most_one_cycle(next, onlines.drop_first());
        if phase is Failed {
            lemma_failed_never_starts(phase, onlines.drop_first());
        }
        if phase == SyncPhase::Idle && !onlines[0] {
            lemma_at_most_one_cycle(SyncPhase::Idle, onlines.drop_first());
        }
    }
}

proof fn lemma_failed_never_starts(phase: SyncPhase, onlines: Seq<bool>)
    requires
        phase is Failed,
    ensures
        started_count(phase, onlines) == 0,
    decreases onlines.len(),
{
    if onlines.len() > 0 {
        lemma_failed_never_starts(phase, onlines.drop_first());
    }
}

} // verus!
