use sashi::connectivity::{ConnectivityMonitor, ProbeOutcome, Transition};
use sashi::entity::{EntityKind, SyncStatus, Task};
use sashi::orchestrator::{FailReason, Orchestrator, PushOutcome, SyncPhase, TriggerOutcome};
use sashi::store::{LocalStore, PullEffect, RemoteRow};
use sashi::sync_log::{SyncAction, SyncLog};

fn id(s: &str) -> String {
    s.to_string()
}

fn remote(kind: EntityKind, key: &str, payload: &[u8], updated_at: u64) -> RemoteRow {
    RemoteRow {
        kind,
        id: id(key),
        payload: payload.to_vec(),
        created_at: 1,
        updated_at,
    }
}

fn conflicts(log: &SyncLog) -> usize {
    (0..log.len())
        .filter(|&i| log.entry(i).action == SyncAction::ConflictLocalWins)
        .count()
}

/// Runs the push half of a cycle for one kind, with the answers in order.
fn push_all(
    orch: &mut Orchestrator,
    store: &mut LocalStore,
    log: &mut SyncLog,
    kind: EntityKind,
    mut answer: impl FnMut(usize) -> PushOutcome,
) {
    let jobs = store.dirty_snapshot(kind);
    for (i, job) in jobs.iter().enumerate() {
        if !orch.record_push(store, log, job, answer(i)) {
            break;
        }
    }
}

#[test]
fn offline_create_then_reconnect_syncs() {
    let mut monitor = ConnectivityMonitor::new();
    let mut store = LocalStore::new();
    let mut log = SyncLog::new();
    let mut orch = Orchestrator::new();

    assert_eq!(monitor.apply_probe(ProbeOutcome::Unreachable), Transition::WentOffline);
    store.write_local(EntityKind::Task, id("t1"), b"buy milk".to_vec(), 100);
    let i = store.find(EntityKind::Task, &id("t1")).unwrap();
    assert!(store.row(i).is_dirty);
    assert_eq!(store.row(i).synced_at, None);
    assert_eq!(store.pending_count(None), 1);
    assert_eq!(orch.trigger(monitor.current_status()), TriggerOutcome::Offline);

    let t = monitor.apply_probe(ProbeOutcome::Responded(200));
    assert_eq!(t, Transition::WentOnline);
    let pending = store.pending_count(None);
    assert_eq!(orch.on_status_change(t, pending), Some(TriggerOutcome::Started));
    assert_eq!(orch.phase, SyncPhase::Syncing);

    push_all(&mut orch, &mut store, &mut log, EntityKind::Task, |_| PushOutcome::Accepted(150));
    orch.finish_cycle(160);

    assert!(!store.row(i).is_dirty);
    assert_eq!(store.row(i).synced_at, Some(150));
    assert_eq!(log.len(), 1);
    let e = log.entry(0);
    assert_eq!(e.action, SyncAction::Create);
    assert_eq!(e.synced_at, Some(150));
    assert_eq!(e.error, None);
    assert_eq!(e.entity_id, "t1");
    assert_eq!(store.pending_count(None), 0);
    assert_eq!(orch.phase, SyncPhase::Idle);
    assert_eq!(orch.last_sync, Some(160));
}

#[test]
fn dirty_local_edit_beats_newer_remote() {
    let mut store = LocalStore::new();
    let mut log = SyncLog::new();
    let mut orch = Orchestrator::new();
    // Task X was synced once, then edited offline at 10:00.
    let ten = 36_000;
    let ten_five = 36_300;
    orch.apply_pull(&mut store, &mut log, remote(EntityKind::Task, "x", b"v0", 1_000), 1_000);
    store.write_local(EntityKind::Task, id("x"), b"local".to_vec(), ten);
    let before_log = log.len();

    assert_eq!(orch.trigger(true), TriggerOutcome::Started);
    let e = orch.apply_pull(&mut store, &mut log, remote(EntityKind::Task, "x", b"remote", ten_five), ten_five + 1);
    assert_eq!(e, PullEffect::ConflictLocalWins);
    let i = store.find(EntityKind::Task, &id("x")).unwrap();
    assert_eq!(store.row(i).payload, b"local".to_vec());
    assert!(store.row(i).is_dirty);

    push_all(&mut orch, &mut store, &mut log, EntityKind::Task, |_| PushOutcome::Accepted(ten_five + 2));
    orch.finish_cycle(ten_five + 3);
    assert!(!store.row(i).is_dirty);
    assert_eq!(store.row(i).payload, b"local".to_vec());
    assert_eq!(conflicts(&log), 1);
    assert_eq!(log.entry(before_log).action, SyncAction::ConflictLocalWins);
    assert_eq!(log.entry(before_log + 1).action, SyncAction::Update);
}

#[test]
fn one_failed_push_among_five() {
    let mut store = LocalStore::new();
    let mut log = SyncLog::new();
    let mut orch = Orchestrator::new();
    for k in 0..5 {
        store.write_local(EntityKind::Task, format!("t{}", k), vec![k as u8], 10 + k as u64);
    }
    assert_eq!(store.pending_count(None), 5);
    assert_eq!(orch.trigger(true), TriggerOutcome::Started);
    push_all(&mut orch, &mut store, &mut log, EntityKind::Task, |i| {
        if i == 2 {
            PushOutcome::NetworkError(id("connection reset"))
        } else {
            PushOutcome::Accepted(50)
        }
    });
    orch.finish_cycle(60);
    for k in 0..5 {
        let i = store.find(EntityKind::Task, &format!("t{}", k)).unwrap();
        assert_eq!(store.row(i).is_dirty, k == 2);
    }
    assert_eq!(store.pending_count(None), 1);
    assert_eq!(log.len(), 5);
    let failed = log.entry(2);
    assert_eq!(failed.entity_id, "t2");
    assert_eq!(failed.error, Some(id("connection reset")));
    assert_eq!(failed.synced_at, None);
    assert_eq!(orch.phase, SyncPhase::Idle);
}

#[test]
fn auth_error_stops_cycle() {
    let mut store = LocalStore::new();
    let mut log = SyncLog::new();
    let mut orch = Orchestrator::new();
    for k in 0..3 {
        store.write_local(EntityKind::Project, format!("p{}", k), vec![1], 5);
    }
    orch.trigger(true);
    push_all(&mut orch, &mut store, &mut log, EntityKind::Project, |i| {
        if i == 0 {
            PushOutcome::AuthError(id("401"))
        } else {
            PushOutcome::Accepted(9)
        }
    });
    assert_eq!(orch.phase, SyncPhase::Failed(FailReason::Auth));
    assert_eq!(orch.consecutive_failures, 1);
    assert_eq!(log.len(), 1);
    assert_eq!(store.pending_count(Some(EntityKind::Project)), 3);
    assert_eq!(orch.trigger(true), TriggerOutcome::BackingOff);
    orch.backoff_elapsed();
    assert_eq!(orch.phase, SyncPhase::Idle);
    assert_eq!(orch.trigger(true), TriggerOutcome::Started);
}

#[test]
fn triggers_while_syncing_coalesce() {
    let mut orch = Orchestrator::new();
    assert_eq!(orch.trigger(true), TriggerOutcome::Started);
    for online in [true, false, true] {
        assert_eq!(orch.trigger(online), TriggerOutcome::Coalesced);
        assert_eq!(orch.phase, SyncPhase::Syncing);
    }
    orch.cancel();
    assert_eq!(orch.phase, SyncPhase::Idle);
    assert_eq!(orch.last_sync, None);
}

#[test]
fn conflict_policy_by_timestamps() {
    // Local newer or equal: local stays, whether dirty or clean.
    let mut store = LocalStore::new();
    let mut log = SyncLog::new();
    let mut orch = Orchestrator::new();
    orch.apply_pull(&mut store, &mut log, remote(EntityKind::Tag, "a", b"a1", 20), 21);
    assert_eq!(
        orch.apply_pull(&mut store, &mut log, remote(EntityKind::Tag, "a", b"a0", 20), 22),
        PullEffect::KeptLocal
    );
    assert_eq!(
        orch.apply_pull(&mut store, &mut log, remote(EntityKind::Tag, "a", b"old", 5), 22),
        PullEffect::KeptLocal
    );
    // Local older and clean: remote wins.
    assert_eq!(
        orch.apply_pull(&mut store, &mut log, remote(EntityKind::Tag, "a", b"a2", 30), 31),
        PullEffect::Overwritten
    );
    let i = store.find(EntityKind::Tag, &id("a")).unwrap();
    assert_eq!(store.row(i).payload, b"a2".to_vec());
    assert_eq!(store.row(i).updated_at, 30);
    assert_eq!(store.row(i).synced_at, Some(31));
    // Local dirty and equal timestamp: local wins.
    store.write_local(EntityKind::Tag, id("a"), b"mine".to_vec(), 40);
    assert_eq!(
        orch.apply_pull(&mut store, &mut log, remote(EntityKind::Tag, "a", b"theirs", 40), 41),
        PullEffect::ConflictLocalWins
    );
    assert_eq!(conflicts(&log), 1);
}

#[test]
fn second_cycle_is_a_no_op() {
    let mut store = LocalStore::new();
    let mut log = SyncLog::new();
    let mut orch = Orchestrator::new();
    store.write_local(EntityKind::Organization, id("o"), b"acme".to_vec(), 3);
    let pulled = || remote(EntityKind::Organization, "q", b"other", 7);
    for round in 0..2 {
        orch.trigger(true);
        push_all(&mut orch, &mut store, &mut log, EntityKind::Organization, |_| PushOutcome::Accepted(8));
        let e = orch.apply_pull(&mut store, &mut log, pulled(), 9);
        assert_eq!(e, if round == 0 { PullEffect::Inserted } else { PullEffect::KeptLocal });
        orch.finish_cycle(10);
    }
    assert_eq!(log.len(), 2);
    assert_eq!(conflicts(&log), 0);
    assert_eq!(store.len(), 2);
    assert_eq!(store.pending_count(None), 0);
}

#[test]
fn edit_during_upload_stays_dirty() {
    let mut store = LocalStore::new();
    let mut log = SyncLog::new();
    let mut orch = Orchestrator::new();
    store.write_local(EntityKind::Task, id("t"), b"first".to_vec(), 1);
    orch.trigger(true);
    let jobs = store.dirty_snapshot(EntityKind::Task);
    assert_eq!(jobs.len(), 1);
    assert!(jobs[0].first_push);
    store.write_local(EntityKind::Task, id("t"), b"second".to_vec(), 2);
    assert!(orch.record_push(&mut store, &mut log, &jobs[0], PushOutcome::Accepted(5)));
    let i = store.find(EntityKind::Task, &id("t")).unwrap();
    assert!(store.row(i).is_dirty);
    assert_eq!(store.row(i).synced_at, Some(5));
    assert_eq!(store.pending_count(None), 1);
    let again = store.dirty_snapshot(EntityKind::Task);
    assert!(!again[0].first_push);
    assert_eq!(again[0].payload, b"second".to_vec());
}

#[test]
fn pending_count_by_scope() {
    let mut store = LocalStore::new();
    assert_eq!(store.pending_count(None), 0);
    store.write_local(EntityKind::Task, id("a"), vec![], 1);
    store.write_local(EntityKind::Tag, id("a"), vec![], 1);
    store.write_local(EntityKind::Task, id("a"), vec![2], 2);
    assert_eq!(store.len(), 2);
    assert_eq!(store.pending_count(None), 2);
    assert_eq!(store.pending_count(Some(EntityKind::Task)), 1);
    assert_eq!(store.pending_count(Some(EntityKind::Project)), 0);
    assert_eq!(store.dirty_snapshot(EntityKind::Tag).len(), 1);
}

#[test]
fn mark_dirty_refreshes_timestamp() {
    let mut store = LocalStore::new();
    let mut log = SyncLog::new();
    let mut orch = Orchestrator::new();
    assert!(!store.mark_dirty(EntityKind::Task, &id("none"), 5));
    orch.apply_pull(&mut store, &mut log, remote(EntityKind::Task, "r", b"p", 3), 4);
    assert_eq!(store.pending_count(None), 0);
    assert!(store.mark_dirty(EntityKind::Task, &id("r"), 9));
    assert!(store.mark_dirty(EntityKind::Task, &id("r"), 11));
    let i = store.find(EntityKind::Task, &id("r")).unwrap();
    assert_eq!(store.row(i).updated_at, 11);
    assert_eq!(store.row(i).payload, b"p".to_vec());
    assert_eq!(store.pending_count(None), 1);
}

#[test]
fn probe_outcomes() {
    let mut m = ConnectivityMonitor::new();
    assert!(m.current_status());
    assert_eq!(m.apply_probe(ProbeOutcome::Responded(204)), Transition::Unchanged);
    assert_eq!(m.apply_probe(ProbeOutcome::Responded(503)), Transition::WentOffline);
    assert!(!m.current_status());
    assert_eq!(m.apply_probe(ProbeOutcome::Responded(301)), Transition::Unchanged);
    assert_eq!(m.apply_probe(ProbeOutcome::Responded(299)), Transition::WentOnline);
    assert_eq!(m.set_status(false), Transition::WentOffline);
    assert_eq!(m.set_status(false), Transition::Unchanged);
    assert_eq!(m.apply_probe(ProbeOutcome::Responded(199)), Transition::Unchanged);
}

#[test]
fn reconnect_without_pending_does_not_trigger() {
    let mut orch = Orchestrator::new();
    assert_eq!(orch.on_status_change(Transition::WentOnline, 0), None);
    assert_eq!(orch.on_status_change(Transition::WentOffline, 3), None);
    assert_eq!(orch.phase, SyncPhase::Idle);
}

#[test]
fn retry_delay_doubles_up_to_cap() {
    let mut orch = Orchestrator::new();
    assert_eq!(orch.retry_delay_secs(), 5);
    let expected = [10, 20, 40, 80, 160, 300, 300];
    for want in expected {
        orch.fail_cycle(FailReason::Storage);
        assert_eq!(orch.retry_delay_secs(), want);
    }
    orch.consecutive_failures = u32::MAX;
    assert_eq!(orch.retry_delay_secs(), 300);
    orch.fail_cycle(FailReason::Storage);
    assert_eq!(orch.consecutive_failures, u32::MAX);
}

#[test]
fn status_reports_pending_and_last_sync() {
    let mut monitor = ConnectivityMonitor::new();
    let mut store = LocalStore::new();
    let mut orch = Orchestrator::new();
    store.write_local(EntityKind::Task, id("a"), vec![1], 1);
    store.write_local(EntityKind::Project, id("b"), vec![1], 1);
    monitor.set_status(false);
    assert_eq!(
        orch.sync_status(&monitor, &store),
        SyncStatus { is_online: false, pending_changes: 2, last_sync: None }
    );
    orch.trigger(true);
    orch.finish_cycle(77);
    monitor.set_status(true);
    assert_eq!(
        orch.sync_status(&monitor, &store),
        SyncStatus { is_online: true, pending_changes: 2, last_sync: Some(77) }
    );
}

#[test]
fn task_record_holds_sync_metadata() {
    let t = Task {
        id: id("t"),
        name: id("write spec"),
        status: id("todo"),
        priority: None,
        due: None,
        duration: Some(30),
        notes: None,
        organization_id: None,
        project_id: None,
        parent_id: None,
        prd: None,
        created_at: 1,
        updated_at: 2,
        synced_at: None,
        is_dirty: true,
    };
    let c = t.clone();
    assert_eq!(c.id, "t");
    assert!(c.is_dirty);
}
