use rgb_lightning_node::io_error::{IoError, IoErrorKind};
use rgb_lightning_node::pending::PendingEntry;
use rgb_lightning_node::synced_kv_store::{
    decode_pending_row, pending_row, restore_targets, restored_count, AfterLocal, AfterRemote,
    DrainOutcome, DrainStep, PendingRow, RestoreStep, RestoreWrite, StoreOp, StoreRequest,
    SyncedKvStore, PENDING_DRAIN_BATCH, PENDING_NS,
};

fn err() -> IoError {
    IoError { kind: IoErrorKind::Other, message: "down".to_string() }
}

fn write_req(p: &str, s: &str, k: &str, v: &[u8]) -> StoreRequest {
    StoreRequest {
        primary_namespace: p.to_string(),
        secondary_namespace: s.to_string(),
        key: k.to_string(),
        op: StoreOp::Write(v.to_vec()),
    }
}

fn remove_req(p: &str, s: &str, k: &str) -> StoreRequest {
    StoreRequest {
        primary_namespace: p.to_string(),
        secondary_namespace: s.to_string(),
        key: k.to_string(),
        op: StoreOp::Remove { lazy: false },
    }
}

fn replicate(store: &SyncedKvStore, req: StoreRequest) -> rgb_lightning_node::synced_kv_store::Replication {
    match store.after_local(req, Ok(())) {
        AfterLocal::Replicate(rep) => rep,
        other => panic!("expected replication, got {other:?}"),
    }
}

fn row(key: &str, bytes: &[u8]) -> PendingRow {
    PendingRow { vss_key: key.to_string(), row: bytes.to_vec() }
}

#[test]
fn pending_rows_encode_and_decode() {
    assert_eq!(pending_row(&Some(vec![7, 8])), vec![1, 7, 8]);
    assert_eq!(pending_row(&None), vec![0]);
    assert_eq!(decode_pending_row(&vec![1, 7, 8]), Some(Some(vec![7, 8])));
    assert_eq!(decode_pending_row(&vec![1]), Some(Some(vec![])));
    assert_eq!(decode_pending_row(&vec![0, 5]), Some(None));
    assert_eq!(decode_pending_row(&vec![2]), None);
    assert_eq!(decode_pending_row(&vec![]), None);
    assert_eq!(PENDING_NS, "vss_pending");
}

#[test]
fn local_only_never_replicates() {
    let store = SyncedKvStore::local_only();
    assert_eq!(store.pending_remote_writes(), 0);
    assert_eq!(store.after_local(write_req("a", "", "k", &[1]), Ok(())), AfterLocal::Done);
    assert_eq!(store.after_local(write_req("a", "", "k", &[1]), Err(err())), AfterLocal::Failed(err()));
    assert!(store.drain_batch().is_empty());
    assert_eq!(store.restore_start(false), RestoreStep::Skip);
}

#[test]
fn local_failure_fails_replicated_write() {
    let store = SyncedKvStore::with_vss(vec![]);
    assert_eq!(store.after_local(remove_req("a", "", "k"), Err(err())), AfterLocal::Failed(err()));
}

#[test]
fn replication_journals_then_queues_on_failure() {
    let mut store = SyncedKvStore::with_vss(vec![]);
    let rep = replicate(&store, write_req("", "", "manager", &[5, 6]));
    assert_eq!(rep.vss_key, "_/_/manager");
    assert_eq!(rep.journal_row, vec![1, 5, 6]);
    match store.after_remote(rep, Err(err())) {
        AfterRemote::Queued { vss_key, row, warn_queue_size } => {
            assert_eq!(vss_key, "_/_/manager");
            assert_eq!(row, vec![1, 5, 6]);
            assert!(!warn_queue_size);
        }
        other => panic!("unexpected {other:?}"),
    }
    assert_eq!(store.pending_remote_writes(), 1);
    let rep = replicate(&store, remove_req("", "", "manager"));
    assert_eq!(rep.journal_row, vec![0]);
    store.after_remote(rep, Err(err()));
    assert_eq!(store.pending_remote_writes(), 1);
    assert_eq!(
        store.drain_batch(),
        vec![PendingEntry { vss_key: "_/_/manager".to_string(), value: None }]
    );
    let rep = replicate(&store, write_req("", "", "manager", &[9]));
    assert_eq!(
        store.after_remote(rep, Ok(())),
        AfterRemote::Replicated { clear_row: "_/_/manager".to_string() }
    );
    assert_eq!(store.pending_remote_writes(), 0);
}

#[test]
fn reload_rebuilds_queue_from_journal() {
    let store = SyncedKvStore::with_vss(vec![
        row("a/_/k", &[1, 2, 3]),
        row("b/_/k", &[0]),
        row("c/_/k", &[7]),
        row("d/_/k", &[]),
        row("a/_/k", &[1, 9]),
    ]);
    assert_eq!(store.pending_remote_writes(), 2);
    assert_eq!(
        store.drain_batch(),
        vec![
            PendingEntry { vss_key: "a/_/k".to_string(), value: Some(vec![9]) },
            PendingEntry { vss_key: "b/_/k".to_string(), value: None },
        ]
    );
}

#[test]
fn drain_takes_a_bounded_batch_oldest_first() {
    let rows: Vec<PendingRow> = (0..20).map(|i| row(&format!("p/_/k{i}"), &[1, i as u8])).collect();
    let mut store = SyncedKvStore::with_vss(rows);
    let batch = store.drain_batch();
    assert_eq!(batch.len(), PENDING_DRAIN_BATCH);
    assert_eq!(batch[0].vss_key, "p/_/k0");
    assert_eq!(batch[15].vss_key, "p/_/k15");
    match store.drain_step(&batch[0]) {
        DrainStep::Send { primary_namespace, secondary_namespace, key, value } => {
            assert_eq!(primary_namespace, "p");
            assert_eq!(secondary_namespace, "");
            assert_eq!(key, "k0");
            assert_eq!(value, Some(vec![0]));
        }
        other => panic!("unexpected {other:?}"),
    }
    assert_eq!(
        store.after_drain_send(&batch[0], Ok(())),
        DrainOutcome::Delivered { clear_row: "p/_/k0".to_string() }
    );
    assert_eq!(store.after_drain_send(&batch[1], Err(err())), DrainOutcome::StillFailing);
    assert_eq!(store.pending_remote_writes(), 19);
    assert_eq!(store.drain_step(&batch[0]), DrainStep::Skip);
    store.stop();
    assert!(store.drain_batch().is_empty());
}

#[test]
fn drain_drops_unparseable_keys() {
    let mut store = SyncedKvStore::with_vss(vec![row("garbage", &[0])]);
    let batch = store.drain_batch();
    assert_eq!(store.drain_step(&batch[0]), DrainStep::Dropped { clear_row: "garbage".to_string() });
    assert_eq!(store.pending_remote_writes(), 0);
}

#[test]
fn drain_skips_superseded_entries() {
    let mut store = SyncedKvStore::with_vss(vec![row("a/_/k", &[1, 1])]);
    let batch = store.drain_batch();
    let rep = replicate(&store, write_req("a", "", "k", &[2]));
    store.after_remote(rep, Err(err()));
    assert_eq!(store.drain_step(&batch[0]), DrainStep::Skip);
    assert_eq!(store.pending_remote_writes(), 1);
}

#[test]
fn flush_stops_when_empty_late_or_stuck() {
    let store = SyncedKvStore::with_vss(vec![row("a/_/k", &[0])]);
    assert_eq!(store.flush_check_start(false), None);
    assert_eq!(store.flush_check_start(true), Some(1));
    assert_eq!(store.flush_check_progress(1), Some(1));
    assert_eq!(store.flush_check_progress(2), None);
    assert_eq!(SyncedKvStore::local_only().flush_check_start(false), Some(0));
}

#[test]
fn restore_guard_and_plan() {
    let store = SyncedKvStore::with_vss(vec![]);
    assert_eq!(store.restore_start(true), RestoreStep::Download);
    assert_eq!(
        store.restore_start(false),
        RestoreStep::CheckLocal {
            primary_namespace: String::new(),
            secondary_namespace: String::new(),
            key: "manager".to_string(),
        }
    );
    assert_eq!(SyncedKvStore::restore_after_check(true), RestoreStep::Skip);
    assert_eq!(SyncedKvStore::restore_after_check(false), RestoreStep::Download);
    let items = vec![
        ("_/_/manager".to_string(), vec![1]),
        ("bad".to_string(), vec![2]),
        ("monitors/_/m1".to_string(), vec![3]),
    ];
    assert_eq!(
        restore_targets(&items),
        vec![
            RestoreWrite {
                primary_namespace: String::new(),
                secondary_namespace: String::new(),
                key: "manager".to_string(),
                value: vec![1],
            },
            RestoreWrite {
                primary_namespace: "monitors".to_string(),
                secondary_namespace: String::new(),
                key: "m1".to_string(),
                value: vec![3],
            },
        ]
    );
    assert_eq!(restored_count(&vec![true, false, true]), 2);
}

#[test]
fn queue_size_warning_at_threshold() {
    let rows: Vec<PendingRow> = (0..999).map(|i| row(&format!("p/_/k{i}"), &[0])).collect();
    let mut store = SyncedKvStore::with_vss(rows);
    let rep = replicate(&store, remove_req("p", "", "new"));
    match store.after_remote(rep, Err(err())) {
        AfterRemote::Queued { warn_queue_size, .. } => assert!(warn_queue_size),
        other => panic!("unexpected {other:?}"),
    }
}

#[test]
fn journal_rows_survive_restart() {
    let mut store = SyncedKvStore::with_vss(vec![]);
    for (k, v) in [("a", Some(vec![1u8, 2])), ("b", None), ("c", Some(vec![]))] {
        let req = match &v {
            Some(buf) => write_req("p", "", k, buf),
            None => remove_req("p", "", k),
        };
        let rep = replicate(&store, req);
        store.after_remote(rep, Err(err()));
    }
    let before = store.drain_batch();
    let rows: Vec<PendingRow> = before
        .iter()
        .map(|e| PendingRow { vss_key: e.vss_key.clone(), row: pending_row(&e.value) })
        .collect();
    let reloaded = SyncedKvStore::with_vss(rows);
    assert_eq!(reloaded.drain_batch(), before);
    assert_eq!(reloaded.pending_remote_writes(), 3);
}

#[test]
fn delivered_batch_leaves_the_rest_in_order() {
    let rows: Vec<PendingRow> = (0..20).map(|i| row(&format!("p/_/k{i}"), &[0])).collect();
    let mut store = SyncedKvStore::with_vss(rows);
    for entry in store.drain_batch() {
        assert!(matches!(store.drain_step(&entry), DrainStep::Send { .. }));
        store.after_drain_send(&entry, Ok(()));
    }
    let rest: Vec<String> = store.drain_batch().into_iter().map(|e| e.vss_key).collect();
    assert_eq!(rest, vec!["p/_/k16", "p/_/k17", "p/_/k18", "p/_/k19"]);
}

#[test]
fn reload_in_any_row_order_keeps_last_row_per_key() {
    let forward = SyncedKvStore::with_vss(vec![row("b/_/k", &[0]), row("a/_/k", &[1, 5]), row("a/_/k", &[9])]);
    let backward = SyncedKvStore::with_vss(vec![row("a/_/k", &[1, 5]), row("b/_/k", &[0])]);
    assert_eq!(forward.pending_remote_writes(), 2);
    assert_eq!(
        forward.drain_batch(),
        vec![
            PendingEntry { vss_key: "b/_/k".to_string(), value: None },
            PendingEntry { vss_key: "a/_/k".to_string(), value: Some(vec![5]) },
        ]
    );
    assert_eq!(backward.pending_remote_writes(), 2);
    assert_eq!(backward.drain_batch()[0], PendingEntry { vss_key: "a/_/k".to_string(), value: Some(vec![5]) });
}
