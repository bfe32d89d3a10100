//! The replication decisions of a store that writes locally and copies every
//! change to a remote VSS server. The store itself performs no I/O: the
//! caller performs each step it is handed (a local write, a remote write, a
//! journal row) and hands the outcome back.
use vstd::prelude::*;

use crate::io_error::IoError;
use crate::ldk_keys::channel_manager_location;
use crate::pending::{
    copy_bytes, copy_opt_bytes, entries_view, find_pending, insert_pending, key_index, keys_unique,
    lemma_insert_keeps_unique, lemma_lookup_after_insert, opt_bytes, queue_has, queue_insert,
    queue_lookup, queue_remove, remove_pending, PendingEntry, QueueEntry,
};
use crate::vss_keys::{parse_vss_key, spec_parse_vss_key, spec_vss_key, vss_key};

verus! {

/// Pending-queue size at which a warning is logged. The queue holds one entry
/// per distinct key and is disk-backed, so it is not capped: evicting would
/// permanently destroy replication intent.
pub const PENDING_QUEUE_WARN: usize = 1000;

/// How many pending entries to attempt to drain on each successful VSS write.
pub const PENDING_DRAIN_BATCH: usize = 16;

/// Local-only namespace persisting the pending queue across restarts. Rows are
/// written straight to the local store, so they never replicate to VSS.
pub const PENDING_NS: &'static str = "vss_pending";

/// The journal row that persists a queued replication: `1` followed by the
/// bytes for a write, a single `0` for a removal.
pub open spec fn spec_pending_row(value: Option<Seq<u8>>) -> Seq<u8> {
    match value {
        Some(b) => seq![1u8] + b,
        None => seq![0u8],
    }
}

/// What a journal row stands for; `None` for a malformed row.
pub open spec fn spec_decode_pending_row(row: Seq<u8>) -> Option<Option<Seq<u8>>> {
    if row.len() > 0 && row[0] == 1u8 {
        Some(Some(row.subrange(1, row.len() as int)))
    } else if row.len() > 0 && row[0] == 0u8 {
        Some(None)
    } else {
        None
    }
}

/// The journal row for a queued replication.
pub fn pending_row(value: &Option<Vec<u8>>) -> (row: Vec<u8>)
    ensures
        row@ == spec_pending_row(opt_bytes(*value)),
{
    let mut row: Vec<u8> = Vec::new();
    match value {
        Some(buf) => {
            row.push(1u8);
            let mut i: usize = 0;
            while i < buf.len()
                invariant
                    i <= buf@.len(),
                    row@ == seq![1u8] + buf@.subrange(0, i as int),
                decreases buf@.len() - i,
            {
                row.push(buf[i]);
                i = i + 1;
                assert(row@ =~= seq![1u8] + buf@.subrange(0, i as int));
            }
            assert(buf@.subrange(0, buf@.len() as int) =~= buf@);
        },
        None => {
            row.push(0u8);
            assert(row@ =~= seq![0u8]);
        },
    }
    row
}

/// Decodes a journal row; `None` for a malformed row.
pub fn decode_pending_row(row: &Vec<u8>) -> (r: Option<Option<Vec<u8>>>)
    ensures
        match r {
            Some(v) => spec_decode_pending_row(row@) == Some(opt_bytes(v)),
            None => spec_decode_pending_row(row@) is None,
        },
{
    if row.len() == 0 {
        return None;
    }
    if row[0] == 1u8 {
        let mut buf: Vec<u8> = Vec::new();
        let mut i: usize = 1;
        while i < row.len()
            invariant
                1 <= i <= row@.len(),
                buf@ == row@.subrange(1, i as int),
            decreases row@.len() - i,
        {
            buf.push(row[i]);
            i = i + 1;
            assert(buf@ =~= row@.subrange(1, i as int));
        }
        Some(Some(buf))
    } else if row[0] == 0u8 {
        Some(None)
    } else {
        None
    }
}

/// A journal row read back decodes to the replication it was written for.
pub proof fn lemma_pending_row_round_trip(value: Option<Seq<u8>>)
    ensures
        spec_decode_pending_row(spec_pending_row(value)) == Some(value),
{
    match value {
        Some(b) => {
            assert((seq![1u8] + b).subrange(1, (seq![1u8] + b).len() as int) =~= b);
        },
        None => {},
    }
}


/// The journal rows that persist a queue, one per entry, in queue order.
pub open spec fn journal_rows(q: Seq<QueueEntry>) -> Seq<(Seq<char>, Seq<u8>)> {
    q.map_values(|e: QueueEntry| (e.0, spec_pending_row(e.1)))
}

/// Queued replications survive a restart: reloading the journal rows of a
/// queue rebuilds exactly that queue.
pub proof fn lemma_reload_journal_rebuilds_queue(q: Seq<QueueEntry>)
    requires
        keys_unique(q),
    ensures
        load_rows(journal_rows(q)) == q,
    decreases q.len(),
{
    if q.len() > 0 {
        let p = q.drop_last();
        assert(keys_unique(p));
        assert(journal_rows(q).drop_last() =~= journal_rows(p));
        lemma_reload_journal_rebuilds_queue(p);
        let last = q.last();
        lemma_pending_row_round_trip(last.1);
        assert(journal_rows(q).last() == (last.0, spec_pending_row(last.1)));
        assert(!queue_has(p, last.0)) by {
            if queue_has(p, last.0) {
                let i = key_index(p, last.0);
                assert(q[i].0 == q[q.len() - 1].0);
            }
        }
        assert(p.push(last) =~= q);
    } else {
        assert(journal_rows(q) =~= Seq::<(Seq<char>, Seq<u8>)>::empty());
        assert(q =~= Seq::<QueueEntry>::empty());
    }
}

/// What the journal says of `k`: the replication of the last well-formed row
/// for `k`, if any.
pub open spec fn last_row_for(rows: Seq<(Seq<char>, Seq<u8>)>, k: Seq<char>) -> Option<Option<Seq<u8>>>
    decreases rows.len(),
{
    if rows.len() == 0 {
        None
    } else if rows.last().0 == k && spec_decode_pending_row(rows.last().1) is Some {
        spec_decode_pending_row(rows.last().1)
    } else {
        last_row_for(rows.drop_last(), k)
    }
}

/// Whatever order the journal rows are read in, the reloaded queue holds one
/// entry per key, and for each key the replication of its last well-formed
/// row: a queued write or removal survives a restart unchanged.
pub proof fn lemma_reload_lookup(rows: Seq<(Seq<char>, Seq<u8>)>, k: Seq<char>)
    ensures
        keys_unique(load_rows(rows)),
        queue_lookup(load_rows(rows), k) == last_row_for(rows, k),
    decreases rows.len(),
{
    if rows.len() > 0 {
        let p = rows.drop_last();
        lemma_reload_lookup(p, k);
        let q = load_rows(p);
        match spec_decode_pending_row(rows.last().1) {
            Some(v) => {
                lemma_insert_keeps_unique(q, rows.last().0, v);
                lemma_lookup_after_insert(q, rows.last().0, v, k);
            },
            None => {},
        }
    } else {
        assert(load_rows(rows) =~= Seq::<QueueEntry>::empty());
    }
}

/// A journal row as read back from the local store at start-up.
#[derive(Debug, Clone, PartialEq, Eq)]
pub struct PendingRow {
    pub vss_key: String,
    pub row: Vec<u8>,
}

pub open spec fn rows_view(rows: Seq<PendingRow>) -> Seq<(Seq<char>, Seq<u8>)> {
    rows.map_values(|r: PendingRow| (r.vss_key@, r.row@))
}

/// The queue rebuilt from journal rows, in the order they are read: each
/// well-formed row is queued under its key, malformed rows are dropped.
pub open spec fn load_rows(rows: Seq<(Seq<char>, Seq<u8>)>) -> Seq<QueueEntry>
    decreases rows.len(),
{
    if rows.len() == 0 {
        Seq::empty()
    } else {
        let q = load_rows(rows.drop_last());
        match spec_decode_pending_row(rows.last().1) {
            Some(v) => queue_insert(q, rows.last().0, v),
            None => q,
        }
    }
}

/// The state of a replicating store as the specification sees it.
pub struct SyncedKvView {
    /// A remote VSS store is configured.
    pub has_remote: bool,
    /// Replications awaiting the remote store, oldest key first.
    pub pending: Seq<QueueEntry>,
    /// Teardown has begun: no further drains.
    pub stopped: bool,
}

/// What a write or removal does.
#[derive(Debug, Clone, PartialEq, Eq)]
pub enum StoreOp {
    Write(Vec<u8>),
    Remove { lazy: bool },
}

/// The bytes a store operation leaves under its key; `None` for a removal.
pub open spec fn op_value(op: StoreOp) -> Option<Seq<u8>> {
    match op {
        StoreOp::Write(b) => Some(b@),
        StoreOp::Remove { .. } => None,
    }
}

/// A write or removal of one key.
#[derive(Debug, Clone, PartialEq, Eq)]
pub struct StoreRequest {
    pub primary_namespace: String,
    pub secondary_namespace: String,
    pub key: String,
    pub op: StoreOp,
}

impl StoreRequest {
    pub open spec fn spec_vss_key(&self) -> Seq<char> {
        spec_vss_key(self.primary_namespace@, self.secondary_namespace@, self.key@)
    }
}

/// A replication to perform after the local store took a change: journal
/// `journal_row` under `vss_key` in `PENDING_NS`, then apply `request`
/// remotely.
#[derive(Debug, Clone, PartialEq, Eq)]
pub struct Replication {
    pub request: StoreRequest,
    pub vss_key: String,
    pub journal_row: Vec<u8>,
}

/// What follows the local step of a write or removal.
#[derive(Debug, Clone, PartialEq, Eq)]
pub enum AfterLocal {
    /// The local store refused: the operation fails with its error.
    Failed(IoError),
    /// No remote store: the operation succeeded.
    Done,
    /// Replicate, then succeed whatever the remote store answers.
    Replicate(Replication),
}

/// What follows the remote step of a replication. Either way the operation
/// succeeds.
#[derive(Debug, Clone, PartialEq, Eq)]
pub enum AfterRemote {
    /// The remote store took it: remove the journal row `clear_row` from
    /// `PENDING_NS`, then drain the queue.
    Replicated { clear_row: String },
    /// The remote store refused: the replication is queued; persist `row`
    /// under `vss_key` in `PENDING_NS`. `warn_queue_size` is set when the
    /// queue just reached `PENDING_QUEUE_WARN` entries.
    Queued { vss_key: String, row: Vec<u8>, warn_queue_size: bool },
}

/// What to do with one entry of a drain batch.
#[derive(Debug, Clone, PartialEq, Eq)]
pub enum DrainStep {
    /// The entry was superseded or delivered meanwhile: leave it.
    Skip,
    /// The key cannot be parsed: it left the queue; remove its journal row.
    Dropped { clear_row: String },
    /// Apply the entry remotely (`None` is a removal), then report back.
    Send { primary_namespace: String, secondary_namespace: String, key: String, value: Option<Vec<u8>> },
}

/// The outcome of re-sending one queued entry.
#[derive(Debug, Clone, PartialEq, Eq)]
pub enum DrainOutcome {
    /// Delivered: the entry left the queue; remove its journal row and go on.
    Delivered { clear_row: String },
    /// The remote store is likely still down: the entry stays; stop draining.
    StillFailing,
}

/// The next step of a restore from the remote store.
#[derive(Debug, Clone, PartialEq, Eq)]
pub enum RestoreStep {
    /// Restore nothing: the restore reports 0 keys.
    Skip,
    /// Read the channel manager at this location locally and report whether
    /// it is there.
    CheckLocal { primary_namespace: String, secondary_namespace: String, key: String },
    /// Download everything from the remote store.
    Download,
}

/// One restored key-value pair to write to the local store.
#[derive(Debug, Clone, PartialEq, Eq)]
pub struct RestoreWrite {
    pub primary_namespace: String,
    pub secondary_namespace: String,
    pub key: String,
    pub value: Vec<u8>,
}

/// The local writes a restore makes from downloaded `(vss_key, value)`
/// pairs, in order: one for each key that parses, none for the others.
pub open spec fn restore_plan(items: Seq<(Seq<char>, Seq<u8>)>) -> Seq<(Seq<char>, Seq<char>, Seq<char>, Seq<u8>)>
    decreases items.len(),
{
    if items.len() == 0 {
        Seq::empty()
    } else {
        let p = restore_plan(items.drop_last());
        match spec_parse_vss_key(items.last().0) {
            Some((a, b, k)) => p.push((a, b, k, items.last().1)),
            None => p,
        }
    }
}

/// The write `w` puts the value of the downloaded pair `item` back at the
/// location that the pair's VSS key names.
#[verifier::opaque]
pub open spec fn restores(item: (Seq<char>, Seq<u8>), w: (Seq<char>, Seq<char>, Seq<char>, Seq<u8>)) -> bool {
    spec_parse_vss_key(item.0) == Some((w.0, w.1, w.2)) && w.3 == item.1
}

/// Some downloaded pair of `items` is put back by the write `w`.
pub open spec fn written_from(items: Seq<(Seq<char>, Seq<u8>)>, w: (Seq<char>, Seq<char>, Seq<char>, Seq<u8>)) -> bool {
    exists|i: int| 0 <= i < items.len() && #[trigger] restores(items[i], w)
}

/// Every write of a restore puts a downloaded value back where its VSS key
/// says, and no more writes are made than pairs were downloaded.
pub proof fn lemma_restore_writes_follow_keys(items: Seq<(Seq<char>, Seq<u8>)>)
    ensures
        restore_plan(items).len() <= items.len(),
        forall|j: int|
            0 <= j < restore_plan(items).len() ==> written_from(items, #[trigger] restore_plan(items)[j]),
    decreases items.len(),
{
    if items.len() > 0 {
        let pre = items.drop_last();
        lemma_restore_writes_follow_keys(pre);
        let p = restore_plan(pre);
        let n = items.len() - 1;
        assert forall|j: int| 0 <= j < restore_plan(items).len() implies written_from(
            items,
            #[trigger] restore_plan(items)[j],
        ) by {
            if j < p.len() {
                assert(restore_plan(items)[j] == p[j]);
                assert(written_from(pre, p[j]));
                let i = choose|i: int| 0 <= i < pre.len() && #[trigger] restores(pre[i], p[j]);
                assert(items[i] == pre[i]);
                assert(restores(items[i], restore_plan(items)[j]));
            } else {
                reveal(restores);
                assert(items[n] == items.last());
                assert(restores(items[n], restore_plan(items)[j]));
            }
        }
    }
}

/// Every downloaded pair whose VSS key parses is written back where that
/// key says.
pub proof fn lemma_restore_keeps_every_parsed_key(items: Seq<(Seq<char>, Seq<u8>)>)
    ensures
        forall|i: int|
            0 <= i < items.len() && (#[trigger] spec_parse_vss_key(items[i].0)) is Some ==> exists|j: int|
                0 <= j < restore_plan(items).len() && restores(items[i], #[trigger] restore_plan(items)[j]),
    decreases items.len(),
{
    if items.len() > 0 {
        let pre = items.drop_last();
        lemma_restore_keeps_every_parsed_key(pre);
        let p = restore_plan(pre);
        let n = items.len() - 1;
        assert forall|i: int| 0 <= i < items.len() && (#[trigger] spec_parse_vss_key(items[i].0)) is Some implies exists|j: int|
            0 <= j < restore_plan(items).len() && restores(items[i], #[trigger] restore_plan(items)[j]) by {
            if i < n {
                assert(items[i] == pre[i]);
                assert(spec_parse_vss_key(pre[i].0) is Some);
                let j = choose|j: int| 0 <= j < p.len() && restores(pre[i], #[trigger] p[j]);
                assert(restore_plan(items)[j] == p[j]);
            } else {
                reveal(restores);
                assert(items[n] == items.last());
                assert(restores(items[i], restore_plan(items)[p.len() as int]));
            }
        }
    }
}

/// Number of `true` in `s`.
pub open spec fn count_true(s: Seq<bool>) -> nat
    decreases s.len(),
{
    if s.len() == 0 {
        0
    } else {
        count_true(s.drop_last()) + if s.last() { 1nat } else { 0nat }
    }
}

/// Key-value store core that writes to the local store and (optionally)
/// replicates to a remote VSS server. Reads always go to the local store.
/// Without a remote store it behaves like the local store alone.
///
/// VSS-replication failures park in a queue so a transient outage doesn't
/// lose state from the remote backup; each successful VSS write drains up to
/// `PENDING_DRAIN_BATCH` entries. The queue holds one entry per encoded VSS
/// key; `None` stands for a pending removal, so a later write to the same key
/// supersedes the removal.
pub struct SyncedKvStore {
    has_remote: bool,
    pending: Vec<PendingEntry>,
    stopped: bool,
}

impl View for SyncedKvStore {
    type V = SyncedKvView;

    closed spec fn view(&self) -> SyncedKvView {
        SyncedKvView {
            has_remote: self.has_remote,
            pending: entries_view(self.pending@),
            stopped: self.stopped,
        }
    }
}

impl SyncedKvStore {
    #[verifier::type_invariant]
    spec fn inv(self) -> bool {
        keys_unique(entries_view(self.pending@))
    }

    /// A store with local storage only (no VSS replication).
    pub fn local_only() -> (r: Self)
        ensures
            !r@.has_remote,
            r@.pending == Seq::<QueueEntry>::empty(),
            !r@.stopped,
    {
        let r = SyncedKvStore { has_remote: false, pending: Vec::new(), stopped: false };
        assert(entries_view(r.pending@) =~= Seq::<QueueEntry>::empty());
        r
    }

    /// A store with local storage and VSS replication, reloading the queued
    /// replications that a previous run persisted: `rows` are the journal
    /// rows read from `PENDING_NS` (rows that could not be read are left
    /// out by the caller); malformed rows are dropped.
    pub fn with_vss(rows: Vec<PendingRow>) -> (r: Self)
        ensures
            r@.has_remote,
            r@.pending == load_rows(rows_view(rows@)),
            keys_unique(r@.pending),
            !r@.stopped,
    {
        let mut pending: Vec<PendingEntry> = Vec::new();
        let ghost rv = rows_view(rows@);
        assert(entries_view(pending@) =~= load_rows(rv.subrange(0, 0)));
        let mut i: usize = 0;
        while i < rows.len()
            invariant
                i <= rows@.len(),
                rv == rows_view(rows@),
                entries_view(pending@) == load_rows(rv.subrange(0, i as int)),
                keys_unique(entries_view(pending@)),
            decreases rows@.len() - i,
        {
            let ghost before = rv.subrange(0, i as int);
            let ghost after = rv.subrange(0, i + 1);
            assert(after.drop_last() =~= before);
            assert(after.last() == (rows@[i as int].vss_key@, rows@[i as int].row@));
            match decode_pending_row(&rows[i].row) {
                Some(v) => {
                    insert_pending(&mut pending, rows[i].vss_key.clone(), v);
                },
                None => {},
            }
            i = i + 1;
        }
        assert(rv.subrange(0, rows@.len() as int) =~= rv);
        SyncedKvStore { has_remote: true, pending, stopped: false }
    }

    /// The number of VSS replications that failed and await retry.
    pub fn pending_remote_writes(&self) -> (r: usize)
        ensures
            r == self@.pending.len(),
    {
        self.pending.len()
    }

    /// Stops future drains. Call at teardown before releasing the VSS fence.
    pub fn stop(&mut self)
        ensures
            final(self)@.stopped,
            final(self)@.has_remote == old(self)@.has_remote,
            final(self)@.pending == old(self)@.pending,
    {
        proof {
            use_type_invariant(&*self);
        }
        self.stopped = true;
    }

    /// Decides what follows the local step of `request`. The local store must
    /// succeed first: its error is the operation's error. Without a remote
    /// store the operation is done; with one the change is replicated.
    pub fn after_local(&self, request: StoreRequest, local: Result<(), IoError>) -> (r: AfterLocal)
        ensures
            match local {
                Err(e) => r == AfterLocal::Failed(e),
                Ok(()) => if !self@.has_remote {
                    r == AfterLocal::Done
                } else {
                    &&& r matches AfterLocal::Replicate(rep)
                    &&& rep.request == request
                    &&& rep.vss_key@ == request.spec_vss_key()
                    &&& rep.journal_row@ == spec_pending_row(op_value(request.op))
                },
            },
    {
        match local {
            Err(e) => AfterLocal::Failed(e),
            Ok(()) => {
                if !self.has_remote {
                    AfterLocal::Done
                } else {
                    let key = vss_key(
                        request.primary_namespace.as_str(),
                        request.secondary_namespace.as_str(),
                        request.key.as_str(),
                    );
                    let journal_row = match &request.op {
                        StoreOp::Write(b) => {
                            let v = Some(copy_bytes(b));
                            pending_row(&v)
                        },
                        StoreOp::Remove { .. } => pending_row(&None),
                    };
                    AfterLocal::Replicate(Replication { request, vss_key: key, journal_row })
                }
            },
        }
    }

    /// Records the remote outcome of `replication`. On success any queued,
    /// now stale value for the key is dropped so a drain can't regress the
    /// remote store; on failure the replication is queued for retry.
    pub fn after_remote(&mut self, replication: Replication, remote: Result<(), IoError>) -> (r: AfterRemote)
        ensures
            final(self)@.has_remote == old(self)@.has_remote,
            final(self)@.stopped == old(self)@.stopped,
            keys_unique(final(self)@.pending),
            match remote {
                Ok(()) => {
                    &&& final(self)@.pending == queue_remove(old(self)@.pending, replication.vss_key@)
                    &&& r matches AfterRemote::Replicated { clear_row }
                    &&& clear_row@ == replication.vss_key@
                },
                Err(_) => {
                    &&& final(self)@.pending == queue_insert(
                        old(self)@.pending,
                        replication.vss_key@,
                        op_value(replication.request.op),
                    )
                    &&& r matches AfterRemote::Queued { vss_key, row, warn_queue_size }
                    &&& vss_key@ == replication.vss_key@
                    &&& row@ == spec_pending_row(op_value(replication.request.op))
                    &&& warn_queue_size == (final(self)@.pending.len() == PENDING_QUEUE_WARN)
                },
            },
    {
        proof {
            use_type_invariant(&*self);
        }
        match remote {
            Ok(()) => {
                let mut pending = Vec::new();
                std::mem::swap(&mut pending, &mut self.pending);
                remove_pending(&mut pending, &replication.vss_key);
                self.pending = pending;
                AfterRemote::Replicated { clear_row: replication.vss_key }
            },
            Err(_) => {
                let value = match &replication.request.op {
                    StoreOp::Write(b) => Some(copy_bytes(b)),
                    StoreOp::Remove { .. } => None,
                };
                self.enqueue_pending(replication.vss_key, value)
            },
        }
    }

    /// Queues a failed replication for retry, superseding whatever was queued
    /// for the key; the journal row to persist comes back so the entry
    /// survives restarts.
    pub fn enqueue_pending(&mut self, vss_key: String, value: Option<Vec<u8>>) -> (r: AfterRemote)
        ensures
            final(self)@.has_remote == old(self)@.has_remote,
            final(self)@.stopped == old(self)@.stopped,
            keys_unique(final(self)@.pending),
            final(self)@.pending == queue_insert(old(self)@.pending, vss_key@, opt_bytes(value)),
            r matches AfterRemote::Queued { vss_key: k, row, warn_queue_size } && k@ == vss_key@
                && row@ == spec_pending_row(opt_bytes(value)) && warn_queue_size == (
            final(self)@.pending.len() == PENDING_QUEUE_WARN),
    {
        proof {
            use_type_invariant(&*self);
        }
        let row = pending_row(&value);
        let key = vss_key.clone();
        let mut pending = Vec::new();
        std::mem::swap(&mut pending, &mut self.pending);
        insert_pending(&mut pending, key, value);
        self.pending = pending;
        let warn_queue_size = self.pending.len() == PENDING_QUEUE_WARN;
        AfterRemote::Queued { vss_key, row, warn_queue_size }
    }

    /// The entries a drain attempts, oldest first: up to
    /// `PENDING_DRAIN_BATCH` of them, none without a remote store or after
    /// `stop`. Entries leave the queue only once VSS confirms them.
    pub fn drain_batch(&self) -> (r: Vec<PendingEntry>)
        ensures
            if !self@.has_remote || self@.stopped {
                r@.len() == 0
            } else {
                entries_view(r@) == self@.pending.take(
                    if self@.pending.len() < PENDING_DRAIN_BATCH {
                        self@.pending.len() as int
                    } else {
                        PENDING_DRAIN_BATCH as int
                    },
                )
            },
    {
        let mut r: Vec<PendingEntry> = Vec::new();
        if !self.has_remote || self.stopped {
            return r;
        }
        let n = if self.pending.len() < PENDING_DRAIN_BATCH {
            self.pending.len()
        } else {
            PENDING_DRAIN_BATCH
        };
        let ghost q = entries_view(self.pending@);
        let mut i: usize = 0;
        while i < n
            invariant
                n <= self.pending@.len(),
                q == entries_view(self.pending@),
                i <= n,
                entries_view(r@) == q.take(i as int),
            decreases n - i,
        {
            let e = &self.pending[i];
            let copied = PendingEntry { vss_key: e.vss_key.clone(), value: copy_opt_bytes(&e.value) };
            assert(copied.spec_entry() == q[i as int]);
            let ghost before = r@;
            r.push(copied);
            assert(r@ == before.push(copied));
            assert(entries_view(r@) =~= entries_view(before).push(copied.spec_entry()));
            i = i + 1;
            assert(entries_view(r@) =~= q.take(i as int));
        }
        r
    }

    /// Decides what to do with `entry` of a drain batch. It is re-checked
    /// first: an entry no longer queued with that value is skipped. An entry
    /// whose key cannot be parsed leaves the queue.
    pub fn drain_step(&mut self, entry: &PendingEntry) -> (r: DrainStep)
        ensures
            final(self)@.has_remote == old(self)@.has_remote,
            final(self)@.stopped == old(self)@.stopped,
            keys_unique(final(self)@.pending),
            if queue_lookup(old(self)@.pending, entry.vss_key@) != Some(opt_bytes(entry.value)) {
                r == DrainStep::Skip && final(self)@.pending == old(self)@.pending
            } else {
                match spec_parse_vss_key(entry.vss_key@) {
                    None => {
                        &&& final(self)@.pending == queue_remove(old(self)@.pending, entry.vss_key@)
                        &&& r matches DrainStep::Dropped { clear_row }
                        &&& clear_row@ == entry.vss_key@
                    },
                    Some((p, s, k)) => {
                        &&& final(self)@.pending == old(self)@.pending
                        &&& r matches DrainStep::Send {
                            primary_namespace,
                            secondary_namespace,
                            key,
                            value,
                        }
                        &&& primary_namespace@ == p
                        &&& secondary_namespace@ == s
                        &&& key@ == k
                        &&& opt_bytes(value) == opt_bytes(entry.value)
                    },
                }
            },
    {
        proof {
            use_type_invariant(&*self);
        }
        let ghost q = entries_view(self.pending@);
        let current = match find_pending(&self.pending, &entry.vss_key) {
            Some(i) => {
                assert(q[i as int] == self.pending@[i as int].spec_entry());
                same_bytes(&self.pending[i].value, &entry.value)
            },
            None => false,
        };
        if !current {
            return DrainStep::Skip;
        }
        match parse_vss_key(entry.vss_key.as_str()) {
            None => {
                let mut pending = Vec::new();
                std::mem::swap(&mut pending, &mut self.pending);
                remove_pending(&mut pending, &entry.vss_key);
                self.pending = pending;
                DrainStep::Dropped { clear_row: entry.vss_key.clone() }
            },
            Some((primary_namespace, secondary_namespace, key)) => DrainStep::Send {
                primary_namespace,
                secondary_namespace,
                key,
                value: copy_opt_bytes(&entry.value),
            },
        }
    }

    /// Records the remote outcome of re-sending `entry`: delivered entries
    /// leave the queue; on failure the entry stays and the drain stops.
    pub fn after_drain_send(&mut self, entry: &PendingEntry, remote: Result<(), IoError>) -> (r: DrainOutcome)
        ensures
            final(self)@.has_remote == old(self)@.has_remote,
            final(self)@.stopped == old(self)@.stopped,
            keys_unique(final(self)@.pending),
            match remote {
                Ok(()) => {
                    &&& final(self)@.pending == queue_remove(old(self)@.pending, entry.vss_key@)
                    &&& r matches DrainOutcome::Delivered { clear_row }
                    &&& clear_row@ == entry.vss_key@
                },
                Err(_) => final(self)@.pending == old(self)@.pending && r == DrainOutcome::StillFailing,
            },
    {
        proof {
            use_type_invariant(&*self);
        }
        match remote {
            Ok(()) => {
                let mut pending = Vec::new();
                std::mem::swap(&mut pending, &mut self.pending);
                remove_pending(&mut pending, &entry.vss_key);
                self.pending = pending;
                DrainOutcome::Delivered { clear_row: entry.vss_key.clone() }
            },
            Err(_) => DrainOutcome::StillFailing,
        }
    }

    /// First check of a flush round: `Some(n)` ends the flush with `n`
    /// entries still pending, when the queue is empty or the deadline passed.
    pub fn flush_check_start(&self, deadline_passed: bool) -> (r: Option<usize>)
        ensures
            r == if self@.pending.len() == 0 || deadline_passed {
                Some(self@.pending.len() as usize)
            } else {
                None::<usize>
            },
    {
        let before = self.pending.len();
        if before == 0 || deadline_passed {
            Some(before)
        } else {
            None
        }
    }

    /// Check after a flush round's drain, given the queue size `before` it:
    /// without progress the flush ends with the number still pending.
    pub fn flush_check_progress(&self, before: usize) -> (r: Option<usize>)
        ensures
            r == if self@.pending.len() >= before {
                Some(self@.pending.len() as usize)
            } else {
                None::<usize>
            },
    {
        let after = self.pending.len();
        if after >= before {
            Some(after)
        } else {
            None
        }
    }

    /// How a restore from VSS begins. `force = false` is the safe default:
    /// the restore only proceeds when the local store has no channel manager
    /// (a fresh device). `force = true` overwrites local state with whatever
    /// VSS holds.
    pub fn restore_start(&self, force: bool) -> (r: RestoreStep)
        ensures
            !self@.has_remote ==> r == RestoreStep::Skip,
            self@.has_remote && force ==> r == RestoreStep::Download,
            self@.has_remote && !force ==> {
                &&& r matches RestoreStep::CheckLocal { primary_namespace, secondary_namespace, key }
                &&& primary_namespace@ == Seq::<char>::empty()
                &&& secondary_namespace@ == Seq::<char>::empty()
                &&& key@ == seq!['m', 'a', 'n', 'a', 'g', 'e', 'r']
            },
    {
        if !self.has_remote {
            RestoreStep::Skip
        } else if force {
            RestoreStep::Download
        } else {
            let (p, s, k) = channel_manager_location();
            RestoreStep::CheckLocal {
                primary_namespace: p.to_owned(),
                secondary_namespace: s.to_owned(),
                key: k.to_owned(),
            }
        }
    }
}

impl SyncedKvStore {
    /// The step after checking for a local channel manager: a store that
    /// already has one is not a fresh device, so nothing is restored.
    pub fn restore_after_check(found: bool) -> (r: RestoreStep)
        ensures
            r == if found { RestoreStep::Skip } else { RestoreStep::Download },
    {
        if found {
            RestoreStep::Skip
        } else {
            RestoreStep::Download
        }
    }
}

/// A downloaded `(vss_key, value)` pair, as the specification sees it.
pub open spec fn items_view(items: Seq<(String, Vec<u8>)>) -> Seq<(Seq<char>, Seq<u8>)> {
    items.map_values(|t: (String, Vec<u8>)| (t.0@, t.1@))
}

pub open spec fn restore_writes_view(w: Seq<RestoreWrite>) -> Seq<(Seq<char>, Seq<char>, Seq<char>, Seq<u8>)> {
    w.map_values(
        |x: RestoreWrite| (x.primary_namespace@, x.secondary_namespace@, x.key@, x.value@),
    )
}

/// The local writes that restore the downloaded `items`: keys of an
/// unrecognized format are skipped.
pub fn restore_targets(items: &Vec<(String, Vec<u8>)>) -> (r: Vec<RestoreWrite>)
    ensures
        restore_writes_view(r@) == restore_plan(items_view(items@)),
        r@.len() <= items@.len(),
        forall|j: int| #![trigger r@[j]]
            0 <= j < r@.len() ==> exists|i: int| #![trigger items@[i]]
                0 <= i < items@.len() && spec_parse_vss_key(items@[i].0@) == Some(
                    (r@[j].primary_namespace@, r@[j].secondary_namespace@, r@[j].key@),
                ) && r@[j].value@ == items@[i].1@,
        forall|i: int| #![trigger items@[i]]
            0 <= i < items@.len() && spec_parse_vss_key(items@[i].0@) is Some ==> exists|j: int| #![trigger r@[j]]
                0 <= j < r@.len() && spec_parse_vss_key(items@[i].0@) == Some(
                    (r@[j].primary_namespace@, r@[j].secondary_namespace@, r@[j].key@),
                ) && r@[j].value@ == items@[i].1@,
{
    let ghost iv = items_view(items@);
    let mut r: Vec<RestoreWrite> = Vec::new();
    let mut i: usize = 0;
    assert(restore_writes_view(r@) =~= restore_plan(iv.subrange(0, 0)));
    while i < items.len()
        invariant
            i <= items@.len(),
            iv == items_view(items@),
            restore_writes_view(r@) == restore_plan(iv.subrange(0, i as int)),
        decreases items@.len() - i,
    {
        let ghost after = iv.subrange(0, i + 1);
        assert(after.drop_last() =~= iv.subrange(0, i as int));
        assert(after.last() == (items@[i as int].0@, items@[i as int].1@));
        let item = &items[i];
        match parse_vss_key(item.0.as_str()) {
            Some((primary_namespace, secondary_namespace, key)) => {
                let w = RestoreWrite { primary_namespace, secondary_namespace, key, value: copy_bytes(&item.1) };
                let ghost before = r@;
                r.push(w);
                assert(restore_writes_view(r@) =~= restore_writes_view(before).push(
                    (w.primary_namespace@, w.secondary_namespace@, w.key@, w.value@),
                ));
            },
            None => {},
        }
        i = i + 1;
    }
    assert(iv.subrange(0, items@.len() as int) =~= iv);
    proof {
        let wv = restore_writes_view(r@);
        lemma_restore_writes_follow_keys(iv);
        lemma_restore_keeps_every_parsed_key(iv);
        reveal(restores);
        assert forall|j: int| #![trigger r@[j]] 0 <= j < r@.len() implies exists|i: int| #![trigger items@[i]]
            0 <= i < items@.len() && spec_parse_vss_key(items@[i].0@) == Some(
                (r@[j].primary_namespace@, r@[j].secondary_namespace@, r@[j].key@),
            ) && r@[j].value@ == items@[i].1@ by {
            assert(wv[j] == restore_plan(iv)[j]);
            assert(written_from(iv, wv[j]));
            let i = choose|i: int| 0 <= i < iv.len() && #[trigger] restores(iv[i], wv[j]);
            assert(iv[i] == (items@[i].0@, items@[i].1@));
        }
        assert forall|i: int| #![trigger items@[i]] 0 <= i < items@.len() && spec_parse_vss_key(items@[i].0@) is Some implies exists|j: int| #![trigger r@[j]]
            0 <= j < r@.len() && spec_parse_vss_key(items@[i].0@) == Some(
                (r@[j].primary_namespace@, r@[j].secondary_namespace@, r@[j].key@),
            ) && r@[j].value@ == items@[i].1@ by {
            assert(iv[i] == (items@[i].0@, items@[i].1@));
            assert(spec_parse_vss_key(iv[i].0) is Some);
            let j = choose|j: int| 0 <= j < restore_plan(iv).len() && restores(iv[i], #[trigger] restore_plan(iv)[j]);
            assert(wv[j] == restore_plan(iv)[j]);
            assert(r@[j] == r@[j]);
        }
    }
    r
}

/// The number of restored keys: the local writes that succeeded.
pub fn restored_count(write_succeeded: &Vec<bool>) -> (r: usize)
    ensures
        r == count_true(write_succeeded@),
{
    let mut n: usize = 0;
    let mut i: usize = 0;
    while i < write_succeeded.len()
        invariant
            i <= write_succeeded@.len(),
            n == count_true(write_succeeded@.subrange(0, i as int)),
            n <= i,
        decreases write_succeeded@.len() - i,
    {
        assert(write_succeeded@.subrange(0, i + 1).drop_last() =~= write_succeeded@.subrange(0, i as int));
        if write_succeeded[i] {
            n = n + 1;
        }
        i = i + 1;
    }
    assert(write_succeeded@.subrange(0, write_succeeded@.len() as int) =~= write_succeeded@);
    n
}

/// Compares two optional byte buffers.
fn same_bytes(a: &Option<Vec<u8>>, b: &Option<Vec<u8>>) -> (r: bool)
    ensures
        r == (opt_bytes(*a) == opt_bytes(*b)),
{
    match a {
        Some(x) => match b {
            Some(y) => {
                assert(opt_bytes(*a) == Some(x@) && opt_bytes(*b) == Some(y@));
                if x.len() != y.len() {
                    assert(x@.len() != y@.len());
                    return false;
                }
                let mut i: usize = 0;
                while i < x.len()
                    invariant
                        opt_bytes(*a) == Some(x@),
                        opt_bytes(*b) == Some(y@),
                        x@.len() == y@.len(),
                        i <= x@.len(),
                        forall|k: int| 0 <= k < i ==> x@[k] == y@[k],
                    decreases x@.len() - i,
                {
                    if x[i] != y[i] {
                        assert(x@[i as int] != y@[i as int]);
                        assert(x@ != y@);
                        return false;
                    }
                    i = i + 1;
                }
                assert(x@ =~= y@);
                true
            },
            None => false,
        },
        None => b.is_none(),
    }
}

} // verus!
