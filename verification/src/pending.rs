use vstd::prelude::*;

verus! {

/// A queued replication as the specification sees it: the VSS key and the
/// bytes to write there, or `None` for a removal.
pub type QueueEntry = (Seq<char>, Option<Seq<u8>>);

/// One replication that reached the local store but not yet the remote one.
#[derive(Debug, Clone, PartialEq, Eq)]
pub struct PendingEntry {
    /// Encoded VSS key (the format of `vss_key`).
    pub vss_key: String,
    /// Bytes to re-write remotely; `None` stands for a pending removal.
    pub value: Option<Vec<u8>>,
}

/// The view of optional bytes.
pub open spec fn opt_bytes(v: Option<Vec<u8>>) -> Option<Seq<u8>> {
    match v {
        Some(b) => Some(b@),
        None => None,
    }
}

impl PendingEntry {
    pub open spec fn spec_entry(&self) -> QueueEntry {
        (self.vss_key@, opt_bytes(self.value))
    }
}

/// The specification's view of a sequence of pending entries.
pub open spec fn entries_view(v: Seq<PendingEntry>) -> Seq<QueueEntry> {
    v.map_values(|e: PendingEntry| e.spec_entry())
}

/// No VSS key occurs twice in the queue.
pub open spec fn keys_unique(q: Seq<QueueEntry>) -> bool {
    forall|i: int, j: int| 0 <= i < q.len() && 0 <= j < q.len() && i != j ==> q[i].0 != q[j].0
}

/// The queue holds an entry for `k`.
pub open spec fn queue_has(q: Seq<QueueEntry>, k: Seq<char>) -> bool {
    exists|i: int| 0 <= i < q.len() && #[trigger] q[i].0 == k
}

/// The position of the entry for `k`, when there is one.
pub open spec fn key_index(q: Seq<QueueEntry>, k: Seq<char>) -> int {
    choose|i: int| 0 <= i < q.len() && #[trigger] q[i].0 == k
}

/// What the queue holds for `k`: `Some(value)` when `k` is queued.
pub open spec fn queue_lookup(q: Seq<QueueEntry>, k: Seq<char>) -> Option<Option<Seq<u8>>> {
    if queue_has(q, k) {
        Some(q[key_index(q, k)].1)
    } else {
        None
    }
}

/// Queues `v` under `k`: a key already queued keeps its place and takes the
/// new value (a later write supersedes an earlier write or removal); a new
/// key goes to the back.
pub open spec fn queue_insert(q: Seq<QueueEntry>, k: Seq<char>, v: Option<Seq<u8>>) -> Seq<QueueEntry> {
    if queue_has(q, k) {
        q.update(key_index(q, k), (k, v))
    } else {
        q.push((k, v))
    }
}

/// Drops the entry for `k`, if any; the others keep their order.
pub open spec fn queue_remove(q: Seq<QueueEntry>, k: Seq<char>) -> Seq<QueueEntry> {
    if queue_has(q, k) {
        q.remove(key_index(q, k))
    } else {
        q
    }
}

/// In a queue without repeated keys, the entry found for a key is the one
/// with that key.
pub proof fn lemma_key_index_unique(q: Seq<QueueEntry>, k: Seq<char>, i: int)
    requires
        keys_unique(q),
        0 <= i < q.len(),
        q[i].0 == k,
    ensures
        queue_has(q, k),
        key_index(q, k) == i,
{
    assert(queue_has(q, k));
}

/// Inserting keeps keys unique.
pub proof fn lemma_insert_keeps_unique(q: Seq<QueueEntry>, k: Seq<char>, v: Option<Seq<u8>>)
    requires
        keys_unique(q),
    ensures
        keys_unique(queue_insert(q, k, v)),
{
    if queue_has(q, k) {
        let i = key_index(q, k);
        assert(q[i].0 == k);
    } else {
        let r = q.push((k, v));
        assert forall|a: int, b: int| 0 <= a < r.len() && 0 <= b < r.len() && a != b implies r[a].0
            != r[b].0 by {
            if a == q.len() {
                assert(r[b].0 == q[b].0);
            } else if b == q.len() {
                assert(r[a].0 == q[a].0);
            }
        }
    }
}

/// Removing keeps keys unique.
pub proof fn lemma_remove_keeps_unique(q: Seq<QueueEntry>, k: Seq<char>)
    requires
        keys_unique(q),
    ensures
        keys_unique(queue_remove(q, k)),
{
    if queue_has(q, k) {
        let i = key_index(q, k);
        let r = q.remove(i);
        assert forall|a: int, b: int| 0 <= a < r.len() && 0 <= b < r.len() && a != b implies r[a].0
            != r[b].0 by {
            let a2 = if a < i { a } else { a + 1 };
            let b2 = if b < i { b } else { b + 1 };
            assert(r[a] == q[a2]);
            assert(r[b] == q[b2]);
        }
    }
}


/// A queued replication can be read back: after queuing `v` under `k`, the
/// queue holds `v` for `k` and what it held for every other key.
pub proof fn lemma_lookup_after_insert(q: Seq<QueueEntry>, k: Seq<char>, v: Option<Seq<u8>>, other: Seq<char>)
    requires
        keys_unique(q),
    ensures
        queue_lookup(queue_insert(q, k, v), k) == Some(v),
        other != k ==> queue_lookup(queue_insert(q, k, v), other) == queue_lookup(q, other),
{
    let r = queue_insert(q, k, v);
    lemma_insert_keeps_unique(q, k, v);
    let pos = if queue_has(q, k) { key_index(q, k) } else { q.len() as int };
    if queue_has(q, k) {
        assert(q[key_index(q, k)].0 == k);
    }
    assert(r[pos].0 == k);
    lemma_key_index_unique(r, k, pos);
    if other != k {
        if queue_has(q, other) {
            let j = key_index(q, other);
            assert(q[j].0 == other);
            assert(r[j] == q[j]);
            lemma_key_index_unique(r, other, j);
        } else {
            if queue_has(r, other) {
                let j = key_index(r, other);
                assert(r[j].0 == other);
                assert(j != pos);
                assert(q[j] == r[j]);
            }
        }
    }
}

/// A later write to a key supersedes an earlier write or removal of it: the
/// queue is as if only the later one had been queued.
pub proof fn lemma_later_insert_supersedes(q: Seq<QueueEntry>, k: Seq<char>, v1: Option<Seq<u8>>, v2: Option<Seq<u8>>)
    requires
        keys_unique(q),
    ensures
        queue_insert(queue_insert(q, k, v1), k, v2) == queue_insert(q, k, v2),
{
    let r1 = queue_insert(q, k, v1);
    lemma_insert_keeps_unique(q, k, v1);
    let pos = if queue_has(q, k) { key_index(q, k) } else { q.len() as int };
    if queue_has(q, k) {
        assert(q[key_index(q, k)].0 == k);
    }
    assert(r1[pos].0 == k);
    lemma_key_index_unique(r1, k, pos);
    assert(queue_insert(r1, k, v2) =~= queue_insert(q, k, v2));
}

/// A delivered key leaves the queue, and only it does.
pub proof fn lemma_lookup_after_remove(q: Seq<QueueEntry>, k: Seq<char>, other: Seq<char>)
    requires
        keys_unique(q),
    ensures
        queue_lookup(queue_remove(q, k), k) is None,
        other != k ==> queue_lookup(queue_remove(q, k), other) == queue_lookup(q, other),
{
    let r = queue_remove(q, k);
    lemma_remove_keeps_unique(q, k);
    if queue_has(q, k) {
        let i = key_index(q, k);
        assert(q[i].0 == k);
        if queue_has(r, k) {
            let j = key_index(r, k);
            assert(r[j].0 == k);
            let j2 = if j < i { j } else { j + 1 };
            assert(r[j] == q[j2]);
        }
        if other != k {
            if queue_has(q, other) {
                let j = key_index(q, other);
                assert(q[j].0 == other);
                let jr = if j < i { j } else { j - 1 };
                assert(r[jr] == q[j]);
                lemma_key_index_unique(r, other, jr);
            } else if queue_has(r, other) {
                let j = key_index(r, other);
                assert(r[j].0 == other);
                let j2 = if j < i { j } else { j + 1 };
                assert(r[j] == q[j2]);
            }
        }
    }
}

/// The queue after a series of replication outcomes `(key, value,
/// delivered)`, oldest first: a delivered replication drops its key, a failed
/// one queues its value.
pub open spec fn after_outcomes(q: Seq<QueueEntry>, outcomes: Seq<(Seq<char>, Option<Seq<u8>>, bool)>) -> Seq<QueueEntry>
    decreases outcomes.len(),
{
    if outcomes.len() == 0 {
        q
    } else {
        let before = after_outcomes(q, outcomes.drop_last());
        let (k, v, delivered) = outcomes.last();
        if delivered {
            queue_remove(before, k)
        } else {
            queue_insert(before, k, v)
        }
    }
}

/// What the latest outcome concerning `k` leaves in the queue for it, as
/// `queue_lookup` would answer: `Some(None)` after a delivery, `Some(Some(v))`
/// after a failure to send `v`; `None` when no outcome concerns `k`.
pub open spec fn latest_for(outcomes: Seq<(Seq<char>, Option<Seq<u8>>, bool)>, k: Seq<char>) -> Option<Option<Option<Seq<u8>>>>
    decreases outcomes.len(),
{
    if outcomes.len() == 0 {
        None
    } else if outcomes.last().0 == k {
        if outcomes.last().2 {
            Some(None)
        } else {
            Some(Some(outcomes.last().1))
        }
    } else {
        latest_for(outcomes.drop_last(), k)
    }
}

/// For every key the queue holds the value of the latest failed replication
/// of it, unless a later replication of it was delivered, in which case it
/// holds nothing; keys no outcome concerns keep what they had.
pub proof fn lemma_queue_tracks_latest_outcome(q: Seq<QueueEntry>, outcomes: Seq<(Seq<char>, Option<Seq<u8>>, bool)>, k: Seq<char>)
    requires
        keys_unique(q),
    ensures
        keys_unique(after_outcomes(q, outcomes)),
        queue_lookup(after_outcomes(q, outcomes), k) == match latest_for(outcomes, k) {
            Some(latest) => latest,
            None => queue_lookup(q, k),
        },
    decreases outcomes.len(),
{
    if outcomes.len() > 0 {
        let prefix = outcomes.drop_last();
        lemma_queue_tracks_latest_outcome(q, prefix, k);
        let before = after_outcomes(q, prefix);
        let (k2, v, delivered) = outcomes.last();
        if delivered {
            lemma_remove_keeps_unique(before, k2);
            lemma_lookup_after_remove(before, k2, k);
        } else {
            lemma_insert_keeps_unique(before, k2, v);
            lemma_lookup_after_insert(before, k2, v, k);
        }
    }
}

/// The queue after the entries for `keys` are delivered one after another.
pub open spec fn remove_keys(q: Seq<QueueEntry>, keys: Seq<Seq<char>>) -> Seq<QueueEntry>
    decreases keys.len(),
{
    if keys.len() == 0 {
        q
    } else {
        remove_keys(queue_remove(q, keys[0]), keys.drop_first())
    }
}

/// The keys of a queue, in order.
pub open spec fn queue_keys(q: Seq<QueueEntry>) -> Seq<Seq<char>> {
    q.map_values(|e: QueueEntry| e.0)
}

/// Delivering the oldest `n` entries one after another leaves exactly the
/// entries after them, in their order.
pub proof fn lemma_delivering_oldest_leaves_rest(q: Seq<QueueEntry>, n: int)
    requires
        keys_unique(q),
        0 <= n <= q.len(),
    ensures
        remove_keys(q, queue_keys(q.take(n))) == q.skip(n),
    decreases n,
{
    if n == 0 {
        assert(queue_keys(q.take(0)) =~= Seq::<Seq<char>>::empty());
        assert(q.skip(0) =~= q);
    } else {
        let keys = queue_keys(q.take(n));
        lemma_key_index_unique(q, q[0].0, 0);
        assert(keys[0] == q[0].0);
        let rest = q.skip(1);
        assert(queue_remove(q, keys[0]) =~= rest);
        assert(keys_unique(rest)) by {
            assert forall|i: int, j: int| 0 <= i < rest.len() && 0 <= j < rest.len() && i != j implies rest[i].0
                != rest[j].0 by {
                assert(rest[i] == q[i + 1]);
                assert(rest[j] == q[j + 1]);
            }
        }
        assert(keys.drop_first() =~= queue_keys(rest.take(n - 1)));
        lemma_delivering_oldest_leaves_rest(rest, n - 1);
        assert(rest.skip(n - 1) =~= q.skip(n));
    }
}

/// Finds the position of `key` in `v`, if it is there.
pub(crate) fn find_pending(v: &Vec<PendingEntry>, key: &String) -> (r: Option<usize>)
    requires
        keys_unique(entries_view(v@)),
    ensures
        match r {
            Some(i) => i < v@.len() && queue_has(entries_view(v@), key@) && key_index(
                entries_view(v@),
                key@,
            ) == i,
            None => !queue_has(entries_view(v@), key@),
        },
{
    let ghost q = entries_view(v@);
    let mut i: usize = 0;
    while i < v.len()
        invariant
            q == entries_view(v@),
            keys_unique(q),
            i <= v@.len(),
            forall|j: int| 0 <= j < i ==> q[j].0 != key@,
        decreases v@.len() - i,
    {
        if v[i].vss_key == *key {
            proof {
                lemma_key_index_unique(q, key@, i as int);
            }
            return Some(i);
        }
        i = i + 1;
    }
    None
}

/// Copies a byte buffer.
pub(crate) fn copy_bytes(b: &Vec<u8>) -> (r: Vec<u8>)
    ensures
        r@ == b@,
{
    let mut r: Vec<u8> = Vec::new();
    let mut i: usize = 0;
    while i < b.len()
        invariant
            i <= b@.len(),
            r@ == b@.subrange(0, i as int),
        decreases b@.len() - i,
    {
        r.push(b[i]);
        i = i + 1;
        assert(r@ =~= b@.subrange(0, i as int));
    }
    assert(b@.subrange(0, b@.len() as int) =~= b@);
    r
}

/// Copies optional bytes.
pub(crate) fn copy_opt_bytes(b: &Option<Vec<u8>>) -> (r: Option<Vec<u8>>)
    ensures
        opt_bytes(r) == opt_bytes(*b),
{
    match b {
        Some(v) => Some(copy_bytes(v)),
        None => None,
    }
}

/// Queues `value` under `key` in `v`, as `queue_insert` says.
pub(crate) fn insert_pending(v: &mut Vec<PendingEntry>, key: String, value: Option<Vec<u8>>)
    requires
        keys_unique(entries_view(old(v)@)),
    ensures
        entries_view(final(v)@) == queue_insert(entries_view(old(v)@), key@, opt_bytes(value)),
        keys_unique(entries_view(final(v)@)),
{
    let ghost q = entries_view(v@);
    let ghost k = key@;
    let ghost val = opt_bytes(value);
    proof {
        lemma_insert_keeps_unique(q, k, val);
    }
    match find_pending(v, &key) {
        Some(i) => {
            v.set(i, PendingEntry { vss_key: key, value });
            assert(entries_view(v@) =~= q.update(i as int, (k, val)));
        },
        None => {
            v.push(PendingEntry { vss_key: key, value });
            assert(entries_view(v@) =~= q.push((k, val)));
        },
    }
}

/// Drops the entry for `key` from `v`, as `queue_remove` says.
pub(crate) fn remove_pending(v: &mut Vec<PendingEntry>, key: &String)
    requires
        keys_unique(entries_view(old(v)@)),
    ensures
        entries_view(final(v)@) == queue_remove(entries_view(old(v)@), key@),
        keys_unique(entries_view(final(v)@)),
{
    let ghost q = entries_view(v@);
    proof {
        lemma_remove_keeps_unique(q, key@);
    }
    match find_pending(v, key) {
        Some(i) => {
            let ghost old_v = v@;
            v.remove(i);
            assert(entries_view(v@) =~= q.remove(i as int)) by {
                assert forall|j: int| 0 <= j < v@.len() implies #[trigger] entries_view(v@)[j]
                    == q.remove(i as int)[j] by {
                    if j < i {
                        assert(v@[j] == old_v[j]);
                    } else {
                        assert(v@[j] == old_v[j + 1]);
                    }
                }
            }
        },
        None => {},
    }
}

} // verus!
