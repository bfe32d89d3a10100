//! The request building, response handling and version tracking of a
//! key-value store backed by a VSS (Versioned Storage Service) server. The
//! network exchange itself is the caller's: it sends each request it is
//! handed and hands the response back.
use vstd::hash_map::StringHashMap;
use vstd::prelude::*;

use crate::io_error::{IoError, IoErrorKind};
use crate::vss_keys::{spec_strip_prefix, spec_vss_key, strip_prefix, vss_key};

verus! {

/// A versioned key-value pair as VSS exchanges it.
#[derive(Debug, Clone, PartialEq, Eq)]
pub struct KeyValue {
    pub key: String,
    pub version: i64,
    pub value: Vec<u8>,
}

/// Fetch one object.
#[derive(Debug, Clone, PartialEq, Eq)]
pub struct GetObjectRequest {
    pub store_id: String,
    pub key: String,
}

/// The answer to a `GetObjectRequest`.
#[derive(Debug, Clone, PartialEq, Eq)]
pub struct GetObjectResponse {
    pub value: Option<KeyValue>,
}

/// Write and delete objects in one transaction.
#[derive(Debug, Clone, PartialEq, Eq)]
pub struct PutObjectRequest {
    pub store_id: String,
    pub global_version: Option<i64>,
    pub transaction_items: Vec<KeyValue>,
    pub delete_items: Vec<KeyValue>,
}

/// List the keys (and versions) of a store, a page at a time.
#[derive(Debug, Clone, PartialEq, Eq)]
pub struct ListKeyVersionsRequest {
    pub store_id: String,
    pub key_prefix: Option<String>,
    pub page_size: Option<i32>,
    pub page_token: Option<String>,
}

/// One page of a key listing.
#[derive(Debug, Clone, PartialEq, Eq)]
pub struct ListKeyVersionsResponse {
    pub key_versions: Vec<KeyValue>,
    pub next_page_token: Option<String>,
}

/// A failed VSS call: whether the server reported that the key does not
/// exist, and the error as text.
#[derive(Debug, Clone, PartialEq, Eq)]
pub struct VssFailure {
    pub no_such_key: bool,
    pub message: String,
}

/// The VSS client's retry policy: exponential backoff from this base delay,
/// in milliseconds, ...
pub const CLIENT_RETRY_BASE_DELAY_MS: u64 = 100;

/// ... for at most this many attempts ...
pub const CLIENT_RETRY_MAX_ATTEMPTS: u32 = 3;

/// ... and at most this total delay, in seconds.
pub const CLIENT_RETRY_MAX_TOTAL_DELAY_SECS: u64 = 5;

/// The version VSS gives an object after a non-conditional write.
pub const VERSION_AFTER_UNCONDITIONAL_WRITE: i64 = 1;

/// The version that makes a put or delete non-conditional.
pub const UNCONDITIONAL_VERSION: i64 = -1;

/// The state of a VSS store as the specification sees it.
pub struct VssKvView {
    pub store_id: Seq<char>,
    /// The last version seen for each VSS key, for optimistic locking.
    pub versions: Map<Seq<char>, i64>,
}

/// The page token to continue a listing with: a non-empty token continues,
/// anything else ends the listing.
pub open spec fn spec_next_page(token: Option<Seq<char>>) -> Option<Seq<char>> {
    match token {
        Some(t) => if t.len() > 0 {
            Some(t)
        } else {
            None
        },
        None => None,
    }
}

pub open spec fn opt_string(s: Option<String>) -> Option<Seq<char>> {
    match s {
        Some(t) => Some(t@),
        None => None,
    }
}

/// The key names a listing page contributes under `prefix`: the keys that
/// start with it, with it cut off, in page order.
pub open spec fn page_keys(kvs: Seq<KeyValue>, prefix: Seq<char>) -> Seq<Seq<char>>
    decreases kvs.len(),
{
    if kvs.len() == 0 {
        Seq::empty()
    } else {
        let p = page_keys(kvs.drop_last(), prefix);
        match spec_strip_prefix(kvs.last().key@, prefix) {
            Some(name) => p.push(name),
            None => p,
        }
    }
}

/// The version cache after a listing page under `prefix`: each listed key
/// that starts with the prefix records its listed version.
pub open spec fn page_versions(m: Map<Seq<char>, i64>, kvs: Seq<KeyValue>, prefix: Seq<char>) -> Map<Seq<char>, i64>
    decreases kvs.len(),
{
    if kvs.len() == 0 {
        m
    } else {
        let m2 = page_versions(m, kvs.drop_last(), prefix);
        match spec_strip_prefix(kvs.last().key@, prefix) {
            Some(_) => m2.insert(kvs.last().key@, kvs.last().version),
            None => m2,
        }
    }
}

/// The text of a failure: `context` followed by the failure's own text.
pub open spec fn failure_text(context: Seq<char>, f: VssFailure) -> Seq<char> {
    context + f.message@
}

/// Key-value store backed by a VSS server for one `store_id`. Maps LDK's
/// `(primary_namespace, secondary_namespace, key)` triple to a single VSS key
/// string and tracks versions for optimistic locking.
pub struct VssKvStore {
    store_id: String,
    versions: StringHashMap<i64>,
}

impl View for VssKvStore {
    type V = VssKvView;

    closed spec fn view(&self) -> VssKvView {
        VssKvView { store_id: self.store_id@, versions: self.versions@ }
    }
}

fn failed(context: &str, f: &VssFailure) -> (e: IoError)
    ensures
        e.kind == IoErrorKind::Other,
        e.message@ == failure_text(context@, *f),
{
    let mut m = String::from_str(context);
    m.append(f.message.as_str());
    IoError::new(IoErrorKind::Other, m)
}

fn not_found() -> (e: IoError)
    ensures
        e.kind == IoErrorKind::NotFound,
        e.message@ == "Key not found"@,
{
    IoError::new(IoErrorKind::NotFound, String::from_str("Key not found"))
}

impl VssKvStore {
    /// A store for the keyspace `store_id` (derived from the node pubkey),
    /// with no versions seen yet.
    pub fn new(store_id: String) -> (r: Self)
        ensures
            r@.store_id == store_id@,
            r@.versions == Map::<Seq<char>, i64>::empty(),
    {
        VssKvStore { store_id, versions: StringHashMap::new() }
    }

    /// The store_id used by this store.
    pub fn store_id(&self) -> (r: &str)
        ensures
            r@ == self@.store_id,
    {
        self.store_id.as_str()
    }

    /// The cached version for a key, defaulting to 0 (first write).
    pub fn get_cached_version(&self, vss_key: &str) -> (r: i64)
        ensures
            r == if self@.versions.contains_key(vss_key@) {
                self@.versions[vss_key@]
            } else {
                0
            },
    {
        match self.versions.get(vss_key) {
            Some(v) => *v,
            None => 0,
        }
    }

    /// Records the version of a key after a successful write or read.
    pub fn update_cached_version(&mut self, vss_key: &str, version: i64)
        ensures
            final(self)@.versions == old(self)@.versions.insert(vss_key@, version),
            final(self)@.store_id == old(self)@.store_id,
    {
        self.versions.insert(vss_key.to_owned(), version);
    }

    /// Forgets the version of a key after deletion.
    pub fn remove_cached_version(&mut self, vss_key: &str)
        ensures
            final(self)@.versions == old(self)@.versions.remove(vss_key@),
            final(self)@.store_id == old(self)@.store_id,
    {
        self.versions.remove(vss_key);
    }

    /// The request that reads `key` of the namespace pair.
    pub fn read_request(&self, primary_namespace: &str, secondary_namespace: &str, key: &str) -> (r: GetObjectRequest)
        ensures
            r.store_id@ == self@.store_id,
            r.key@ == spec_vss_key(primary_namespace@, secondary_namespace@, key@),
    {
        GetObjectRequest {
            store_id: self.store_id.clone(),
            key: vss_key(primary_namespace, secondary_namespace, key),
        }
    }

    /// The outcome of reading `vss_key`: the value, with its version
    /// recorded; `NotFound` when the server has no value or reports no such
    /// key; any other failure as `Other`.
    pub fn finish_read(&mut self, vss_key: &str, response: Result<GetObjectResponse, VssFailure>) -> (r: Result<Vec<u8>, IoError>)
        ensures
            final(self)@.store_id == old(self)@.store_id,
            match response {
                Ok(resp) => match resp.value {
                    Some(kv) => {
                        &&& r matches Ok(v)
                        &&& v@ == kv.value@
                        &&& final(self)@.versions == old(self)@.versions.insert(vss_key@, kv.version)
                    },
                    None => {
                        &&& r matches Err(e)
                        &&& e.kind == IoErrorKind::NotFound
                        &&& final(self)@.versions == old(self)@.versions
                    },
                },
                Err(f) => {
                    &&& final(self)@.versions == old(self)@.versions
                    &&& r matches Err(e)
                    &&& if f.no_such_key {
                        e.kind == IoErrorKind::NotFound
                    } else {
                        e.kind == IoErrorKind::Other && e.message@ == failure_text(
                            "VSS read failed: "@,
                            f,
                        )
                    }
                },
            },
    {
        match response {
            Ok(resp) => match resp.value {
                Some(kv) => {
                    self.update_cached_version(vss_key, kv.version);
                    Ok(kv.value)
                },
                None => Err(not_found()),
            },
            Err(f) => {
                if f.no_such_key {
                    Err(not_found())
                } else {
                    Err(failed("VSS read failed: ", &f))
                }
            },
        }
    }

    /// The request that writes `buf` under `key` of the namespace pair,
    /// non-conditionally (version -1) to avoid version conflicts under
    /// high-frequency LDK persistence.
    pub fn write_request(&self, primary_namespace: &str, secondary_namespace: &str, key: &str, buf: Vec<u8>) -> (r: PutObjectRequest)
        ensures
            r.store_id@ == self@.store_id,
            r.global_version is None,
            r.delete_items@.len() == 0,
            r.transaction_items@.len() == 1,
            r.transaction_items@[0].key@ == spec_vss_key(primary_namespace@, secondary_namespace@, key@),
            r.transaction_items@[0].version == UNCONDITIONAL_VERSION,
            r.transaction_items@[0].value@ == buf@,
    {
        let mut items: Vec<KeyValue> = Vec::new();
        items.push(
            KeyValue {
                key: vss_key(primary_namespace, secondary_namespace, key),
                version: UNCONDITIONAL_VERSION,
                value: buf,
            },
        );
        PutObjectRequest {
            store_id: self.store_id.clone(),
            global_version: None,
            transaction_items: items,
            delete_items: Vec::new(),
        }
    }

    /// The outcome of writing `vss_key`: after a non-conditional write the
    /// server resets the version to 1.
    pub fn finish_write(&mut self, vss_key: &str, response: Result<(), VssFailure>) -> (r: Result<(), IoError>)
        ensures
            final(self)@.store_id == old(self)@.store_id,
            match response {
                Ok(()) => r is Ok && final(self)@.versions == old(self)@.versions.insert(
                    vss_key@,
                    VERSION_AFTER_UNCONDITIONAL_WRITE,
                ),
                Err(f) => {
                    &&& final(self)@.versions == old(self)@.versions
                    &&& r matches Err(e)
                    &&& e.kind == IoErrorKind::Other
                    &&& e.message@ == failure_text("VSS write failed: "@, f)
                },
            },
    {
        match response {
            Ok(()) => {
                self.update_cached_version(vss_key, VERSION_AFTER_UNCONDITIONAL_WRITE);
                Ok(())
            },
            Err(f) => Err(failed("VSS write failed: ", &f)),
        }
    }

    /// The request that deletes `key` of the namespace pair,
    /// non-conditionally (version -1).
    pub fn remove_request(&self, primary_namespace: &str, secondary_namespace: &str, key: &str) -> (r: PutObjectRequest)
        ensures
            r.store_id@ == self@.store_id,
            r.global_version is None,
            r.transaction_items@.len() == 0,
            r.delete_items@.len() == 1,
            r.delete_items@[0].key@ == spec_vss_key(primary_namespace@, secondary_namespace@, key@),
            r.delete_items@[0].version == UNCONDITIONAL_VERSION,
            r.delete_items@[0].value@.len() == 0,
    {
        let mut items: Vec<KeyValue> = Vec::new();
        items.push(
            KeyValue {
                key: vss_key(primary_namespace, secondary_namespace, key),
                version: UNCONDITIONAL_VERSION,
                value: Vec::new(),
            },
        );
        PutObjectRequest {
            store_id: self.store_id.clone(),
            global_version: None,
            transaction_items: Vec::new(),
            delete_items: items,
        }
    }

    /// The outcome of deleting `vss_key`: its cached version is forgotten.
    pub fn finish_remove(&mut self, vss_key: &str, response: Result<(), VssFailure>) -> (r: Result<(), IoError>)
        ensures
            final(self)@.store_id == old(self)@.store_id,
            match response {
                Ok(()) => r is Ok && final(self)@.versions == old(self)@.versions.remove(vss_key@),
                Err(f) => {
                    &&& final(self)@.versions == old(self)@.versions
                    &&& r matches Err(e)
                    &&& e.kind == IoErrorKind::Other
                    &&& e.message@ == failure_text("VSS remove failed: "@, f)
                },
            },
    {
        match response {
            Ok(()) => {
                self.remove_cached_version(vss_key);
                Ok(())
            },
            Err(f) => Err(failed("VSS remove failed: ", &f)),
        }
    }

    /// The request for one page of keys: under `prefix` when given, from
    /// `page_token` when given.
    pub fn list_request(&self, prefix: Option<String>, page_token: Option<String>) -> (r: ListKeyVersionsRequest)
        ensures
            r.store_id@ == self@.store_id,
            opt_string(r.key_prefix) == opt_string(prefix),
            r.page_size is None,
            opt_string(r.page_token) == opt_string(page_token),
    {
        ListKeyVersionsRequest {
            store_id: self.store_id.clone(),
            key_prefix: prefix,
            page_size: None,
            page_token,
        }
    }

    /// The request that fetches one object by its VSS key.
    pub fn get_request(&self, vss_key: &str) -> (r: GetObjectRequest)
        ensures
            r.store_id@ == self@.store_id,
            r.key@ == vss_key@,
    {
        GetObjectRequest { store_id: self.store_id.clone(), key: vss_key.to_owned() }
    }

    /// Takes one listing page under `prefix`: appends to `keys` the names of
    /// the listed keys that start with the prefix, with it cut off, records
    /// their versions, and returns the token of the next page, if any.
    pub fn list_page(&mut self, prefix: &str, keys: &mut Vec<String>, page: ListKeyVersionsResponse) -> (next: Option<String>)
        ensures
            final(self)@.store_id == old(self)@.store_id,
            final(self)@.versions == page_versions(old(self)@.versions, page.key_versions@, prefix@),
            final(keys)@.map_values(|k: String| k@) == old(keys)@.map_values(|k: String| k@) + page_keys(
                page.key_versions@,
                prefix@,
            ),
            opt_string(next) == spec_next_page(opt_string(page.next_page_token)),
    {
        let kvs = &page.key_versions;
        let ghost kv = kvs@;
        let ghost keys0 = keys@.map_values(|k: String| k@);
        let ghost m0 = self@.versions;
        let mut i: usize = 0;
        assert(kv.subrange(0, 0) =~= Seq::<KeyValue>::empty());
        assert(keys@.map_values(|k: String| k@) =~= keys0 + page_keys(kv.subrange(0, 0), prefix@));
        while i < kvs.len()
            invariant
                i <= kv.len(),
                kv == kvs@,
                self@.store_id == old(self)@.store_id,
                self@.versions == page_versions(m0, kv.subrange(0, i as int), prefix@),
                keys@.map_values(|k: String| k@) == keys0 + page_keys(kv.subrange(0, i as int), prefix@),
            decreases kv.len() - i,
        {
            let ghost after = kv.subrange(0, i + 1);
            assert(after.drop_last() =~= kv.subrange(0, i as int));
            assert(after.last() == kv[i as int]);
            let item = &kvs[i];
            match strip_prefix(item.key.as_str(), prefix) {
                Some(name) => {
                    let ghost before = keys@;
                    keys.push(name);
                    assert(keys@.map_values(|k: String| k@) =~= before.map_values(|k: String| k@).push(
                        name@,
                    ));
                    self.update_cached_version(item.key.as_str(), item.version);
                },
                None => {},
            }
            i = i + 1;
        }
        assert(kv.subrange(0, kv.len() as int) =~= kv);
        next_page(page.next_page_token)
    }

    /// Takes the answer to fetching one listed object during a full
    /// download: a present value joins `all` as `(key, value)`; an absent
    /// value or a missing key is skipped; any other failure ends the
    /// download.
    pub fn download_item(&self, all: &mut Vec<(String, Vec<u8>)>, response: Result<GetObjectResponse, VssFailure>) -> (r: Result<(), IoError>)
        ensures
            match response {
                Ok(resp) => r is Ok && match resp.value {
                    Some(kv) => final(all)@.len() == old(all)@.len() + 1 && final(all)@.take(
                        old(all)@.len() as int,
                    ) == old(all)@ && final(all)@.last().0@ == kv.key@ && final(all)@.last().1@
                        == kv.value@,
                    None => final(all)@ == old(all)@,
                },
                Err(f) => if f.no_such_key {
                    r is Ok && final(all)@ == old(all)@
                } else {
                    &&& final(all)@ == old(all)@
                    &&& r matches Err(e)
                    &&& e.kind == IoErrorKind::Other
                    &&& e.message@ == failure_text("VSS get_object failed during download_all: "@, f)
                },
            },
    {
        match response {
            Ok(resp) => {
                match resp.value {
                    Some(kv) => {
                        let ghost before = all@;
                        all.push((kv.key, kv.value));
                        assert(all@.take(before.len() as int) =~= before);
                    },
                    None => {},
                }
                Ok(())
            },
            Err(f) => {
                if f.no_such_key {
                    Ok(())
                } else {
                    Err(failed("VSS get_object failed during download_all: ", &f))
                }
            },
        }
    }
}

/// The token to continue a listing with; `None` ends it.
pub fn next_page(token: Option<String>) -> (r: Option<String>)
    ensures
        opt_string(r) == spec_next_page(opt_string(token)),
{
    match token {
        Some(t) => {
            if t.as_str().is_empty() {
                None
            } else {
                Some(t)
            }
        },
        None => None,
    }
}

/// The error for a failed key listing.
pub fn list_failed(f: &VssFailure) -> (e: IoError)
    ensures
        e.kind == IoErrorKind::Other,
        e.message@ == failure_text("VSS list failed: "@, *f),
{
    failed("VSS list failed: ", f)
}

/// The error for a failed listing during a full download.
pub fn download_list_failed(f: &VssFailure) -> (e: IoError)
    ensures
        e.kind == IoErrorKind::Other,
        e.message@ == failure_text("VSS list_key_versions failed: "@, *f),
{
    failed("VSS list_key_versions failed: ", f)
}

} // verus!
