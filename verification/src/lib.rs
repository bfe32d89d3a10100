//! Replication core of an RGB Lightning node's key-value persistence: the
//! mapping between LDK's `(primary_namespace, secondary_namespace, key)`
//! triples and flat VSS keys, the durable queue of pending remote writes, and
//! the decisions that drive local, remote-first and routed stores.

pub mod vss_keys;

pub use vss_keys::vss_key;
pub mod io_error;
pub mod pending;
pub mod ldk_keys;
pub mod synced_kv_store;
pub mod vss_kv_store;
pub mod remote_first;
pub mod decimal;
pub mod text;
pub mod args;
pub mod node;
pub mod channel_peers;
pub mod mnemonic;
pub mod logger;
