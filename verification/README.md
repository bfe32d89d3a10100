# rgb_lightning_node persistence core

The key-value persistence layer of an RGB Lightning node, verified with Verus.

- `src/` — the verified library:
  - `vss_keys`: the mapping between LDK's `(primary, secondary, key)` triples
    and flat VSS keys, its parser and prefix listing, with the round-trip laws;
  - `pending`, `synced_kv_store`: the durable queue of replications that did
    not reach VSS yet and the decisions of the local store that replicates to
    VSS (journal rows, retries, drains, flushes, restores);
  - `vss_kv_store`: requests, responses and version tracking of the VSS store;
  - `remote_first`: the remote-first store's retry backoff and fallbacks, and
    the background processor's per-key routing;
  - `args`: resolution of start-up settings from defaults, file and command line;
  - `channel_peers`, `logger`, `mnemonic`, `node`: the peer file, log lines,
    mnemonic row and node handle.
- `app/` — the I/O around it: the VSS client, the local store driver, async
  runtimes and locks, the command line and configuration file, file access.
- `tests/` — tests of the library on concrete values.

The queue of pending replications is a `Vec` of entries with no repeated key,
rather than a hash map: a drain takes the oldest entries in order, and vstd's
specified string-keyed map (`StringHashMap`) offers no iteration to take a
batch from.
