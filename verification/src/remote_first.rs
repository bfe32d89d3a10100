//! The decisions of the remote-first store and of the background
//! processor's store router. A remote-first write resolves only after VSS
//! durably stores it, then mirrors to the local store best-effort; a VSS
//! failure fails the write (no silent local-only success). Transient VSS
//! failures are retried with capped exponential backoff until the server
//! recovers or the node stops; permanent errors fail at once.
use vstd::prelude::*;

use crate::io_error::{IoError, IoErrorKind};
use crate::text::str_equals;
use crate::ldk_keys::{
    channel_manager_location, network_graph_location, output_sweeper_location, scorer_location,
};

verus! {

/// Initial delay between VSS retry attempts during an outage, in milliseconds.
pub const RETRY_INITIAL_DELAY_MS: u64 = 500;

/// Cap for the exponential retry backoff, in milliseconds.
pub const RETRY_MAX_DELAY_MS: u64 = 10_000;

/// The backoff delay after `n` transient failures: the initial delay doubled
/// `n - 1` times, capped.
pub open spec fn spec_delay_after(n: nat) -> int
    decreases n,
{
    if n == 0 {
        RETRY_INITIAL_DELAY_MS as int
    } else {
        let d = 2 * spec_delay_after((n - 1) as nat);
        if d < RETRY_MAX_DELAY_MS {
            d
        } else {
            RETRY_MAX_DELAY_MS as int
        }
    }
}

/// What a retry loop does next.
#[derive(Debug, PartialEq, Eq)]
pub enum RetryStep {
    /// Stop with this result.
    Done(Result<(), IoError>),
    /// Sleep `delay_ms`, then try again; if the node stops meanwhile, stop
    /// with `error`.
    Retry { delay_ms: u64, error: IoError },
}

/// The state of a loop that runs an operation until it succeeds, retrying
/// transient failures.
pub struct RetryState {
    delay_ms: u64,
    attempts: u64,
}

impl RetryState {
    /// The number of transient failures so far.
    pub closed spec fn spec_attempts(&self) -> nat {
        self.attempts as nat
    }

    /// The delay before the next retry.
    pub closed spec fn spec_delay(&self) -> int {
        self.delay_ms as int
    }

    #[verifier::type_invariant]
    spec fn inv(self) -> bool {
        self.delay_ms == spec_delay_after(self.attempts as nat)
    }

    /// A loop that has not run yet.
    pub fn new() -> (r: Self)
        ensures
            r.spec_attempts() == 0,
            r.spec_delay() == RETRY_INITIAL_DELAY_MS,
    {
        RetryState { delay_ms: RETRY_INITIAL_DELAY_MS, attempts: 0 }
    }

    /// The number of transient failures so far.
    pub fn attempts(&self) -> (r: u64)
        ensures
            r == self.spec_attempts(),
    {
        self.attempts
    }

    /// The delay before the next retry is the backoff after the failures so far.
    pub fn delay_ms(&self) -> (r: u64)
        ensures
            r == self.spec_delay(),
            r == spec_delay_after(self.spec_attempts()),
    {
        proof {
            use_type_invariant(self);
        }
        self.delay_ms
    }

    /// Takes the outcome of one attempt. Success and permanent failures end
    /// the loop; a transient failure is retried after the current delay,
    /// which then doubles up to the cap.
    pub fn on_result(&mut self, result: Result<(), IoError>, transient: bool) -> (r: RetryStep)
        ensures
            RETRY_INITIAL_DELAY_MS <= final(self).spec_delay() <= RETRY_MAX_DELAY_MS,
            final(self).spec_delay() == spec_delay_after(final(self).spec_attempts()),
            match result {
                Ok(()) => r == RetryStep::Done(Ok(())) && *final(self) == *old(self),
                Err(e) => if transient {
                    &&& r == RetryStep::Retry { delay_ms: old(self).spec_delay() as u64, error: e }
                    &&& final(self).spec_delay() == if 2 * old(self).spec_delay() < RETRY_MAX_DELAY_MS {
                        2 * old(self).spec_delay()
                    } else {
                        RETRY_MAX_DELAY_MS as int
                    }
                    &&& final(self).spec_attempts() == if old(self).spec_attempts() < u64::MAX {
                        old(self).spec_attempts() + 1
                    } else {
                        old(self).spec_attempts()
                    }
                } else {
                    r == RetryStep::Done(Err(e)) && *final(self) == *old(self)
                },
            },
    {
        proof {
            use_type_invariant(&*self);
            lemma_backoff_schedule(self.attempts as nat);
            lemma_backoff_saturates(self.attempts as nat);
        }
        match result {
            Ok(()) => RetryStep::Done(Ok(())),
            Err(e) => {
                if transient {
                    let delay_ms = self.delay_ms;
                    let doubled = delay_ms * 2;
                    let next = if doubled < RETRY_MAX_DELAY_MS {
                        doubled
                    } else {
                        RETRY_MAX_DELAY_MS
                    };
                    let attempts = if self.attempts < u64::MAX {
                        self.attempts + 1
                    } else {
                        self.attempts
                    };
                    *self = RetryState { delay_ms: next, attempts };
                    RetryStep::Retry { delay_ms, error: e }
                } else {
                    RetryStep::Done(Err(e))
                }
            },
        }
    }
}

/// The backoff schedule: after `n` transient failures the loop waits the
/// initial delay doubled `n` times, capped, and never more than the cap nor
/// less than the initial delay.
pub proof fn lemma_backoff_schedule(n: nat)
    ensures
        RETRY_INITIAL_DELAY_MS <= spec_delay_after(n) <= RETRY_MAX_DELAY_MS,
        spec_delay_after(n) <= spec_delay_after(n + 1),
    decreases n,
{
    if n > 0 {
        lemma_backoff_schedule((n - 1) as nat);
    }
}

/// From the fifth transient failure on, the backoff stays at the cap.
pub proof fn lemma_backoff_saturates(n: nat)
    ensures
        n >= 5 ==> spec_delay_after(n) == RETRY_MAX_DELAY_MS,
    decreases n,
{
    if n > 0 {
        lemma_backoff_saturates((n - 1) as nat);
        lemma_backoff_schedule((n - 1) as nat);
    }
    if n == 5 {
        assert(spec_delay_after(1) == 1000) by {
            assert(spec_delay_after(0) == 500);
        }
        assert(spec_delay_after(2) == 2000);
        assert(spec_delay_after(3) == 4000);
        assert(spec_delay_after(4) == 8000);
    }
}

/// What a remote-first read does after the local fast path.
#[derive(Debug, PartialEq, Eq)]
pub enum ReadStep {
    /// Answer with this result.
    Done(Result<Vec<u8>, IoError>),
    /// The local copy is missing: answer with what the remote store reads.
    ReadRemote,
}

/// Remote-first reads go local first and fall back to VSS only when the
/// local copy is missing.
pub fn read_step(local: Result<Vec<u8>, IoError>, has_remote: bool) -> (r: ReadStep)
    ensures
        match local {
            Ok(v) => r == ReadStep::Done(Ok(v)),
            Err(e) => if e.kind == IoErrorKind::NotFound && has_remote {
                r == ReadStep::ReadRemote
            } else {
                r == ReadStep::Done(Err(e))
            },
        },
{
    match local {
        Ok(v) => ReadStep::Done(Ok(v)),
        Err(e) => {
            if has_remote && e.kind == IoErrorKind::NotFound {
                ReadStep::ReadRemote
            } else {
                ReadStep::Done(Err(e))
            }
        },
    }
}

/// What a remote-first write or removal does once the remote store has
/// answered (after retries).
#[derive(Debug, Clone, PartialEq, Eq)]
pub enum MirrorStep {
    /// VSS failed: the operation fails with its error; nothing is mirrored.
    Fail(IoError),
    /// VSS durably took it: mirror to the local store, then succeed whatever
    /// the local store answers.
    Mirror,
}

/// A VSS failure fails a remote-first write; success leads to the local
/// mirror.
pub fn after_remote_first(remote: Result<(), IoError>) -> (r: MirrorStep)
    ensures
        match remote {
            Ok(()) => r == MirrorStep::Mirror,
            Err(e) => r == MirrorStep::Fail(e),
        },
{
    match remote {
        Ok(()) => MirrorStep::Mirror,
        Err(e) => MirrorStep::Fail(e),
    }
}

/// How the background processor's persistence is routed per key.
#[derive(Debug, Clone, Copy, PartialEq, Eq)]
pub enum BpRoute {
    /// The channel manager and the output sweeper: remote-first, since the
    /// backup must never lag the monitors and forgotten sweeper outputs are
    /// unrecoverable.
    RemoteFirst,
    /// The network graph and the scorer: local only (rebuildable).
    LocalOnly,
    /// Anything else: best-effort replication.
    Rest,
}

/// The location is `(p, s, k)`.
pub open spec fn at_location(primary: Seq<char>, secondary: Seq<char>, key: Seq<char>, p: Seq<char>, s: Seq<char>, k: Seq<char>) -> bool {
    primary == p && secondary == s && key == k
}

fn is_location(primary: &str, secondary: &str, key: &str, loc: (&str, &str, &str)) -> (r: bool)
    ensures
        r == at_location(primary@, secondary@, key@, loc.0@, loc.1@, loc.2@),
{
    str_equals(primary, loc.0) && str_equals(secondary, loc.1) && str_equals(key, loc.2)
}

/// Routes one key of the background processor's persistence.
pub fn bp_route(primary: &str, secondary: &str, key: &str) -> (r: BpRoute)
    ensures
        r == if primary@.len() == 0 && secondary@.len() == 0 && (key@ == seq![
            'm',
            'a',
            'n',
            'a',
            'g',
            'e',
            'r',
        ] || key@ == seq!['o', 'u', 't', 'p', 'u', 't', '_', 's', 'w', 'e', 'e', 'p', 'e', 'r']) {
            BpRoute::RemoteFirst
        } else if primary@.len() == 0 && secondary@.len() == 0 && (key@ == seq![
            'n',
            'e',
            't',
            'w',
            'o',
            'r',
            'k',
            '_',
            'g',
            'r',
            'a',
            'p',
            'h',
        ] || key@ == seq!['s', 'c', 'o', 'r', 'e', 'r']) {
            BpRoute::LocalOnly
        } else {
            BpRoute::Rest
        },
{
    proof {
        assert(primary@.len() == 0 ==> primary@ =~= Seq::<char>::empty());
        assert(secondary@.len() == 0 ==> secondary@ =~= Seq::<char>::empty());
    }
    if is_location(primary, secondary, key, channel_manager_location()) || is_location(
        primary,
        secondary,
        key,
        output_sweeper_location(),
    ) {
        BpRoute::RemoteFirst
    } else if is_location(primary, secondary, key, network_graph_location()) || is_location(
        primary,
        secondary,
        key,
        scorer_location(),
    ) {
        BpRoute::LocalOnly
    } else {
        BpRoute::Rest
    }
}

} // verus!
