//! Where LDK persists its singleton objects, as `lightning::util::persist`
//! defines it.
use vstd::prelude::*;

verus! {

/// A store location: `(primary_namespace, secondary_namespace, key)`.
pub type Location = (&'static str, &'static str, &'static str);

/// The location of LDK's channel manager:
/// `lightning::util::persist::CHANNEL_MANAGER_PERSISTENCE_{PRIMARY_NAMESPACE,
/// SECONDARY_NAMESPACE, KEY}`, which that crate defines as `""`, `""` and
/// `"manager"`.
#[verifier::external_body]
pub(crate) fn channel_manager_location() -> (r: Location)
    ensures
        r.0@ == Seq::<char>::empty(),
        r.1@ == Seq::<char>::empty(),
        r.2@ == seq!['m', 'a', 'n', 'a', 'g', 'e', 'r'],
{
    (
        lightning::util::persist::CHANNEL_MANAGER_PERSISTENCE_PRIMARY_NAMESPACE,
        lightning::util::persist::CHANNEL_MANAGER_PERSISTENCE_SECONDARY_NAMESPACE,
        lightning::util::persist::CHANNEL_MANAGER_PERSISTENCE_KEY,
    )
}

/// The location of LDK's output sweeper:
/// `lightning::util::persist::OUTPUT_SWEEPER_PERSISTENCE_{PRIMARY_NAMESPACE,
/// SECONDARY_NAMESPACE, KEY}`, which that crate defines as `""`, `""` and
/// `"output_sweeper"`.
#[verifier::external_body]
pub(crate) fn output_sweeper_location() -> (r: Location)
    ensures
        r.0@ == Seq::<char>::empty(),
        r.1@ == Seq::<char>::empty(),
        r.2@ == seq!['o', 'u', 't', 'p', 'u', 't', '_', 's', 'w', 'e', 'e', 'p', 'e', 'r'],
{
    (
        lightning::util::persist::OUTPUT_SWEEPER_PERSISTENCE_PRIMARY_NAMESPACE,
        lightning::util::persist::OUTPUT_SWEEPER_PERSISTENCE_SECONDARY_NAMESPACE,
        lightning::util::persist::OUTPUT_SWEEPER_PERSISTENCE_KEY,
    )
}

/// The location of LDK's network graph:
/// `lightning::util::persist::NETWORK_GRAPH_PERSISTENCE_{PRIMARY_NAMESPACE,
/// SECONDARY_NAMESPACE, KEY}`, which that crate defines as `""`, `""` and
/// `"network_graph"`.
#[verifier::external_body]
pub(crate) fn network_graph_location() -> (r: Location)
    ensures
        r.0@ == Seq::<char>::empty(),
        r.1@ == Seq::<char>::empty(),
        r.2@ == seq!['n', 'e', 't', 'w', 'o', 'r', 'k', '_', 'g', 'r', 'a', 'p', 'h'],
{
    (
        lightning::util::persist::NETWORK_GRAPH_PERSISTENCE_PRIMARY_NAMESPACE,
        lightning::util::persist::NETWORK_GRAPH_PERSISTENCE_SECONDARY_NAMESPACE,
        lightning::util::persist::NETWORK_GRAPH_PERSISTENCE_KEY,
    )
}

/// The location of LDK's scorer:
/// `lightning::util::persist::SCORER_PERSISTENCE_{PRIMARY_NAMESPACE,
/// SECONDARY_NAMESPACE, KEY}`, which that crate defines as `""`, `""` and
/// `"scorer"`.
#[verifier::external_body]
pub(crate) fn scorer_location() -> (r: Location)
    ensures
        r.0@ == Seq::<char>::empty(),
        r.1@ == Seq::<char>::empty(),
        r.2@ == seq!['s', 'c', 'o', 'r', 'e', 'r'],
{
    (
        lightning::util::persist::SCORER_PERSISTENCE_PRIMARY_NAMESPACE,
        lightning::util::persist::SCORER_PERSISTENCE_SECONDARY_NAMESPACE,
        lightning::util::persist::SCORER_PERSISTENCE_KEY,
    )
}

} // verus!
