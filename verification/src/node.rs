//! The handle through which an embedding application holds a running node.
use std::sync::Arc;
use vstd::prelude::*;

verus! {

/// Clones an `Arc` pointer with `<Arc<S> as Clone>::clone`, which (as std
/// documents it) makes another pointer to the same allocation.
#[verifier::external_body]
fn share<S>(state: &Arc<S>) -> (r: Arc<S>)
    ensures
        r == *state,
{
    Arc::clone(state)
}

/// The slot through which foreign-language bindings reach the running node:
/// at most one node state is registered at a time.
pub struct UniffiRegistry<S> {
    current: Option<Arc<S>>,
}

impl<S> UniffiRegistry<S> {
    pub closed spec fn spec_current(&self) -> Option<Arc<S>> {
        self.current
    }

    /// A slot with nothing registered.
    pub fn new() -> (r: Self)
        ensures
            r.spec_current() is None,
    {
        UniffiRegistry { current: None }
    }

    /// The registered node state, if any.
    pub fn current(&self) -> (r: Option<Arc<S>>)
        ensures
            r == self.spec_current(),
    {
        match &self.current {
            Some(s) => Some(share(s)),
            None => None,
        }
    }
}

/// A running node: shares the node's application state.
pub struct NodeHandle<S> {
    state: Arc<S>,
}

impl<S> NodeHandle<S> {
    pub closed spec fn spec_state(&self) -> Arc<S> {
        self.state
    }

    /// A handle on an already running node's state.
    pub fn from_app_state(state: Arc<S>) -> (r: Self)
        ensures
            r.spec_state() == state,
    {
        NodeHandle { state }
    }

    /// The node's application state.
    pub fn app_state(&self) -> (r: Arc<S>)
        ensures
            r == self.spec_state(),
    {
        share(&self.state)
    }

    /// Another handle on the same node.
    pub fn clone_handle(&self) -> (r: Self)
        ensures
            r.spec_state() == self.spec_state(),
    {
        NodeHandle { state: share(&self.state) }
    }

    /// Makes this node the one the foreign-language bindings reach.
    pub fn register_for_uniffi(&self, registry: &mut UniffiRegistry<S>)
        ensures
            final(registry).spec_current() == Some(self.spec_state()),
    {
        registry.current = Some(share(&self.state));
    }

    /// Leaves the foreign-language bindings with no node.
    pub fn unregister_for_uniffi(&self, registry: &mut UniffiRegistry<S>)
        ensures
            final(registry).spec_current() is None,
    {
        registry.current = None;
    }
}

} // verus!
