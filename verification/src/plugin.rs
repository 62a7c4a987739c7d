//! The capability that every serving unit offers to the runtime, and the
//! shared reference under which the runtime keeps a unit.

use std::sync::Arc;
use vstd::prelude::*;

verus! {

/// A unit of long-running work that the runtime can start and ask to stop.
///
/// The runtime reads a unit's name once, when the unit is registered. Running
/// the unit is the host's part: it hands the unit the guard that the runtime
/// issued for it and reports back how the unit returned.
pub trait Plugin {
    /// The name under which the unit is registered.
    fn name(&self) -> &str;
}

/// A shared reference to a unit: the registry keeps one, and each execution
/// of the unit holds a copy.
pub struct PluginRef<P> {
    inner: Arc<P>,
}

impl<P> PluginRef<P> {
    /// The unit behind the reference.
    pub closed spec fn plugin(&self) -> P {
        *self.inner
    }

    /// A first reference to `plugin`.
    pub fn new(plugin: P) -> (shared: Self)
        ensures
            shared.plugin() == plugin,
    {
        PluginRef { inner: Arc::new(plugin) }
    }

    /// The unit behind the reference.
    pub fn get(&self) -> (plugin: &P)
        ensures
            *plugin == self.plugin(),
    {
        &*self.inner
    }
}

impl<P> Clone for PluginRef<P> {
    /// Another reference to the same unit.
    fn clone(&self) -> (other: Self)
        ensures
            other.plugin() == self.plugin(),
    {
        PluginRef { inner: self.inner.clone() }
    }
}

impl<P: Plugin> Plugin for PluginRef<P> {
    /// The name of the unit behind the reference: what that unit's own `name`
    /// gives.
    fn name(&self) -> (name: &str)
        ensures
            call_ensures(P::name, (&self.plugin(),), name),
    {
        self.get().name()
    }
}

} // verus!
