//! Whether the gateway controller's first listing is complete.
use vstd::prelude::*;

verus! {

/// A one-way latch: set once the gateway store has its first listing, and
/// never unset.
#[derive(Debug, Clone, Copy)]
pub struct StoreReadiness {
    synced: bool,
}

impl StoreReadiness {
    /// Whether the listing is complete.
    pub closed spec fn view(&self) -> bool {
        self.synced
    }

    /// A latch that is not set.
    pub fn new() -> (r: StoreReadiness)
        ensures
            r@ == false,
    {
        StoreReadiness { synced: false }
    }

    /// Whether the listing is complete.
    pub fn is_synced(&self) -> (r: bool)
        ensures
            r == self@,
    {
        self.synced
    }

    /// Sets the latch.
    pub fn mark_synced(&mut self)
        ensures
            final(self)@ == true,
    {
        self.synced = true;
    }
}

/// The reconcile flag after looking at the latch: it is raised once the
/// latch is set, and stays as it is before that.
pub fn gate_ready(store: &StoreReadiness, reconcile_ready: bool) -> (r: bool)
    ensures
        r == (reconcile_ready || store@),
{
    if store.is_synced() {
        true
    } else {
        reconcile_ready
    }
}

} // verus!
