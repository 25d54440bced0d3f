//! Where billing events go.

use vstd::prelude::*;

verus! {

/// Takes finished billing events and delivers them.
pub trait BillingTracker {
    /// An event that is ready for delivery.
    type Event;

    /// Enqueues `event` and returns its identifier, or the reason why it was refused.
    fn track(&mut self, event: Self::Event) -> Result<String, String>;
}

} // verus!
