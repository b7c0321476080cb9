//! The heap's lifecycle: handed the boot-phase memory services at start-up,
//! told when they are gone.

use vstd::prelude::*;

verus! {

/// Where the allocator stands with respect to the boot-phase memory services.
///
/// `Exited` is terminal: no operation leaves it.
#[derive(Clone, Copy, Debug, PartialEq, Eq, Structural)]
pub enum HeapBinding {
    /// The allocator has not been given any memory services.
    Uninitialized,
    /// Requests are served from the boot-phase memory services.
    Ready,
    /// Boot services ended; every request fails.
    Exited,
}

impl HeapBinding {
    /// The state that `init` leads to.
    pub open spec fn spec_initialized(self) -> HeapBinding {
        if self == HeapBinding::Uninitialized {
            HeapBinding::Ready
        } else {
            self
        }
    }

    /// Hands the boot-phase memory services to the allocator.
    ///
    /// Never fails. An allocator that was told of the end of boot services
    /// is not revived.
    pub fn init(&mut self)
        ensures
            *final(self) == old(self).spec_initialized(),
    {
        if *self == HeapBinding::Uninitialized {
            *self = HeapBinding::Ready;
        }
    }

    /// Tells the allocator that the boot-phase memory services are gone.
    pub fn exit(&mut self)
        ensures
            *final(self) == HeapBinding::Exited,
    {
        *self = HeapBinding::Exited;
    }

    /// Whether an allocation request can be served. After `exit` none can:
    /// the request fails instead of reaching retired services.
    pub fn serves(&self) -> (ready: bool)
        ensures
            ready == (*self == HeapBinding::Ready),
    {
        *self == HeapBinding::Ready
    }
}

} // verus!
