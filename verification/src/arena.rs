//! The heap arena: a fixed-capacity memory pool sized once at start-up,
//! backing every dynamic allocation for the rest of the process lifetime.

use vstd::prelude::*;

verus! {

/// Heap capacity reserved at bring-up: 72 KiB, chosen to cover the
/// worst-case concurrent allocation needs of the network stack and drivers.
pub const HEAP_CAPACITY_BYTES: usize = 72 * 1024;

/// Error raised by the arena. Allocation before the one-time initialization
/// and a second initialization are programming errors surfaced as typed
/// values; exhaustion is a runtime condition of the fixed budget.
#[derive(Clone, Copy, Debug, PartialEq, Eq, Structural)]
pub enum ArenaError {
    NotInitialized,
    AlreadyInitialized,
    Exhausted,
}

/// A contiguous byte budget of fixed capacity. There is no growth and no
/// reclamation policy: once initialized, the capacity stands for the whole
/// process lifetime, and allocations only consume it.
pub struct HeapArena {
    initialized: bool,
    capacity: usize,
    allocated: usize,
}

impl HeapArena {
    /// Whether the one-time initialization has happened.
    pub closed spec fn is_initialized(&self) -> bool {
        self.initialized
    }

    /// The fixed byte capacity chosen at initialization.
    pub closed spec fn capacity(&self) -> usize {
        self.capacity
    }

    /// How many bytes have been served so far.
    pub closed spec fn allocated(&self) -> usize {
        self.allocated
    }

    /// Well-formedness: the arena never serves more than its capacity, and
    /// before initialization there is nothing to serve at all.
    pub closed spec fn wf(&self) -> bool {
        &&& self.allocated <= self.capacity
        &&& !self.initialized ==> self.capacity == 0 && self.allocated == 0
    }

    /// A fresh, uninitialized arena: no allocation can be served from it.
    pub fn new() -> (r: Self)
        ensures
            r.wf(),
            !r.is_initialized(),
            r.allocated() == 0,
    {
        HeapArena { initialized: false, capacity: 0, allocated: 0 }
    }

    /// Reserves the fixed pool. Must happen exactly once: a second
    /// initialization is refused and leaves the arena untouched.
    pub fn init(&mut self, capacity_bytes: usize) -> (r: Result<(), ArenaError>)
        requires
            old(self).wf(),
        ensures
            final(self).wf(),
            old(self).is_initialized() ==> r == Err::<(), ArenaError>(ArenaError::AlreadyInitialized)
                && *final(self) == *old(self),
            !old(self).is_initialized() ==> r == Ok::<(), ArenaError>(())
                && final(self).is_initialized()
                && final(self).capacity() == capacity_bytes
                && final(self).allocated() == 0,
    {
        if self.initialized {
            Err(ArenaError::AlreadyInitialized)
        } else {
            self.initialized = true;
            self.capacity = capacity_bytes;
            self.allocated = 0;
            Ok(())
        }
    }

    /// Serves `bytes` from the pool. Refused before initialization, and
    /// refused without effect once the request exceeds what is left.
    pub fn allocate(&mut self, bytes: usize) -> (r: Result<(), ArenaError>)
        requires
            old(self).wf(),
        ensures
            final(self).wf(),
            !old(self).is_initialized() ==> r == Err::<(), ArenaError>(ArenaError::NotInitialized)
                && *final(self) == *old(self),
            old(self).is_initialized() && old(self).allocated() + bytes <= old(self).capacity()
                ==> r == Ok::<(), ArenaError>(())
                    && final(self).is_initialized()
                    && final(self).capacity() == old(self).capacity()
                    && final(self).allocated() == old(self).allocated() + bytes,
            old(self).is_initialized() && old(self).allocated() + bytes > old(self).capacity()
                ==> r == Err::<(), ArenaError>(ArenaError::Exhausted)
                    && *final(self) == *old(self),
    {
        if !self.initialized {
            Err(ArenaError::NotInitialized)
        } else if bytes > self.capacity - self.allocated {
            Err(ArenaError::Exhausted)
        } else {
            self.allocated = self.allocated + bytes;
            Ok(())
        }
    }
}

} // verus!
