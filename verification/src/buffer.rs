//! The reusable scratch buffer of the two-phase bulk-read protocol.
//!
//! Variable-length reads hand the host a caller-owned buffer together with
//! its capacity; only the host knows the true element count. A reusable
//! scratch buffer avoids allocating on the common path. To stay safe under
//! re-entrant use, every read takes the buffer's storage out before
//! populating its result and leaves the buffer empty for the next use, so a
//! re-entrant call can never observe a half-filled buffer. Only the
//! capacity is observable here; the storage itself lives in the host call's
//! result.

use vstd::prelude::*;

verus! {

/// A scratch buffer for bulk reads, reduced to what the protocol observes:
/// its current capacity in elements.
pub struct ScratchBuffer {
    /// How many elements the buffer can take before the host must report a
    /// grow-and-retry.
    pub capacity: u32,
}

impl ScratchBuffer {
    /// A fresh, empty scratch buffer.
    pub fn new() -> (r: ScratchBuffer)
        ensures
            r.capacity == 0,
    {
        ScratchBuffer { capacity: 0 }
    }
}

} // verus!
