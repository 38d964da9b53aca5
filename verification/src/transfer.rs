//! The counters of a transfer, as the Git library reports them.

use vstd::prelude::*;

verus! {

/// How far a download has come: objects and deltas counted, bytes received.
#[derive(Clone, Copy, Debug, PartialEq, Eq)]
pub struct TransferStats {
    /// Objects in the pack that is being downloaded.
    pub total_objects: usize,
    /// Received objects that have been hashed and indexed.
    pub indexed_objects: usize,
    /// Objects that have been downloaded.
    pub received_objects: usize,
    /// Objects that were found in the local store and so were not sent.
    pub local_objects: usize,
    /// Deltas in the pack.
    pub total_deltas: usize,
    /// Deltas that have been resolved.
    pub indexed_deltas: usize,
    /// Size of the pack received so far, in bytes.
    pub received_bytes: usize,
}

impl TransferStats {
    /// Whether no partial count exceeds its total, as it is with counters
    /// that were read during one transfer.
    pub open spec fn consistent(&self) -> bool {
        &&& self.indexed_objects <= self.total_objects
        &&& self.received_objects <= self.total_objects
        &&& self.indexed_deltas <= self.total_deltas
    }
}

} // verus!
