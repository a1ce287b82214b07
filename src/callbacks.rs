//! Progress notifications during archive operations.

use vstd::prelude::*;

verus! {

/// Receives progress notifications during archive operations.
pub trait ProgressCallback {
    /// Called when progress is made reading or writing an entry, with the
    /// bytes processed so far and the total to process (0 where unknown).
    fn on_progress(&mut self, bytes_processed: u64, total_bytes: u64);
}

/// Counts processed bytes and reports each step to a callback.
pub struct ProgressTracker<C: ProgressCallback> {
    callback: C,
    bytes_processed: u64,
    total_bytes: u64,
    reported: Ghost<Seq<(u64, u64)>>,
}

impl<C: ProgressCallback> ProgressTracker<C> {
    /// Bytes processed so far.
    pub closed spec fn processed(&self) -> u64 {
        self.bytes_processed
    }

    /// Bytes to process in all; 0 where unknown.
    pub closed spec fn total(&self) -> u64 {
        self.total_bytes
    }

    /// The (bytes processed, total) pairs handed to the callback so far, in order.
    pub closed spec fn reports(&self) -> Seq<(u64, u64)> {
        self.reported@
    }

    /// A tracker at zero, with no total, reporting to `callback`.
    pub fn new(callback: C) -> (r: Self)
        ensures
            r.processed() == 0,
            r.total() == 0,
            r.reports() == Seq::<(u64, u64)>::empty(),
    {
        ProgressTracker { callback, bytes_processed: 0, total_bytes: 0, reported: Ghost(Seq::empty()) }
    }

    /// Counts `bytes` more as processed and calls the callback once, with the
    /// new count and the total.
    pub fn update(&mut self, bytes: u64)
        requires
            old(self).processed() + bytes <= u64::MAX,
        ensures
            final(self).processed() == old(self).processed() + bytes,
            final(self).total() == old(self).total(),
            final(self).reports() == old(self).reports().push(
                ((old(self).processed() + bytes) as u64, old(self).total()),
            ),
    {
        self.bytes_processed = self.bytes_processed + bytes;
        self.callback.on_progress(self.bytes_processed, self.total_bytes);
        self.reported = Ghost(self.reported@.push((self.bytes_processed, self.total_bytes)));
    }

    /// Sets the total to process, without calling the callback.
    pub fn set_total(&mut self, total: u64)
        ensures
            final(self).total() == total,
            final(self).processed() == old(self).processed(),
            final(self).reports() == old(self).reports(),
    {
        self.total_bytes = total;
    }

    /// Sets the count of processed bytes back to zero, without calling the
    /// callback.
    pub fn reset(&mut self)
        ensures
            final(self).processed() == 0,
            final(self).total() == old(self).total(),
            final(self).reports() == old(self).reports(),
    {
        self.bytes_processed = 0;
    }
}

} // verus!
