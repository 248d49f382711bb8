//! Per-run counters for discovered and skipped files.

use vstd::prelude::*;

verus! {

/// Counters for one discovery run: how many candidate files were scanned,
/// and how many of those the producer declined (skipped).
///
/// Both counters only ever grow; the dispatch core increments them and the
/// caller reads them once the run is over. The type is a plain pair of
/// integers, so a runner can start from a copy of the worker's own counters
/// and hand the totals back when the run is done.
#[derive(Clone, Copy)]
pub struct FileStats {
    scanned: u64,
    skipped: u64,
}

impl FileStats {
    pub closed spec fn scanned_spec(&self) -> u64 {
        self.scanned
    }

    pub closed spec fn skipped_spec(&self) -> u64 {
        self.skipped
    }

    pub fn new() -> (r: FileStats)
        ensures
            r.scanned_spec() == 0,
            r.skipped_spec() == 0,
    {
        FileStats { scanned: 0, skipped: 0 }
    }

    pub fn scanned(&self) -> (r: u64)
        ensures
            r == self.scanned_spec(),
    {
        self.scanned
    }

    pub fn skipped(&self) -> (r: u64)
        ensures
            r == self.skipped_spec(),
    {
        self.skipped
    }

    pub fn add_scanned(&mut self)
        requires
            old(self).scanned_spec() < u64::MAX,
        ensures
            final(self).scanned_spec() == old(self).scanned_spec() + 1,
            final(self).skipped_spec() == old(self).skipped_spec(),
    {
        self.scanned = self.scanned + 1;
    }

    pub fn add_skipped(&mut self)
        requires
            old(self).skipped_spec() < u64::MAX,
        ensures
            final(self).skipped_spec() == old(self).skipped_spec() + 1,
            final(self).scanned_spec() == old(self).scanned_spec(),
    {
        self.skipped = self.skipped + 1;
    }
}

} // verus!
