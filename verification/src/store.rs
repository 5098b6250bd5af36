//! The process-wide grid store.
//!
//! One grid lives behind a verified reader-writer lock for the whole process.
//! Readers take a consistent point-in-time copy; writers hold the lock
//! exclusively for one O(1) point mutation, so no update is lost and no
//! reader sees a torn grid. The lock's invariant keeps every stored grid
//! well formed.

use vstd::prelude::*;
use vstd::rwlock::RwLock;
use vstd::rwlock::RwLockPredicate;

use crate::grid::Grid;

verus! {

/// The invariant the store's lock keeps: every grid that goes into the lock
/// is well formed (it has exactly `CELL_COUNT` cells).
pub struct WellFormed;

impl RwLockPredicate<Grid> for WellFormed {
    open spec fn inv(self, g: Grid) -> bool {
        g.wf()
    }
}

/// A synchronized handle to the one shared grid. Handlers access the grid
/// only through this store; no caller owns the grid privately.
pub struct SharedGrid {
    lock: RwLock<Grid, WellFormed>,
}

impl SharedGrid {
    #[verifier::type_invariant]
    spec fn wf_store(self) -> bool {
        self.lock.pred() == WellFormed
    }

    /// Creates the store holding a freshly created grid: every cell at full
    /// brightness.
    pub fn new() -> (s: SharedGrid) {
        SharedGrid { lock: RwLock::new(Grid::new(), Ghost(WellFormed)) }
    }

    /// Takes a consistent point-in-time copy of the shared grid. No write
    /// can interleave mid-read, and the copy is always well formed.
    pub fn snapshot(&self) -> (g: Grid)
        ensures
            g.wf(),
    {
        proof {
            use_type_invariant(self);
        }
        let handle = self.lock.acquire_read();
        let g = handle.borrow().snapshot();
        handle.release_read();
        g
    }

    /// Darkens one cell of the shared grid by one step, holding the lock
    /// exclusively for the whole read-modify-write, so no update is lost.
    /// An out-of-range index leaves the grid unchanged and still succeeds.
    pub fn darken(&self, idx: usize) {
        proof {
            use_type_invariant(self);
        }
        let (mut g, handle) = self.lock.acquire_write();
        g.darken(idx);
        handle.release_write(g);
    }
}

} // verus!
