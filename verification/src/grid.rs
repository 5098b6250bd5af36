//! The grid store: a fixed-length array of brightness cells.
//!
//! A grid always holds `CELL_COUNT` cells, each a brightness value in
//! `0..=255`. Cells start at `INITIAL_BRIGHTNESS` and are only ever
//! decremented, saturating at zero, in steps of `DARKEN_STEP`.

use vstd::prelude::*;

verus! {

/// Side length of the square grid.
pub const GRID_SIZE: usize = 16;

/// Number of cells in the grid.
pub const CELL_COUNT: usize = GRID_SIZE * GRID_SIZE;

/// How much one darken call subtracts from a cell.
pub const DARKEN_STEP: u8 = 32;

/// Brightness of every cell in a freshly created grid.
pub const INITIAL_BRIGHTNESS: u8 = 255;

/// A fixed-length ordered sequence of brightness cells.
pub struct Grid {
    cells: Vec<u8>,
}

/// The value a cell holds after one darken step: brightness decreases by
/// `DARKEN_STEP`, saturating at zero.
pub open spec fn darkened(v: u8) -> u8 {
    if v >= DARKEN_STEP {
        (v - DARKEN_STEP) as u8
    } else {
        0
    }
}

/// The value a cell holds after `k` darken steps starting from `v`.
pub open spec fn darkened_times(v: u8, k: nat) -> u8
    decreases k,
{
    if k == 0 {
        v
    } else {
        darkened(darkened_times(v, (k - 1) as nat))
    }
}

/// Saturating decrement law: after `k` darken steps a cell that held `v`
/// holds `max(0, v - DARKEN_STEP * k)`; in particular the value never wraps
/// below zero, however large `k` is.
pub proof fn lemma_darkened_times(v: u8, k: nat)
    ensures
        darkened_times(v, k) == if v as int - (DARKEN_STEP as int) * k >= 0 {
            (v as int - (DARKEN_STEP as int) * k) as u8
        } else {
            0u8
        },
    decreases k,
{
    if k > 0 {
        lemma_darkened_times(v, (k - 1) as nat);
    }
}

/// Distinct-index isolation law: a darken call writes only its own cell, so
/// darkening two distinct in-range indices yields the same grid in either
/// order — no update is lost.
pub proof fn lemma_darken_commutes(s: Seq<u8>, i: int, j: int)
    requires
        0 <= i < s.len(),
        0 <= j < s.len(),
        i != j,
    ensures
        s.update(i, darkened(s[i])).update(j, darkened(s[j])) == s.update(
            j,
            darkened(s[j]),
        ).update(i, darkened(s[i])),
{
    assert(s.update(i, darkened(s[i])).update(j, darkened(s[j])) =~= s.update(
        j,
        darkened(s[j]),
    ).update(i, darkened(s[i])));
}

impl View for Grid {
    type V = Seq<u8>;

    closed spec fn view(&self) -> Seq<u8> {
        self.cells@
    }
}

impl Grid {
    /// A grid is well formed when it has exactly `CELL_COUNT` cells.
    pub open spec fn wf(&self) -> bool {
        self@.len() == CELL_COUNT
    }

    /// Creates a grid of `CELL_COUNT` cells, every cell at full brightness.
    pub fn new() -> (g: Grid)
        ensures
            g.wf(),
            g@.len() == CELL_COUNT,
            forall|i: int| 0 <= i < CELL_COUNT ==> g@[i] == INITIAL_BRIGHTNESS,
    {
        let mut cells: Vec<u8> = Vec::new();
        let mut i: usize = 0;
        while i < CELL_COUNT
            invariant
                i <= CELL_COUNT,
                cells@.len() == i,
                forall|j: int| 0 <= j < i ==> cells@[j] == INITIAL_BRIGHTNESS,
            decreases CELL_COUNT - i,
        {
            cells.push(INITIAL_BRIGHTNESS);
            i = i + 1;
        }
        Grid { cells }
    }

    /// Number of cells in the grid.
    pub fn len(&self) -> (n: usize)
        ensures
            n == self@.len(),
    {
        self.cells.len()
    }

    /// Reads one cell.
    pub fn cell(&self, idx: usize) -> (v: u8)
        requires
            idx < self@.len(),
        ensures
            v == self@[idx as int],
    {
        self.cells[idx]
    }

    /// Darkens the cell at `idx` by one step, saturating at zero. An index
    /// at or beyond the grid length is silently ignored: the grid is left
    /// unchanged and the call still succeeds.
    pub fn darken(&mut self, idx: usize)
        ensures
            idx < old(self)@.len() ==> final(self)@ == old(self)@.update(
                idx as int,
                darkened(old(self)@[idx as int]),
            ),
            idx >= old(self)@.len() ==> final(self)@ == old(self)@,
    {
        if idx < self.cells.len() {
            let b = self.cells[idx].saturating_sub(DARKEN_STEP);
            self.cells.set(idx, b);
        }
    }

    /// Returns a full copy of the current cell values: a consistent
    /// point-in-time view for serialization.
    pub fn snapshot(&self) -> (g: Grid)
        ensures
            g@ == self@,
    {
        let mut cells: Vec<u8> = Vec::new();
        let mut i: usize = 0;
        while i < self.cells.len()
            invariant
                i <= self@.len(),
                cells@ == self@.subrange(0, i as int),
            decreases self@.len() - i,
        {
            cells.push(self.cells[i]);
            assert(cells@ =~= self@.subrange(0, i as int + 1));
            i = i + 1;
        }
        assert(self@.subrange(0, self@.len() as int) =~= self@);
        Grid { cells }
    }
}

} // verus!
