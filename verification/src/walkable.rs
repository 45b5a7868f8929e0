//! A grid seen through a walkability threshold.

use crate::cell::Cell;
use crate::grid::Grid;
use crate::point::Point;
use vstd::prelude::*;

verus! {

/// A grid together with a threshold: the largest cell that a search may step
/// onto. Everything outside the grid counts as open space.
pub struct WalkableGrid {
    pub grid: Grid,
    pub walkable: Cell,
}

impl Clone for WalkableGrid {
    /// A copy that wraps a copy of the grid with the same threshold.
    fn clone(&self) -> (copy: WalkableGrid)
        ensures
            copy.walkable == self.walkable,
            copy.grid.width == self.grid.width,
            copy.grid.height == self.grid.height,
            copy.grid.cells@ == self.grid.cells@,
            copy.grid@ == self.grid@,
            copy.wf() == self.wf(),
    {
        WalkableGrid { grid: self.grid.clone(), walkable: self.walkable }
    }
}

impl WalkableGrid {
    /// The wrapped grid holds exactly one cell per coordinate pair.
    pub open spec fn wf(&self) -> bool {
        self.grid.wf()
    }

    /// A search may step onto `p`: either `p` lies outside the grid, or the
    /// cell at `p` ranks no higher than the threshold.
    pub open spec fn spec_is_cell_walkable(&self, p: Point) -> bool {
        !self.grid.spec_is_inside(p) || self.grid@[p].spec_le(self.walkable)
    }

    /// Wraps `grid` with the initial threshold `walkable`.
    pub fn create(grid: Grid, walkable: Cell) -> (w: WalkableGrid)
        ensures
            w.grid == grid,
            w.walkable == walkable,
    {
        WalkableGrid { grid, walkable }
    }

    /// Tells whether a search may step onto `p`.
    ///
    /// A point outside the grid is always walkable, whatever the threshold.
    /// A point inside is walkable when the ordinal of its cell is at most the
    /// ordinal of the threshold.
    pub fn is_cell_walkable(&self, p: &Point) -> (b: bool)
        requires
            self.wf(),
        ensures
            b == self.spec_is_cell_walkable(*p),
            !self.grid.spec_is_inside(*p) ==> b,
            self.grid.spec_is_inside(*p) ==> b == (self.grid@[*p].spec_ordinal()
                <= self.walkable.spec_ordinal()),
    {
        !self.grid.is_inside(p) || self.grid.get_cell(p) <= self.walkable
    }

    /// Replaces the threshold. The cells of the grid stay as they are; only
    /// the answers of later walkability queries change.
    pub fn set_walkable(&mut self, walkable: Cell)
        ensures
            final(self).walkable == walkable,
            final(self).grid == old(self).grid,
            final(self).grid@ == old(self).grid@,
            final(self).wf() == old(self).wf(),
    {
        self.walkable = walkable;
    }

    /// Tells whether `p` lies in the rectangle of the grid.
    pub fn is_inside(&self, p: &Point) -> (b: bool)
        ensures
            b == self.grid.spec_is_inside(*p),
    {
        self.grid.is_inside(p)
    }

    /// Tells whether `p` lies in the rectangle of the grid widened by
    /// `margin` on every side.
    pub fn is_inside_margin(&self, p: &Point, margin: i8) -> (b: bool)
        ensures
            b == self.grid.spec_is_inside_margin(*p, margin as int),
    {
        self.grid.is_inside_margin(p, margin)
    }

    /// Reads the cell at `p`, which must lie in the rectangle of the grid.
    pub fn get_cell(&self, p: &Point) -> (c: Cell)
        requires
            self.wf(),
            self.grid.spec_is_inside(*p),
        ensures
            c == self.grid@[*p],
    {
        self.grid.get_cell(p)
    }

    /// Whatever the threshold, every point outside the grid is walkable.
    pub proof fn lemma_outside_is_walkable(&self, p: Point)
        requires
            !self.grid.spec_is_inside(p),
        ensures
            self.spec_is_cell_walkable(p),
    {
    }

    /// Raising the threshold only admits more cells: a point that is
    /// walkable under `self` is walkable under `raised`, which wraps the same
    /// grid with a threshold at least as high.
    pub proof fn lemma_raising_admits_more(&self, raised: WalkableGrid, p: Point)
        requires
            raised.grid == self.grid,
            self.walkable.spec_le(raised.walkable),
            self.spec_is_cell_walkable(p),
        ensures
            raised.spec_is_cell_walkable(p),
    {
    }
}

} // verus!
