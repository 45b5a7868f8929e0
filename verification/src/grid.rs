//! A fixed-size rectangular grid of cells, addressed by `Point`.

use crate::addressing::{
    lemma_index_decompose, lemma_index_in_range, lemma_index_injective, lemma_index_onto,
    lemma_index_ordered, spec_index,
};
use crate::cell::Cell;
use crate::point::{spec_point, Point};
use vstd::prelude::*;

verus! {

/// The number of non-negative values a coordinate can take: a coordinate is
/// an `i8`, so it runs from 0 to 127.
pub const COORDINATE_SPAN: u8 = 128;

/// How many of the lines `0, 1, .., extent - 1` a coordinate can name.
pub open spec fn spec_reach(extent: u8) -> int {
    if extent <= COORDINATE_SPAN {
        extent as int
    } else {
        COORDINATE_SPAN as int
    }
}

/// A rectangle of `width` columns and `height` rows with one cell per
/// coordinate pair. The cells are stored column by column: the cell of
/// column `x`, row `y` is `cells[x * height + y]`.
pub struct Grid {
    pub width: u8,
    pub height: u8,
    pub cells: Vec<Cell>,
}

impl Clone for Grid {
    /// A grid of the same size with the same cells.
    fn clone(&self) -> (copy: Grid)
        ensures
            copy.width == self.width,
            copy.height == self.height,
            copy.cells@ == self.cells@,
            copy@ == self@,
            copy.wf() == self.wf(),
    {
        Grid { width: self.width, height: self.height, cells: self.cells.clone() }
    }
}

impl View for Grid {
    type V = Map<Point, Cell>;

    /// The grid as a map from each point of the rectangle to its cell.
    open spec fn view(&self) -> Map<Point, Cell> {
        Map::new(|p: Point| self.spec_is_inside(p), |p: Point| self.cells@[self.spec_index_of(p)])
    }
}

impl Grid {
    /// The storage holds exactly one cell per coordinate pair.
    pub open spec fn wf(&self) -> bool {
        self.cells@.len() == self.width as int * self.height as int
    }

    /// `p` lies in the rectangle: `0 <= p.x < width` and `0 <= p.y < height`.
    pub open spec fn spec_is_inside(&self, p: Point) -> bool {
        0 <= p.x < self.width && 0 <= p.y < self.height
    }

    /// `p` lies in the rectangle widened by `m` on every side (narrowed, if
    /// `m` is negative).
    pub open spec fn spec_is_inside_margin(&self, p: Point, m: int) -> bool {
        -m <= p.x < self.width + m && -m <= p.y < self.height + m
    }

    /// The storage slot of `p`.
    pub open spec fn spec_index_of(&self, p: Point) -> int {
        spec_index(p.x as int, p.y as int, self.height as int)
    }

    /// The points of the rectangle in the order of their storage slots:
    /// all rows of column 0, then all rows of column 1, and so on.
    pub open spec fn spec_points(&self) -> Seq<Point> {
        Seq::new(
            (spec_reach(self.width) * spec_reach(self.height)) as nat,
            |i: int| spec_point(i / spec_reach(self.height), i % spec_reach(self.height)),
        )
    }

    /// Creates a grid of the given size in which every cell is `Empty`.
    pub fn create_empty(width: u8, height: u8) -> (g: Grid)
        ensures
            g.wf(),
            g.width == width,
            g.height == height,
            g.cells@ == Seq::new((width as int * height as int) as nat, |i: int| Cell::Empty),
            g@ == Map::new(|p: Point| g.spec_is_inside(p), |p: Point| Cell::Empty),
            forall|p: Point| g.spec_is_inside(p) ==> g@[p] == Cell::Empty,
    {
        assert(width as int * height as int <= 255 * 255) by (nonlinear_arith)
            requires
                0 <= width <= 255,
                0 <= height <= 255,
        ;
        let n: usize = (width as usize) * (height as usize);
        let mut cells: Vec<Cell> = Vec::new();
        let mut i: usize = 0;
        while i < n
            invariant
                i <= n,
                cells@.len() == i,
                forall|j: int| 0 <= j < i ==> cells@[j] == Cell::Empty,
            decreases n - i,
        {
            cells.push(Cell::Empty);
            i = i + 1;
        }
        let g = Grid { width, height, cells };
        proof {
            assert forall|p: Point| g.spec_is_inside(p) implies g@[p] == Cell::Empty by {
                lemma_index_in_range(p.x as int, p.y as int, width as int, height as int);
            }
        }
        g
    }

    /// The storage slot of column `x`, row `y`.
    fn get_index(&self, x: i8, y: i8) -> (i: usize)
        requires
            0 <= x < self.width,
            0 <= y < self.height,
        ensures
            i == spec_index(x as int, y as int, self.height as int),
            i < self.width as int * self.height as int,
    {
        proof {
            lemma_index_in_range(x as int, y as int, self.width as int, self.height as int);
            assert(self.width as int * self.height as int <= 255 * 255) by (nonlinear_arith)
                requires
                    0 <= self.width <= 255,
                    0 <= self.height <= 255,
            ;
        }
        (x as usize) * (self.height as usize) + (y as usize)
    }

    /// Reads the cell at `p`.
    ///
    /// This is the unchecked fast path: `p` must lie in the rectangle, which
    /// a caller establishes once with `is_inside`. No bounds test is made
    /// here.
    pub fn get_cell(&self, p: &Point) -> (c: Cell)
        requires
            self.wf(),
            self.spec_is_inside(*p),
        ensures
            c == self@[*p],
    {
        let i = self.get_index(p.x, p.y);
        self.cells[i]
    }

    /// Overwrites the cell at `p` with `value` and leaves every other cell as
    /// it was.
    ///
    /// Like `get_cell`, this is the unchecked fast path: `p` must lie in the
    /// rectangle.
    pub fn set_cell(&mut self, p: &Point, value: Cell)
        requires
            old(self).wf(),
            old(self).spec_is_inside(*p),
        ensures
            final(self).wf(),
            final(self).width == old(self).width,
            final(self).height == old(self).height,
            final(self).cells@ == old(self).cells@.update(old(self).spec_index_of(*p), value),
            final(self)@ == old(self)@.insert(*p, value),
            final(self)@[*p] == value,
            forall|q: Point|
                q != *p && old(self).spec_is_inside(q) ==> #[trigger] final(self)@[q]
                    == old(self)@[q],
    {
        let i = self.get_index(p.x, p.y);
        self.cells[i] = value;
        proof {
            old(self).lemma_write_then_read(*self, *p, value);
        }
    }

    /// Tells whether `p` lies in the rectangle.
    pub fn is_inside(&self, p: &Point) -> (b: bool)
        ensures
            b == self.spec_is_inside(*p),
            b == (0 <= p.x < self.width && 0 <= p.y < self.height),
    {
        let x: i16 = p.x as i16;
        let y: i16 = p.y as i16;
        0 <= x && x < (self.width as i16) && 0 <= y && y < (self.height as i16)
    }

    /// Tells whether `p` lies in the rectangle widened by the margin `m` on
    /// every side. A negative margin narrows the rectangle.
    pub fn is_inside_margin(&self, p: &Point, m: i8) -> (b: bool)
        ensures
            b == self.spec_is_inside_margin(*p, m as int),
            b == (-m <= p.x < self.width + m && -m <= p.y < self.height + m),
    {
        let m: i16 = m as i16;
        let x: i16 = p.x as i16;
        let y: i16 = p.y as i16;
        -m <= x && x < (self.width as i16) + m && -m <= y && y < (self.height as i16) + m
    }

    /// The `i`-th point of the enumeration `spec_points`, or `None` once `i`
    /// is past its end.
    pub fn point_at(&self, i: usize) -> (r: Option<Point>)
        ensures
            r == if i < self.spec_points().len() {
                Some(self.spec_points()[i as int])
            } else {
                None
            },
    {
        let columns: usize = if self.width <= COORDINATE_SPAN {
            self.width as usize
        } else {
            COORDINATE_SPAN as usize
        };
        let rows: usize = if self.height <= COORDINATE_SPAN {
            self.height as usize
        } else {
            COORDINATE_SPAN as usize
        };
        if rows == 0 {
            assert(columns as int * 0 == 0) by (nonlinear_arith);
            return None;
        }
        let x: usize = i / rows;
        let y: usize = i % rows;
        proof {
            if i < columns * rows {
                lemma_index_onto(i as int, columns as int, rows as int);
            }
            if x < columns {
                lemma_index_in_range(x as int, y as int, columns as int, rows as int);
                vstd::arithmetic::div_mod::lemma_fundamental_div_mod(i as int, rows as int);
                assert(rows * x == x * rows) by (nonlinear_arith);
            }
        }
        if x >= columns {
            None
        } else {
            Some(Point { x: x as i8, y: y as i8 })
        }
    }

    /// Enumerates the points of the rectangle, column by column.
    pub fn iter(&self) -> (points: Vec<Point>)
        ensures
            points@ == self.spec_points(),
            points@.no_duplicates(),
            forall|p: Point| points@.contains(p) <==> self.spec_is_inside(p),
            points@.to_set() == self@.dom(),
            self.width <= COORDINATE_SPAN && self.height <= COORDINATE_SPAN ==> points@.len()
                == self.width as int * self.height as int,
    {
        let mut points: Vec<Point> = Vec::new();
        let mut i: usize = 0;
        assert(spec_reach(self.width) * spec_reach(self.height) <= 128 * 128) by (nonlinear_arith)
            requires
                0 <= spec_reach(self.width) <= 128,
                0 <= spec_reach(self.height) <= 128,
        ;
        loop
            invariant
                points@.len() == i,
                i <= self.spec_points().len() <= 128 * 128,
                forall|j: int| 0 <= j < i ==> points@[j] == self.spec_points()[j],
            ensures
                points@.len() == self.spec_points().len(),
                forall|j: int| 0 <= j < points@.len() ==> points@[j] == self.spec_points()[j],
            decreases self.spec_points().len() - i,
        {
            match self.point_at(i) {
                Some(p) => {
                    points.push(p);
                    i = i + 1;
                },
                None => {
                    break ;
                },
            }
        }
        proof {
            self.lemma_points_distinct();
            assert forall|p: Point| points@.contains(p) <==> self.spec_is_inside(p) by {
                self.lemma_points_cover(p);
            }
            if self.width <= COORDINATE_SPAN && self.height <= COORDINATE_SPAN {
                self.lemma_points_count();
            }
        }
        points
    }

    /// Writing a cell and reading it back gives the written value, and no
    /// other point of the rectangle sees a change: a grid `after` that
    /// differs from `self` in the storage slot of `p` alone is `self` with
    /// `p` mapped to `value`.
    pub proof fn lemma_write_then_read(&self, after: Grid, p: Point, value: Cell)
        requires
            self.wf(),
            self.spec_is_inside(p),
            after.width == self.width,
            after.height == self.height,
            after.cells@ == self.cells@.update(self.spec_index_of(p), value),
        ensures
            after.wf(),
            after@ == self@.insert(p, value),
            after@[p] == value,
            forall|q: Point| q != p && self.spec_is_inside(q) ==> #[trigger] after@[q] == self@[q],
    {
        lemma_index_in_range(p.x as int, p.y as int, self.width as int, self.height as int);
        let written = self@.insert(p, value);
        assert forall|q: Point| self.spec_is_inside(q) implies #[trigger] after@[q]
            == written[q] by {
            lemma_index_in_range(q.x as int, q.y as int, self.width as int, self.height as int);
            if q != p && self.spec_index_of(q) == self.spec_index_of(p) {
                lemma_index_injective(
                    q.x as int,
                    q.y as int,
                    p.x as int,
                    p.y as int,
                    self.height as int,
                );
            }
        }
    }

    /// A margin of 0 adds nothing: the widened rectangle is the rectangle
    /// itself.
    pub proof fn lemma_margin_zero(&self, p: Point)
        ensures
            self.spec_is_inside_margin(p, 0) == self.spec_is_inside(p),
    {
    }

    /// A positive margin `k` accepts, besides the rectangle, the band of `k`
    /// lines around it: a coordinate may lie up to `k` below 0 and up to `k`
    /// past the last line.
    pub proof fn lemma_margin_band(&self, p: Point, k: int)
        requires
            k > 0,
            -k <= p.x <= -1 || 0 <= p.x < self.width || self.width <= p.x <= self.width + k - 1,
            -k <= p.y <= -1 || 0 <= p.y < self.height || self.height <= p.y <= self.height + k
                - 1,
        ensures
            self.spec_is_inside_margin(p, k),
    {
    }

    /// A wider margin accepts every point that a narrower one accepts.
    pub proof fn lemma_margin_monotonic(&self, p: Point, m1: int, m2: int)
        requires
            m1 <= m2,
            self.spec_is_inside_margin(p, m1),
        ensures
            self.spec_is_inside_margin(p, m2),
    {
    }

    /// The enumeration visits a point if and only if the point lies in the
    /// rectangle.
    pub proof fn lemma_points_cover(&self, p: Point)
        ensures
            self.spec_points().contains(p) <==> self.spec_is_inside(p),
    {
        let columns = spec_reach(self.width);
        let rows = spec_reach(self.height);
        let points = self.spec_points();
        if self.spec_is_inside(p) {
            let i = spec_index(p.x as int, p.y as int, rows);
            lemma_index_in_range(p.x as int, p.y as int, columns, rows);
            lemma_index_decompose(p.x as int, p.y as int, rows);
            assert(points[i] == p);
        }
        if points.contains(p) {
            let i = choose|i: int| 0 <= i < points.len() && points[i] == p;
            lemma_index_onto(i, columns, rows);
        }
    }

    /// The enumeration visits no point twice.
    pub proof fn lemma_points_distinct(&self)
        ensures
            self.spec_points().no_duplicates(),
    {
        let columns = spec_reach(self.width);
        let rows = spec_reach(self.height);
        let points = self.spec_points();
        assert forall|i: int, j: int|
            0 <= i < points.len() && 0 <= j < points.len() && i != j implies points[i]
            != points[j] by {
            lemma_index_onto(i, columns, rows);
            lemma_index_onto(j, columns, rows);
        }
    }

    /// The set of the enumerated points is the rectangle.
    pub proof fn lemma_points_set(&self)
        ensures
            self.spec_points().to_set() == self@.dom(),
            self.spec_points().to_set() == Set::new(|p: Point| self.spec_is_inside(p)),
    {
        assert forall|p: Point| self.spec_points().contains(p) <==> self.spec_is_inside(p) by {
            self.lemma_points_cover(p);
        }
    }

    /// As long as coordinates can name every column and every row, the
    /// enumeration has exactly `width * height` points.
    pub proof fn lemma_points_count(&self)
        requires
            self.width <= COORDINATE_SPAN,
            self.height <= COORDINATE_SPAN,
        ensures
            self.spec_points().len() == self.width as int * self.height as int,
    {
    }

    /// The enumeration follows the addressing scheme: a point that comes
    /// later in the enumeration lies in a later storage slot, and where
    /// coordinates can name every row, the `i`-th point lies in slot `i`.
    pub proof fn lemma_points_follow_slots(&self, i: int, j: int)
        requires
            0 <= i < j < self.spec_points().len(),
        ensures
            self.spec_index_of(self.spec_points()[i]) < self.spec_index_of(self.spec_points()[j]),
            self.height <= COORDINATE_SPAN ==> self.spec_index_of(self.spec_points()[i]) == i,
    {
        let columns = spec_reach(self.width);
        let rows = spec_reach(self.height);
        let a = self.spec_points()[i];
        let b = self.spec_points()[j];
        lemma_index_onto(i, columns, rows);
        lemma_index_onto(j, columns, rows);
        lemma_index_ordered(a.x as int, a.y as int, b.x as int, b.y as int, rows);
        lemma_index_ordered(a.x as int, a.y as int, b.x as int, b.y as int, self.height as int);
    }
}

} // verus!
