//! The value stored at one grid position, and its total order.

use core::cmp::Ordering;
use vstd::prelude::*;
use vstd::std_specs::cmp::{PartialOrdIs, PartialOrdSpec};

verus! {

/// The content of one grid position. The variants are totally ordered by
/// their ordinal: `Empty` (0) is the smallest and `Color4` (4) the largest.
#[derive(Copy, Clone, Debug, PartialEq, Eq, Structural)]
pub enum Cell {
    Empty,
    Color1,
    Color2,
    Color3,
    Color4,
}

impl Cell {
    /// The ordinal of a cell as a mathematical integer, from 0 for `Empty`
    /// to 4 for `Color4`.
    pub open spec fn spec_ordinal(self) -> int {
        match self {
            Cell::Empty => 0,
            Cell::Color1 => 1,
            Cell::Color2 => 2,
            Cell::Color3 => 3,
            Cell::Color4 => 4,
        }
    }

    /// `self` ranks strictly below `other`.
    pub open spec fn spec_lt(self, other: Cell) -> bool {
        self.spec_ordinal() < other.spec_ordinal()
    }

    /// `self` ranks no higher than `other`.
    pub open spec fn spec_le(self, other: Cell) -> bool {
        self.spec_ordinal() <= other.spec_ordinal()
    }

    /// The ordinal of a cell, from 0 for `Empty` to 4 for `Color4`.
    pub fn ordinal(self) -> (r: u8)
        ensures
            r == self.spec_ordinal(),
    {
        match self {
            Cell::Empty => 0,
            Cell::Color1 => 1,
            Cell::Color2 => 2,
            Cell::Color3 => 3,
            Cell::Color4 => 4,
        }
    }
}

impl PartialOrd for Cell {
    /// Compares two cells by their ordinals.
    fn partial_cmp(&self, other: &Cell) -> (r: Option<Ordering>) {
        let a: u8 = self.ordinal();
        let b: u8 = other.ordinal();
        if a < b {
            Some(Ordering::Less)
        } else if a == b {
            Some(Ordering::Equal)
        } else {
            Some(Ordering::Greater)
        }
    }
}

impl vstd::std_specs::cmp::PartialOrdSpecImpl for Cell {
    open spec fn obeys_partial_cmp_spec() -> bool {
        true
    }

    open spec fn partial_cmp_spec(&self, other: &Cell) -> Option<Ordering> {
        if self.spec_lt(*other) {
            Some(Ordering::Less)
        } else if other.spec_lt(*self) {
            Some(Ordering::Greater)
        } else {
            Some(Ordering::Equal)
        }
    }
}

/// The five variants form a strictly increasing chain in declaration order.
pub proof fn lemma_cell_order_chain()
    ensures
        Cell::Empty.spec_lt(Cell::Color1),
        Cell::Color1.spec_lt(Cell::Color2),
        Cell::Color2.spec_lt(Cell::Color3),
        Cell::Color3.spec_lt(Cell::Color4),
{
}

/// The order is total: of any two cells exactly one ranks below the other,
/// unless they are equal.
pub proof fn lemma_cell_order_total(a: Cell, b: Cell)
    ensures
        a.spec_lt(b) || a == b || b.spec_lt(a),
        !(a.spec_lt(b) && b.spec_lt(a)),
        !(a.spec_lt(b) && a == b),
        a.spec_le(b) <==> a.spec_lt(b) || a == b,
        a.spec_le(b) || b.spec_le(a),
        a.spec_le(b) && b.spec_le(a) ==> a == b,
{
}

/// The order is transitive, strictly and weakly.
pub proof fn lemma_cell_order_transitive(a: Cell, b: Cell, c: Cell)
    ensures
        a.spec_lt(b) && b.spec_lt(c) ==> a.spec_lt(c),
        a.spec_le(b) && b.spec_le(c) ==> a.spec_le(c),
{
}

/// The comparison operators on cells agree with the order of the ordinals:
/// `<` is `spec_lt`, `<=` is `spec_le`, `>` and `>=` are their mirror images,
/// and two cells compare equal only if they are the same variant.
pub proof fn lemma_cell_operators(a: Cell, b: Cell)
    ensures
        a.is_lt(&b) <==> a.spec_lt(b),
        a.is_le(&b) <==> a.spec_le(b),
        a.is_gt(&b) <==> b.spec_lt(a),
        a.is_ge(&b) <==> b.spec_le(a),
        a.partial_cmp_spec(&b) == Some(Ordering::Equal) <==> a == b,
        a.partial_cmp_spec(&b) is Some,
{
}

} // verus!
