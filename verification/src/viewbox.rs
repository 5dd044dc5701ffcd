//! The bounding-box accumulator: axis-aligned rectangles under union,
//! with an explicit empty rectangle as the union identity.

use vstd::prelude::*;

verus! {

/// An axis-aligned bounding rectangle, or the empty rectangle that is the
/// identity of the union operation.
#[derive(Clone, Copy, PartialEq, Eq, Structural, Debug)]
pub enum ViewBox {
    /// The union identity: unioning it with any rectangle yields that
    /// rectangle unchanged.
    Empty,
    /// A rectangle spanning `min_x..max_x` by `min_y..max_y`.
    Rect { min_x: i64, min_y: i64, max_x: i64, max_y: i64 },
}

impl ViewBox {
    /// The smallest rectangle containing both operands.
    pub open spec fn spec_add(self, other: ViewBox) -> ViewBox {
        match (self, other) {
            (ViewBox::Empty, o) => o,
            (s, ViewBox::Empty) => s,
            (
                ViewBox::Rect { min_x: ax0, min_y: ay0, max_x: ax1, max_y: ay1 },
                ViewBox::Rect { min_x: bx0, min_y: by0, max_x: bx1, max_y: by1 },
            ) => ViewBox::Rect {
                min_x: if ax0 <= bx0 { ax0 } else { bx0 },
                min_y: if ay0 <= by0 { ay0 } else { by0 },
                max_x: if ax1 >= bx1 { ax1 } else { bx1 },
                max_y: if ay1 >= by1 { ay1 } else { by1 },
            },
        }
    }

    /// Whether the point `(x, y)` lies inside the rectangle.
    pub open spec fn spec_contains(self, x: int, y: int) -> bool {
        match self {
            ViewBox::Empty => false,
            ViewBox::Rect { min_x, min_y, max_x, max_y } => min_x <= x <= max_x && min_y <= y
                <= max_y,
        }
    }

    /// A rectangle with the given extremes.
    pub fn new(min_x: i64, min_y: i64, max_x: i64, max_y: i64) -> (r: ViewBox)
        ensures
            r == (ViewBox::Rect { min_x, min_y, max_x, max_y }),
    {
        ViewBox::Rect { min_x, min_y, max_x, max_y }
    }

    /// Union of two rectangles: componentwise minimum of the lower corners
    /// and maximum of the upper corners; the empty rectangle never wins.
    pub fn add(&self, other: &ViewBox) -> (r: ViewBox)
        ensures
            r == self.spec_add(*other),
    {
        match (*self, *other) {
            (ViewBox::Empty, o) => o,
            (s, ViewBox::Empty) => s,
            (
                ViewBox::Rect { min_x: ax0, min_y: ay0, max_x: ax1, max_y: ay1 },
                ViewBox::Rect { min_x: bx0, min_y: by0, max_x: bx1, max_y: by1 },
            ) => ViewBox::Rect {
                min_x: if ax0 <= bx0 { ax0 } else { bx0 },
                min_y: if ay0 <= by0 { ay0 } else { by0 },
                max_x: if ax1 >= bx1 { ax1 } else { bx1 },
                max_y: if ay1 >= by1 { ay1 } else { by1 },
            },
        }
    }
}

impl Default for ViewBox {
    /// The union identity.
    fn default() -> (r: ViewBox)
        ensures
            r == ViewBox::Empty,
    {
        ViewBox::Empty
    }
}

/// The empty rectangle is an identity for union, on both sides.
pub proof fn lemma_add_identity(a: ViewBox)
    ensures
        ViewBox::Empty.spec_add(a) == a,
        a.spec_add(ViewBox::Empty) == a,
{
}

/// Union is commutative.
pub proof fn lemma_add_comm(a: ViewBox, b: ViewBox)
    ensures
        a.spec_add(b) == b.spec_add(a),
{
}

/// Union is associative.
pub proof fn lemma_add_assoc(a: ViewBox, b: ViewBox, c: ViewBox)
    ensures
        a.spec_add(b).spec_add(c) == a.spec_add(b.spec_add(c)),
{
}

/// Union only grows: a point inside either operand is inside the union.
pub proof fn lemma_add_contains(a: ViewBox, b: ViewBox, x: int, y: int)
    ensures
        a.spec_contains(x, y) ==> a.spec_add(b).spec_contains(x, y),
        b.spec_contains(x, y) ==> a.spec_add(b).spec_contains(x, y),
{
}

} // verus!
