use vstd::prelude::*;
use crate::side::Side;

verus! {

/// One position of the board: its coordinates and the mark it holds, if any.
#[derive(Debug, Clone, Copy)]
pub struct Field {
    pub side: Option<Side>,
    pub x_axis: i8,
    pub y_axis: i8,
}

impl Field {
    /// An empty field at `(x_axis, y_axis)`.
    pub fn new(x_axis: i8, y_axis: i8) -> (r: Field)
        ensures
            r == (Field { side: None, x_axis, y_axis }),
    {
        Self { side: None, x_axis, y_axis }
    }

    /// Whether the field has the coordinates `(x, y)`.
    pub open spec fn at(self, x: int, y: int) -> bool {
        self.x_axis == x && self.y_axis == y
    }
}

} // verus!
