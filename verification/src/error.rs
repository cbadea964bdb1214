use vstd::prelude::*;

verus! {

/// Why a move was refused.
#[derive(Debug, Clone, Copy, PartialEq, Eq, Structural)]
pub enum MoveError {
    /// No field of the board has the given coordinates.
    FieldNotExists,
    /// The field at the given coordinates already holds a mark.
    FieldAlreadyTaken,
}

impl MoveError {
    /// A sentence that describes the error.
    pub fn description(self) -> (r: &'static str)
        ensures
            self == MoveError::FieldNotExists ==> r@
                == "Field for given x and y values does not exist"@,
            self == MoveError::FieldAlreadyTaken ==> r@ == "Field is already taken by a player"@,
    {
        match self {
            MoveError::FieldNotExists => "Field for given x and y values does not exist",
            MoveError::FieldAlreadyTaken => "Field is already taken by a player",
        }
    }
}

} // verus!
