use vstd::prelude::*;

verus! {

/// One of the two marks that the players place on the board.
#[derive(Debug, Clone, Copy, PartialEq, Eq, Structural)]
pub enum Side {
    X,
    O,
}

impl Side {
    /// The mark of the opponent.
    pub open spec fn opponent(self) -> Side {
        match self {
            Side::X => Side::O,
            Side::O => Side::X,
        }
    }

    /// The glyph that stands for this mark in text.
    pub open spec fn glyph(self) -> char {
        match self {
            Side::X => 'X',
            Side::O => 'O',
        }
    }

    /// The mark of the opponent.
    pub fn other(self) -> (r: Side)
        ensures
            r == self.opponent(),
    {
        match self {
            Side::X => Side::O,
            Side::O => Side::X,
        }
    }

    /// The mark as text: `"X"` or `"O"`.
    pub fn label(self) -> (r: &'static str)
        ensures
            r@ == seq![self.glyph()],
    {
        proof {
            reveal_strlit("X");
            reveal_strlit("O");
        }
        match self {
            Side::X => {
                assert("X"@ =~= seq!['X']);
                "X"
            },
            Side::O => {
                assert("O"@ =~= seq!['O']);
                "O"
            },
        }
    }
}

} // verus!
