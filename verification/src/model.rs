use vstd::prelude::*;
use crate::side::Side;
use crate::field::Field;
use crate::error::MoveError;

verus! {

/// Whether `(x, y)` addresses a position of the 3x3 grid.
pub open spec fn in_grid(x: int, y: int) -> bool {
    0 <= x <= 2 && 0 <= y <= 2
}

/// The mathematical model of a board: its fields in the order of their
/// creation, the side to move, and the two scores.
pub struct BoardView {
    pub fields: Seq<Field>,
    pub current_player: Side,
    pub score_x: int,
    pub score_o: int,
}

impl BoardView {
    /// A valid board has nine fields, laid out row by row, so that the field
    /// at `(x, y)` is the one with index `3 * y + x`, and scores that are not
    /// negative and fit their counters.
    pub open spec fn wf(self) -> bool {
        &&& self.fields.len() == 9
        &&& forall|k: int| 0 <= k < 9 ==> (#[trigger] self.fields[k]).at(k % 3, k / 3)
        &&& 0 <= self.score_x <= i16::MAX
        &&& 0 <= self.score_o <= i16::MAX
    }

    /// The board at the start of the first round.
    pub open spec fn empty(starting: Side) -> BoardView {
        BoardView {
            fields: Seq::new(
                9,
                |k: int| Field { side: None, x_axis: (k % 3) as i8, y_axis: (k / 3) as i8 },
            ),
            current_player: starting,
            score_x: 0,
            score_o: 0,
        }
    }

    /// The mark on the field at `(x, y)`, if it holds one.
    pub open spec fn occupant(self, x: int, y: int) -> Option<Side> {
        self.fields[3 * y + x].side
    }

    /// Whether the field at `(x, y)` holds the mark `side`.
    pub open spec fn holds(self, side: Side, x: int, y: int) -> bool {
        self.occupant(x, y) == Some(side)
    }

    /// Whether `side` holds all three fields of a winning line. The lines 0 to
    /// 2 are the columns `x == line`, the lines 3 to 5 the rows
    /// `y == line - 3`, line 6 is the main diagonal and line 7 the other one.
    pub open spec fn holds_line(self, side: Side, line: int) -> bool {
        if 0 <= line < 3 {
            self.holds(side, line, 0) && self.holds(side, line, 1) && self.holds(side, line, 2)
        } else if 3 <= line < 6 {
            self.holds(side, 0, line - 3) && self.holds(side, 1, line - 3) && self.holds(
                side,
                2,
                line - 3,
            )
        } else if line == 6 {
            self.holds(side, 0, 0) && self.holds(side, 1, 1) && self.holds(side, 2, 2)
        } else if line == 7 {
            self.holds(side, 0, 2) && self.holds(side, 1, 1) && self.holds(side, 2, 0)
        } else {
            false
        }
    }

    /// Whether `side` holds one of the eight winning lines.
    pub open spec fn wins(self, side: Side) -> bool {
        ||| self.holds_line(side, 0)
        ||| self.holds_line(side, 1)
        ||| self.holds_line(side, 2)
        ||| self.holds_line(side, 3)
        ||| self.holds_line(side, 4)
        ||| self.holds_line(side, 5)
        ||| self.holds_line(side, 6)
        ||| self.holds_line(side, 7)
    }

    /// The winning side, if there is one; where both hold a line, `X`.
    pub open spec fn winner(self) -> Option<Side> {
        if self.wins(Side::X) {
            Some(Side::X)
        } else if self.wins(Side::O) {
            Some(Side::O)
        } else {
            None
        }
    }

    /// 1 if the field with index `k` holds `side`, else 0.
    pub open spec fn mark_at(self, side: Side, k: int) -> int {
        if self.fields[k].side == Some(side) {
            1
        } else {
            0
        }
    }

    /// The number of fields that hold the mark `side`.
    pub open spec fn marks(self, side: Side) -> int {
        self.mark_at(side, 0) + self.mark_at(side, 1) + self.mark_at(side, 2) + self.mark_at(
            side,
            3,
        ) + self.mark_at(side, 4) + self.mark_at(side, 5) + self.mark_at(side, 6) + self.mark_at(
            side,
            7,
        ) + self.mark_at(side, 8)
    }

    /// The board after the side to move has marked the field at `(x, y)`.
    pub open spec fn place(self, x: int, y: int) -> BoardView {
        BoardView {
            fields: self.fields.update(
                3 * y + x,
                Field {
                    side: Some(self.current_player),
                    x_axis: self.fields[3 * y + x].x_axis,
                    y_axis: self.fields[3 * y + x].y_axis,
                },
            ),
            current_player: self.current_player.opponent(),
            score_x: self.score_x,
            score_o: self.score_o,
        }
    }

    /// Why a move to `(x, y)` is refused, if it is: the coordinates address no
    /// field, or the field holds a mark already.
    pub open spec fn refusal(self, x: int, y: int) -> Option<MoveError> {
        if !in_grid(x, y) {
            Some(MoveError::FieldNotExists)
        } else if self.occupant(x, y).is_some() {
            Some(MoveError::FieldAlreadyTaken)
        } else {
            None
        }
    }

    /// The board after an attempt to move to `(x, y)`: a refused move
    /// changes nothing.
    pub open spec fn after_move(self, x: int, y: int) -> BoardView {
        if self.refusal(x, y).is_none() {
            self.place(x, y)
        } else {
            self
        }
    }

    /// The board after a turn: the move to `(x, y)` and, where it wins the
    /// round, the winner's score.
    pub open spec fn after_turn(self, x: int, y: int) -> BoardView {
        let moved = self.after_move(x, y);
        if self.refusal(x, y).is_none() && moved.winner().is_some() {
            moved.with_win(moved.winner().unwrap())
        } else {
            moved
        }
    }

    /// The board with every field emptied.
    pub open spec fn cleared(self) -> BoardView {
        BoardView {
            fields: Seq::new(
                self.fields.len(),
                |k: int|
                    Field {
                        side: None,
                        x_axis: self.fields[k].x_axis,
                        y_axis: self.fields[k].y_axis,
                    },
            ),
            current_player: self.current_player,
            score_x: self.score_x,
            score_o: self.score_o,
        }
    }

    /// The board with the turn handed to the other side.
    pub open spec fn turned(self) -> BoardView {
        BoardView {
            fields: self.fields,
            current_player: self.current_player.opponent(),
            score_x: self.score_x,
            score_o: self.score_o,
        }
    }

    /// The board after a round that `winner` won: the winner's score is one
    /// higher, and the loser moves first in the next round.
    pub open spec fn with_win(self, winner: Side) -> BoardView {
        BoardView {
            fields: self.fields,
            current_player: winner.opponent(),
            score_x: if winner == Side::X {
                self.score_x + 1
            } else {
                self.score_x
            },
            score_o: if winner == Side::O {
                self.score_o + 1
            } else {
                self.score_o
            },
        }
    }

    /// The score of `side`.
    pub open spec fn score(self, side: Side) -> int {
        match side {
            Side::X => self.score_x,
            Side::O => self.score_o,
        }
    }
}

/// The text of one field of the grid: its mark or `_`, a tab, and, where the
/// field ends a row of three, a line feed.
pub open spec fn cell_text(f: Field, index: int) -> Seq<char> {
    let glyph = match f.side {
        Some(side) => side.glyph(),
        None => '_',
    };
    if index % 3 == 2 {
        seq![glyph, '\t', '\n']
    } else {
        seq![glyph, '\t']
    }
}

/// The text of the first `n` fields of the grid.
pub open spec fn grid_text(fs: Seq<Field>, n: nat) -> Seq<char>
    decreases n,
{
    if n == 0 {
        Seq::empty()
    } else {
        grid_text(fs, (n - 1) as nat) + cell_text(fs[n - 1], n - 1)
    }
}

/// Whether a field lies on a winning line, by its own coordinates. The lines
/// are numbered as in [`BoardView::holds_line`].
pub open spec fn on_line(f: Field, line: int) -> bool {
    if 0 <= line < 3 {
        f.x_axis == line
    } else if 3 <= line < 6 {
        f.y_axis == line - 3
    } else if line == 6 {
        f.at(0, 0) || f.at(1, 1) || f.at(2, 2)
    } else if line == 7 {
        f.at(0, 2) || f.at(1, 1) || f.at(2, 0)
    } else {
        false
    }
}

/// The number of fields among the first `n` of `fs` that lie on `line`.
pub open spec fn tally_upto(fs: Seq<Field>, line: int, n: nat) -> nat
    decreases n,
{
    if n == 0 {
        0
    } else {
        tally_upto(fs, line, (n - 1) as nat) + if on_line(fs[n - 1], line) {
            1nat
        } else {
            0nat
        }
    }
}

/// The number of fields of `fs` that lie on `line`.
pub open spec fn tally(fs: Seq<Field>, line: int) -> nat {
    tally_upto(fs, line, fs.len())
}

/// Whether at least three fields are given and exactly three of them lie on
/// one of the eight winning lines.
pub open spec fn three_in_line(fs: Seq<Field>) -> bool {
    fs.len() >= 3 && exists|line: int| 0 <= line < 8 && #[trigger] tally(fs, line) == 3
}

/// The number of fields among the first `n` of `fs` that hold `side` and lie
/// on `line`.
pub open spec fn side_tally_upto(fs: Seq<Field>, side: Side, line: int, n: nat) -> nat
    decreases n,
{
    if n == 0 {
        0
    } else {
        side_tally_upto(fs, side, line, (n - 1) as nat) + if fs[n - 1].side == Some(side)
            && on_line(fs[n - 1], line) {
            1nat
        } else {
            0nat
        }
    }
}

/// The fields that a list of references points to.
pub open spec fn targets(refs: Seq<&Field>) -> Seq<Field> {
    Seq::new(refs.len(), |k: int| *refs[k])
}

/// The fields that a list of references to references points to.
pub open spec fn targets_twice(refs: Seq<&&Field>) -> Seq<Field> {
    Seq::new(refs.len(), |k: int| **refs[k])
}

/// A tally over the first `n` fields does not depend on the fields behind them.
pub proof fn lemma_tally_prefix(a: Seq<Field>, b: Seq<Field>, line: int, n: nat)
    requires
        n <= a.len(),
        n <= b.len(),
        forall|k: int| 0 <= k < n ==> a[k] == b[k],
    ensures
        tally_upto(a, line, n) == tally_upto(b, line, n),
    decreases n,
{
    if n > 0 {
        lemma_tally_prefix(a, b, line, (n - 1) as nat);
    }
}

/// A tally by side over the first `n` fields does not depend on the fields
/// behind them.
pub proof fn lemma_side_tally_prefix(a: Seq<Field>, b: Seq<Field>, side: Side, line: int, n: nat)
    requires
        n <= a.len(),
        n <= b.len(),
        forall|k: int| 0 <= k < n ==> a[k] == b[k],
    ensures
        side_tally_upto(a, side, line, n) == side_tally_upto(b, side, line, n),
    decreases n,
{
    if n > 0 {
        lemma_side_tally_prefix(a, b, side, line, (n - 1) as nat);
    }
}

/// On a valid board, a side has three marks on a line exactly when it holds
/// the line's three fields.
pub proof fn lemma_line_tally(b: BoardView, side: Side, line: int)
    requires
        b.wf(),
        0 <= line < 8,
    ensures
        side_tally_upto(b.fields, side, line, 9) == 3 <==> b.holds_line(side, line),
{
    reveal_with_fuel(side_tally_upto, 10);
    assert(b.fields[0].at(0, 0));
    assert(b.fields[1].at(1, 0));
    assert(b.fields[2].at(2, 0));
    assert(b.fields[3].at(0, 1));
    assert(b.fields[4].at(1, 1));
    assert(b.fields[5].at(2, 1));
    assert(b.fields[6].at(0, 2));
    assert(b.fields[7].at(1, 2));
    assert(b.fields[8].at(2, 2));
}

/// Fields whose tallies agree with the marks of `side` on a valid board show
/// three in a line exactly when `side` holds a winning line there.
pub proof fn lemma_wins_by_tally(b: BoardView, side: Side, fs: Seq<Field>)
    requires
        b.wf(),
        forall|line: int| #[trigger] tally(fs, line) == side_tally_upto(b.fields, side, line, 9),
    ensures
        three_in_line(fs) == b.wins(side),
{
    lemma_line_tally(b, side, 0);
    lemma_line_tally(b, side, 1);
    lemma_line_tally(b, side, 2);
    lemma_line_tally(b, side, 3);
    lemma_line_tally(b, side, 4);
    lemma_line_tally(b, side, 5);
    lemma_line_tally(b, side, 6);
    lemma_line_tally(b, side, 7);
    assert(tally(fs, 0) == side_tally_upto(b.fields, side, 0, 9));
    assert(tally(fs, 1) == side_tally_upto(b.fields, side, 1, 9));
    assert(tally(fs, 2) == side_tally_upto(b.fields, side, 2, 9));
    assert(tally(fs, 3) == side_tally_upto(b.fields, side, 3, 9));
    assert(tally(fs, 4) == side_tally_upto(b.fields, side, 4, 9));
    assert(tally(fs, 5) == side_tally_upto(b.fields, side, 5, 9));
    assert(tally(fs, 6) == side_tally_upto(b.fields, side, 6, 9));
    assert(tally(fs, 7) == side_tally_upto(b.fields, side, 7, 9));
    if b.wins(side) {
        let line = choose|line: int| 0 <= line < 8 && b.holds_line(side, line);
        assert(tally(fs, line) == 3);
        lemma_tally_bound(fs, line, fs.len());
    }
}

/// A tally never exceeds the number of fields counted.
pub proof fn lemma_tally_bound(fs: Seq<Field>, line: int, n: nat)
    ensures
        tally_upto(fs, line, n) <= n,
    decreases n,
{
    if n > 0 {
        lemma_tally_bound(fs, line, (n - 1) as nat);
    }
}

} // verus!
