use vstd::prelude::*;
use crate::side::Side;
use crate::field::Field;
use crate::error::MoveError;
use crate::model::{
    cell_text, grid_text, in_grid, lemma_side_tally_prefix, lemma_tally_prefix, lemma_wins_by_tally, on_line,
    side_tally_upto, tally, tally_upto, targets, targets_twice, three_in_line, BoardView,
};

verus! {

/// The board of a game: nine fields, the side to move, and the wins of each
/// side over the rounds played so far.
pub struct GameBoard {
    fields: Vec<Field>,
    current_player: Side,
    score_x: i16,
    score_o: i16,
}

impl View for GameBoard {
    type V = BoardView;

    closed spec fn view(&self) -> BoardView {
        BoardView {
            fields: self.fields@,
            current_player: self.current_player,
            score_x: self.score_x as int,
            score_o: self.score_o as int,
        }
    }
}

impl GameBoard {
    /// A board with nine empty fields, no wins, and `current_player` to move.
    pub fn new(current_player: Side) -> (r: Self)
        ensures
            r@ == BoardView::empty(current_player),
            r@.wf(),
    {
        let mut fields: Vec<Field> = Vec::new();
        let mut i: i8 = 0;
        while i <= 2
            invariant
                0 <= i <= 3,
                fields@.len() == 3 * i,
                forall|k: int|
                    0 <= k < fields@.len() ==> #[trigger] fields@[k] == (Field {
                        side: None,
                        x_axis: (k % 3) as i8,
                        y_axis: (k / 3) as i8,
                    }),
            decreases 3 - i,
        {
            let mut j: i8 = 0;
            while j <= 2
                invariant
                    0 <= i <= 2,
                    0 <= j <= 3,
                    fields@.len() == 3 * i + j,
                    forall|k: int|
                        0 <= k < fields@.len() ==> #[trigger] fields@[k] == (Field {
                            side: None,
                            x_axis: (k % 3) as i8,
                            y_axis: (k / 3) as i8,
                        }),
                decreases 3 - j,
            {
                fields.push(Field::new(j, i));
                j = j + 1;
            }
            i = i + 1;
        }
        let r = Self { fields, current_player, score_x: 0, score_o: 0 };
        assert(r@.fields =~= BoardView::empty(current_player).fields);
        r
    }

    /// The side whose turn it is.
    pub fn current_player(&self) -> (r: Side)
        ensures
            r == self@.current_player,
    {
        self.current_player
    }

    /// The number of rounds that `X` has won.
    pub fn score_x(&self) -> (r: i16)
        ensures
            r == self@.score_x,
    {
        self.score_x
    }

    /// The number of rounds that `O` has won.
    pub fn score_o(&self) -> (r: i16)
        ensures
            r == self@.score_o,
    {
        self.score_o
    }

    /// The fields in the order of their creation.
    pub fn fields(&self) -> (r: &Vec<Field>)
        ensures
            r@ == self@.fields,
    {
        &self.fields
    }

    /// Empties every field. The side to move and the scores stay.
    pub fn _clean_game_board(&mut self)
        ensures
            final(self)@ == old(self)@.cleared(),
            old(self)@.wf() ==> final(self)@.wf(),
    {
        let n = self.fields.len();
        let mut i: usize = 0;
        while i < n
            invariant
                0 <= i <= n,
                n == self.fields@.len(),
                n == old(self).fields@.len(),
                self.current_player == old(self).current_player,
                self.score_x == old(self).score_x,
                self.score_o == old(self).score_o,
                forall|k: int|
                    0 <= k < n ==> (#[trigger] self.fields@[k]).x_axis == old(self).fields@[k].x_axis
                        && self.fields@[k].y_axis == old(self).fields@[k].y_axis,
                forall|k: int| 0 <= k < i ==> (#[trigger] self.fields@[k]).side.is_none(),
            decreases n - i,
        {
            let f = self.fields[i];
            self.fields.set(i, Field { side: None, x_axis: f.x_axis, y_axis: f.y_axis });
            i = i + 1;
        }
        assert(self@.fields =~= old(self)@.cleared().fields);
    }

    /// Marks the field at `(x_axis, y_axis)` for the side to move and hands
    /// the turn to the other side. A move to coordinates outside the grid or
    /// to a field that is taken is refused and changes nothing.
    pub fn _take_field(&mut self, x_axis: i8, y_axis: i8) -> (r: Result<(), MoveError>)
        requires
            old(self)@.wf(),
        ensures
            final(self)@.wf(),
            r == match old(self)@.refusal(x_axis as int, y_axis as int) {
                Some(e) => Err::<(), MoveError>(e),
                None => Ok::<(), MoveError>(()),
            },
            final(self)@ == old(self)@.after_move(x_axis as int, y_axis as int),
            r.is_ok() ==> final(self)@.current_player == old(self)@.current_player.opponent()
                && final(self)@.occupant(x_axis as int, y_axis as int) == Some(
                old(self)@.current_player,
            ),
            r.is_err() ==> final(self)@ == old(self)@,
    {
        let n = self.fields.len();
        let mut i: usize = 0;
        while i < n
            invariant
                0 <= i <= n,
                n == 9,
                *self == *old(self),
                self@.wf(),
                forall|k: int| 0 <= k < i ==> !(#[trigger] self.fields@[k]).at(
                    x_axis as int,
                    y_axis as int,
                ),
            decreases n - i,
        {
            let f = self.fields[i];
            if f.x_axis == x_axis && f.y_axis == y_axis {
                assert(i == 3 * y_axis + x_axis);
                match f.side {
                    None => {
                        self.fields.set(
                            i,
                            Field { side: Some(self.current_player), x_axis: f.x_axis, y_axis: f.y_axis },
                        );
                        self._next_player_turn();
                        assert(self@.fields =~= old(self)@.place(
                            x_axis as int,
                            y_axis as int,
                        ).fields);
                        return Ok(());
                    },
                    Some(_) => {
                        return Err(MoveError::FieldAlreadyTaken);
                    },
                }
            }
            i = i + 1;
        }
        proof {
            if in_grid(x_axis as int, y_axis as int) {
                let k = 3 * y_axis + x_axis;
                assert(self.fields@[k].at(k % 3, k / 3));
            }
        }
        Err(MoveError::FieldNotExists)
    }

    /// Hands the turn to the other side.
    pub fn _next_player_turn(&mut self)
        ensures
            final(self)@ == old(self)@.turned(),
    {
        match self.current_player {
            Side::X => self.current_player = Side::O,
            Side::O => self.current_player = Side::X,
        }
    }

    /// Whether `f` lies on the winning line `line`.
    fn field_on_line(f: &Field, line: u8) -> (r: bool)
        ensures
            r == on_line(*f, line as int),
    {
        if line < 3 {
            f.x_axis == line as i8
        } else if line < 6 {
            f.y_axis == (line - 3) as i8
        } else if line == 6 {
            f.x_axis == 0 && f.y_axis == 0 || f.x_axis == 1 && f.y_axis == 1 || f.x_axis == 2
                && f.y_axis == 2
        } else if line == 7 {
            f.x_axis == 0 && f.y_axis == 2 || f.x_axis == 1 && f.y_axis == 1 || f.x_axis == 2
                && f.y_axis == 0
        } else {
            false
        }
    }

    /// The number of the given fields that lie on the winning line `line`.
    fn count_on_line(same_side_fields: &Vec<&&Field>, line: u8) -> (r: usize)
        ensures
            r == tally(targets_twice(same_side_fields@), line as int),
    {
        let n = same_side_fields.len();
        let ghost fs = targets_twice(same_side_fields@);
        let mut count: usize = 0;
        let mut i: usize = 0;
        while i < n
            invariant
                0 <= i <= n,
                n == same_side_fields@.len(),
                fs == targets_twice(same_side_fields@),
                count == tally_upto(fs, line as int, i as nat),
                count <= i,
            decreases n - i,
        {
            if Self::field_on_line(*same_side_fields[i], line) {
                count = count + 1;
            }
            i = i + 1;
        }
        count
    }

    /// Whether the given fields, all of one side, make that side the winner:
    /// there are at least three of them, and exactly three lie on one line.
    pub fn _has_won(&self, same_side_fields: Vec<&&Field>) -> (r: bool)
        ensures
            r == three_in_line(targets_twice(same_side_fields@)),
    {
        if same_side_fields.len() < 3 {
            return false;
        }
        let ghost fs = targets_twice(same_side_fields@);
        let mut line: u8 = 0;
        while line < 8
            invariant
                0 <= line <= 8,
                fs == targets_twice(same_side_fields@),
                fs.len() >= 3,
                forall|l: int| 0 <= l < line ==> #[trigger] tally(fs, l) != 3,
            decreases 8 - line,
        {
            if Self::count_on_line(&same_side_fields, line) == 3 {
                assert(tally(fs, line as int) == 3);
                return true;
            }
            line = line + 1;
        }
        false
    }

    /// The fields that hold a mark.
    fn taken_fields(&self) -> (r: Vec<&Field>)
        ensures
            forall|side: Side, line: int| #[trigger]
                side_tally_upto(targets(r@), side, line, r@.len()) == side_tally_upto(
                    self@.fields,
                    side,
                    line,
                    self@.fields.len(),
                ),
    {
        let n = self.fields.len();
        let mut taken: Vec<&Field> = Vec::new();
        let mut i: usize = 0;
        while i < n
            invariant
                0 <= i <= n,
                n == self.fields@.len(),
                forall|side: Side, line: int| #[trigger]
                    side_tally_upto(targets(taken@), side, line, taken@.len()) == side_tally_upto(
                        self.fields@,
                        side,
                        line,
                        i as nat,
                    ),
            decreases n - i,
        {
            let ghost before = targets(taken@);
            if self.fields[i].side.is_some() {
                taken.push(&self.fields[i]);
            }
            proof {
                let after = targets(taken@);
                assert forall|side: Side, line: int| #[trigger]
                    side_tally_upto(after, side, line, after.len()) == side_tally_upto(
                        self.fields@,
                        side,
                        line,
                        (i + 1) as nat,
                    ) by {
                    lemma_side_tally_prefix(after, before, side, line, before.len());
                    assert(side_tally_upto(before, side, line, before.len()) == side_tally_upto(
                        self.fields@,
                        side,
                        line,
                        i as nat,
                    ));
                    if after.len() > before.len() {
                        assert(after.len() == before.len() + 1);
                        assert(after[after.len() - 1] == self.fields@[i as int]);
                    } else {
                        assert(after =~= before);
                        assert(self.fields@[i as int].side.is_none());
                    }
                }
            }
            i = i + 1;
        }
        taken
    }

    /// Those of the given fields that hold the mark `side`.
    fn fields_of_side<'a, 'b>(taken: &'a Vec<&'b Field>, side: Side) -> (r: Vec<&'a &'b Field>)
        ensures
            forall|line: int| #[trigger]
                tally(targets_twice(r@), line) == side_tally_upto(
                    targets(taken@),
                    side,
                    line,
                    taken@.len(),
                ),
    {
        let n = taken.len();
        let mut picked: Vec<&&Field> = Vec::new();
        let mut i: usize = 0;
        while i < n
            invariant
                0 <= i <= n,
                n == taken@.len(),
                forall|line: int| #[trigger]
                    tally(targets_twice(picked@), line) == side_tally_upto(
                        targets(taken@),
                        side,
                        line,
                        i as nat,
                    ),
            decreases n - i,
        {
            let ghost before = targets_twice(picked@);
            let holds = match taken[i].side {
                Some(s) => s == side,
                None => false,
            };
            if holds {
                picked.push(&taken[i]);
            }
            proof {
                let after = targets_twice(picked@);
                assert forall|line: int| #[trigger]
                    tally(after, line) == side_tally_upto(
                        targets(taken@),
                        side,
                        line,
                        (i + 1) as nat,
                    ) by {
                    lemma_tally_prefix(after, before, line, before.len());
                    assert(tally(before, line) == side_tally_upto(
                        targets(taken@),
                        side,
                        line,
                        i as nat,
                    ));
                    if after.len() > before.len() {
                        assert(after.len() == before.len() + 1);
                        assert(after[after.len() - 1] == targets(taken@)[i as int]);
                    } else {
                        assert(after =~= before);
                    }
                }
            }
            i = i + 1;
        }
        picked
    }

    /// The side that holds a winning line, if one does. Where both do, which
    /// no sequence of legal moves brings about, the answer is `X`.
    pub fn _find_winner(&self) -> (r: Option<Side>)
        requires
            self@.wf(),
        ensures
            r == self@.winner(),
    {
        let taken_fields = self.taken_fields();
        let all_x_fields = Self::fields_of_side(&taken_fields, Side::X);
        let all_o_fields = Self::fields_of_side(&taken_fields, Side::O);
        proof {
            lemma_wins_by_tally(self@, Side::X, targets_twice(all_x_fields@));
            lemma_wins_by_tally(self@, Side::O, targets_twice(all_o_fields@));
        }
        if self._has_won(all_x_fields) {
            return Some(Side::X);
        }
        match self._has_won(all_o_fields) {
            true => Some(Side::O),
            false => None,
        }
    }

    /// The mark on the field at `(x, y)`; `None` where the field is empty or
    /// the coordinates address no field.
    pub fn side_at(&self, x: i8, y: i8) -> (r: Option<Side>)
        requires
            self@.wf(),
        ensures
            r == if in_grid(x as int, y as int) {
                self@.occupant(x as int, y as int)
            } else {
                None
            },
    {
        if 0 <= x && x <= 2 && 0 <= y && y <= 2 {
            let index: usize = (3 * y + x) as usize;
            self.fields[index].side
        } else {
            None
        }
    }

    /// The grid as text, field by field in the order of their creation: the
    /// mark or `_`, then a tab, and a line feed after every third field.
    pub fn board_text(&self) -> (r: String)
        ensures
            r@ == grid_text(self@.fields, self@.fields.len()),
    {
        let mut text = String::new();
        let n = self.fields.len();
        let mut i: usize = 0;
        while i < n
            invariant
                0 <= i <= n,
                n == self.fields@.len(),
                text@ == grid_text(self.fields@, i as nat),
            decreases n - i,
        {
            let ghost before = text@;
            proof {
                reveal_strlit("_");
                reveal_strlit("\t");
                reveal_strlit("\n");
            }
            match self.fields[i].side {
                None => text.append("_"),
                Some(side) => text.append(side.label()),
            }
            text.append("\t");
            if i % 3 == 2 {
                text.append("\n");
            }
            assert(text@ =~= before + cell_text(self.fields@[i as int], i as int));
            i = i + 1;
        }
        text
    }

    /// Plays one turn: the side to move marks the field at `(x_axis, y_axis)`,
    /// and where that wins the round, the win is counted and the loser is to
    /// move. A refused move changes nothing. Returns the winner, if the move
    /// made one.
    pub fn play_turn(&mut self, x_axis: i8, y_axis: i8) -> (r: Result<Option<Side>, MoveError>)
        requires
            old(self)@.wf(),
            old(self)@.score_x < i16::MAX,
            old(self)@.score_o < i16::MAX,
        ensures
            final(self)@.wf(),
            final(self)@ == old(self)@.after_turn(x_axis as int, y_axis as int),
            r == match old(self)@.refusal(x_axis as int, y_axis as int) {
                Some(e) => Err::<Option<Side>, MoveError>(e),
                None => Ok::<Option<Side>, MoveError>(
                    old(self)@.place(x_axis as int, y_axis as int).winner(),
                ),
            },
    {
        match self._take_field(x_axis, y_axis) {
            Err(e) => Err(e),
            Ok(()) => {
                let winner = self._find_winner();
                match winner {
                    Some(side) => self.record_win(side),
                    None => {},
                }
                Ok(winner)
            },
        }
    }

    /// Counts a won round for `winner` and lets the loser move first in the
    /// next round.
    pub fn record_win(&mut self, winner: Side)
        requires
            old(self)@.score(winner) < i16::MAX,
        ensures
            final(self)@ == old(self)@.with_win(winner),
            old(self)@.wf() ==> final(self)@.wf(),
    {
        match winner {
            Side::X => {
                self.score_x = self.score_x + 1;
                self.current_player = Side::O;
            },
            Side::O => {
                self.score_o = self.score_o + 1;
                self.current_player = Side::X;
            },
        }
    }
}

} // verus!
