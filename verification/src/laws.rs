use vstd::prelude::*;
use crate::side::Side;
use crate::error::MoveError;
use crate::model::{in_grid, BoardView};

verus! {

/// A new board is valid and all its fields are empty, so every move to a
/// position of the grid is accepted on it.
pub proof fn law_new_board_is_empty(starting: Side, x: int, y: int)
    requires
        in_grid(x, y),
    ensures
        BoardView::empty(starting).wf(),
        BoardView::empty(starting).occupant(x, y).is_none(),
        BoardView::empty(starting).refusal(x, y).is_none(),
        BoardView::empty(starting).marks(Side::X) == 0,
        BoardView::empty(starting).marks(Side::O) == 0,
{
}

/// On a valid board each position of the grid has exactly one field: the
/// field with index `3 * y + x` has the coordinates `(x, y)`, and no other
/// field has them.
pub proof fn law_one_field_per_position(b: BoardView, x: int, y: int)
    requires
        b.wf(),
        in_grid(x, y),
    ensures
        0 <= 3 * y + x < 9,
        b.fields[3 * y + x].at(x, y),
        forall|k: int| 0 <= k < 9 && b.fields[k].at(x, y) ==> k == 3 * y + x,
{
    assert(b.fields[3 * y + x].at((3 * y + x) % 3, (3 * y + x) / 3));
    assert forall|k: int| 0 <= k < 9 && b.fields[k].at(x, y) implies k == 3 * y + x by {
        assert(b.fields[k].at(k % 3, k / 3));
    }
}

/// No field of a valid board lies outside the grid: a move to such
/// coordinates finds no field.
pub proof fn law_no_field_outside_grid(b: BoardView, x: int, y: int)
    requires
        b.wf(),
        !in_grid(x, y),
    ensures
        forall|k: int| 0 <= k < 9 ==> !b.fields[k].at(x, y),
        b.refusal(x, y) == Some(MoveError::FieldNotExists),
        b.after_move(x, y) == b,
{
    assert forall|k: int| 0 <= k < 9 implies !b.fields[k].at(x, y) by {
        assert(b.fields[k].at(k % 3, k / 3));
    }
}

/// A move succeeds once per field: after an accepted move to `(x, y)` the
/// board stays valid, the field holds the mover's mark, and a second move to
/// it is refused as taken and changes nothing.
pub proof fn law_move_succeeds_once(b: BoardView, x: int, y: int)
    requires
        b.wf(),
        b.refusal(x, y).is_none(),
    ensures
        b.after_move(x, y).wf(),
        b.after_move(x, y).occupant(x, y) == Some(b.current_player),
        b.after_move(x, y).refusal(x, y) == Some(MoveError::FieldAlreadyTaken),
        b.after_move(x, y).after_move(x, y) == b.after_move(x, y),
{
    law_one_field_per_position(b, x, y);
}

/// A field that holds a mark keeps it through every later move, so it stays
/// closed to moves until the board is cleared.
pub proof fn law_taken_stays_taken(b: BoardView, x: int, y: int, x2: int, y2: int)
    requires
        b.wf(),
        in_grid(x, y),
        b.occupant(x, y).is_some(),
    ensures
        b.after_move(x2, y2).occupant(x, y) == b.occupant(x, y),
        b.after_move(x2, y2).refusal(x, y) == Some(MoveError::FieldAlreadyTaken),
{
    if b.refusal(x2, y2).is_none() {
        assert(3 * y2 + x2 != 3 * y + x);
    }
}

/// An accepted move changes the field it goes to and no other, and leaves
/// the scores as they are.
pub proof fn law_move_touches_one_field(b: BoardView, x: int, y: int, x2: int, y2: int)
    requires
        b.wf(),
        b.refusal(x, y).is_none(),
        in_grid(x2, y2),
        x2 != x || y2 != y,
    ensures
        b.after_move(x, y).occupant(x2, y2) == b.occupant(x2, y2),
        b.after_move(x, y).score_x == b.score_x,
        b.after_move(x, y).score_o == b.score_o,
{
}

/// A refused move changes neither the side to move nor any field.
pub proof fn law_refused_move_changes_nothing(b: BoardView, x: int, y: int)
    requires
        b.wf(),
        b.refusal(x, y).is_some(),
    ensures
        b.after_move(x, y) == b,
        in_grid(x, y) ==> b.refusal(x, y) == Some(MoveError::FieldAlreadyTaken),
{
}

/// After an accepted move the side to move is the one that did not just
/// place its mark.
pub proof fn law_turn_alternates(b: BoardView, x: int, y: int)
    requires
        b.wf(),
        b.refusal(x, y).is_none(),
    ensures
        b.after_move(x, y).current_player == b.current_player.opponent(),
        b.after_move(x, y).current_player != b.current_player,
        b.after_move(x, y).occupant(x, y) != Some(b.after_move(x, y).current_player),
{
    law_move_succeeds_once(b, x, y);
}

/// A side with fewer than three marks on the board holds no winning line; a
/// board on which neither side has three marks has no winner.
pub proof fn law_no_winner_under_three_marks(b: BoardView, side: Side)
    requires
        b.wf(),
        b.marks(side) < 3,
    ensures
        !b.wins(side),
        b.marks(side.opponent()) < 3 ==> b.winner().is_none(),
{
}

/// An empty board has no winner.
pub proof fn law_empty_board_has_no_winner(starting: Side)
    ensures
        BoardView::empty(starting).winner().is_none(),
        BoardView::empty(starting).cleared().winner().is_none(),
{
    law_new_board_is_empty(starting, 0, 0);
    law_no_winner_under_three_marks(BoardView::empty(starting), Side::X);
    law_cleared_board(BoardView::empty(starting), 0, 0);
    law_no_winner_under_three_marks(BoardView::empty(starting).cleared(), Side::X);
}

/// A single move cannot make both sides winners: on a board without a winner
/// an accepted move leaves the side that did not move without a winning line.
pub proof fn law_only_mover_can_win(b: BoardView, x: int, y: int)
    requires
        b.wf(),
        b.winner().is_none(),
        b.refusal(x, y).is_none(),
    ensures
        !b.after_move(x, y).wins(b.current_player.opponent()),
        !(b.after_move(x, y).wins(Side::X) && b.after_move(x, y).wins(Side::O)),
        b.after_move(x, y).winner().is_some() ==> b.after_move(x, y).winner() == Some(
            b.current_player,
        ),
{
}

/// Clearing a valid board empties all nine fields, keeps the board valid and
/// leaves the scores and the side to move as they are; every field is then
/// open to a move again.
pub proof fn law_cleared_board(b: BoardView, x: int, y: int)
    requires
        b.wf(),
        in_grid(x, y),
    ensures
        b.cleared().wf(),
        b.cleared().occupant(x, y).is_none(),
        b.cleared().refusal(x, y).is_none(),
        b.cleared().marks(Side::X) == 0,
        b.cleared().marks(Side::O) == 0,
        b.cleared().score_x == b.score_x,
        b.cleared().score_o == b.score_o,
        b.cleared().current_player == b.current_player,
{
}

/// A recorded win raises the winner's score by exactly one, leaves the
/// loser's score and all fields as they are, and lets the loser move first.
pub proof fn law_win_counts_once(b: BoardView, winner: Side)
    ensures
        b.with_win(winner).score(winner) == b.score(winner) + 1,
        b.with_win(winner).score(winner.opponent()) == b.score(winner.opponent()),
        b.with_win(winner).current_player == winner.opponent(),
        b.with_win(winner).fields == b.fields,
        b.with_win(Side::X).score_x == b.score_x + 1,
        b.with_win(Side::X).score_o == b.score_o,
        b.with_win(Side::X).current_player == Side::O,
{
}

/// Over a turn a score never falls, and it rises, by exactly one, only for
/// the side whose move won the round.
pub proof fn law_scores_rise_only_on_a_win(b: BoardView, x: int, y: int)
    requires
        b.wf(),
    ensures
        b.after_turn(x, y).score_x == b.score_x || b.after_turn(x, y).score_x == b.score_x + 1,
        b.after_turn(x, y).score_o == b.score_o || b.after_turn(x, y).score_o == b.score_o + 1,
        b.after_turn(x, y).score_x + b.after_turn(x, y).score_o > b.score_x + b.score_o <==> (
        b.refusal(x, y).is_none() && b.place(x, y).winner().is_some()),
{
}

/// The winner is a function of the fields alone: asking for it changes
/// nothing, and asking twice of one board gives the same answer.
pub proof fn law_winner_repeats(a: BoardView, b: BoardView)
    requires
        a.fields == b.fields,
    ensures
        a.winner() == b.winner(),
        a.turned().winner() == a.winner(),
        a.with_win(Side::X).winner() == a.winner(),
        a.with_win(Side::O).winner() == a.winner(),
{
}

} // verus!
