//! Laws of the game state machine, proved of `step`, the transition that
//! `Game::do_move` computes.

use vstd::prelude::*;
use crate::pieces::{at, opposite, Board, Color, Decision, Move, MoveError, MoveType, PieceType};
use crate::movement::{gap, knight_shape, movement_error, span, within_board};
use crate::game::{
    classify, has_reply, moved, rejection, reversible_run, step, win_for, GameView,
};

verus! {

/// The state after the moves of `moves` have been proposed in turn, starting
/// from `v`.
pub open spec fn play(v: GameView, moves: Seq<Move>) -> GameView
    decreases moves.len(),
{
    if moves.len() == 0 {
        v
    } else {
        play(step(v, moves[0]).0, moves.drop_first())
    }
}

/// An accepted move passes the turn to the other side.
pub proof fn lemma_turn_alternates(v: GameView, mv: Move)
    requires
        step(v, mv).1 is Ok,
    ensures
        step(v, mv).0.turn != v.turn,
{
}

/// A rejected move passes the turn to nobody.
pub proof fn lemma_turn_kept_on_rejection(v: GameView, mv: Move)
    requires
        step(v, mv).1 is Err,
    ensures
        step(v, mv).0.turn == v.turn,
{
}

/// A rejected move leaves the whole game as it was. This holds in particular
/// of a move rejected because it would expose the mover's own king: nothing of
/// the trial remains on the board.
pub proof fn lemma_rejection_changes_nothing(v: GameView, mv: Move)
    requires
        step(v, mv).1 is Err,
    ensures
        step(v, mv).0 == v,
        step(v, mv).0.board == v.board,
{
}

/// A move rejected once is rejected again, with the same error, when it is
/// proposed a second time.
pub proof fn lemma_rejection_repeats(v: GameView, mv: Move)
    requires
        step(v, mv).1 is Err,
    ensures
        step(step(v, mv).0, mv) == step(v, mv),
{
}

/// A finished game rejects every move and stays as it is.
pub proof fn lemma_terminal_lock(v: GameView, mv: Move)
    requires
        v.finished,
    ensures
        step(v, mv) == (v, Err::<Option<Decision>, MoveError>(MoveError::Mated)),
{
}

/// No sequence of moves changes a finished game.
pub proof fn lemma_finished_forever(v: GameView, moves: Seq<Move>)
    requires
        v.finished,
    ensures
        play(v, moves) == v,
    decreases moves.len(),
{
    if moves.len() > 0 {
        lemma_terminal_lock(v, moves[0]);
        lemma_finished_forever(v, moves.drop_first());
    }
}

/// A game is finished after an accepted move exactly when the move was
/// reported to end it.
pub proof fn lemma_finished_when_decided(v: GameView, mv: Move)
    requires
        step(v, mv).1 is Ok,
    ensures
        step(v, mv).0.finished == (step(v, mv).1->Ok_0 is Some),
{
}

/// An accepted move adds one entry to the history and keeps the entries
/// before it.
pub proof fn lemma_history_grows(v: GameView, mv: Move)
    requires
        step(v, mv).1 is Ok,
    ensures
        step(v, mv).0.history.len() == v.history.len() + 1,
        step(v, mv).0.history.drop_last() == v.history,
{
    let h = step(v, mv).0.history;
    assert(h.drop_last() =~= v.history);
}

/// An accepted move that leaves the other side without a reply wins the game
/// for the side that made it, whatever the history holds.
pub proof fn lemma_no_reply_wins(v: GameView, mv: Move)
    requires
        rejection(v, mv) is None,
        !has_reply(moved(v.board, mv), opposite(v.turn)),
    ensures
        step(v, mv).1 == Ok::<Option<Decision>, MoveError>(Some(win_for(v.turn))),
        step(v, mv).0.finished,
{
}

/// In a game whose recent history holds no pawn move and no capture, an
/// accepted move that is neither of the two, and that leaves the other side
/// a reply, draws the game.
pub proof fn lemma_reversible_run_draws(v: GameView, mv: Move)
    requires
        rejection(v, mv) is None,
        reversible_run(v.history),
        classify(v.board, mv) == MoveType::Other,
        has_reply(moved(v.board, mv), opposite(v.turn)),
    ensures
        step(v, mv).1 == Ok::<Option<Decision>, MoveError>(Some(Decision::Tie)),
        step(v, mv).0.finished,
{
    let h = v.history.push(classify(v.board, mv));
    assert(reversible_run(h));
}

/// A pawn's move or a capture that leaves the other side a reply does not
/// end the game.
pub proof fn lemma_progress_continues(v: GameView, mv: Move)
    requires
        rejection(v, mv) is None,
        classify(v.board, mv) == MoveType::CaptureOrPawn,
        has_reply(moved(v.board, mv), opposite(v.turn)),
    ensures
        step(v, mv).1 == Ok::<Option<Decision>, MoveError>(None),
        !step(v, mv).0.finished,
{
    let h = v.history.push(classify(v.board, mv));
    assert(h[h.len() - 1] == MoveType::CaptureOrPawn);
}

/// On the board, a knight's move that is not a jump of one square by two
/// breaks the movement rule, whatever stands in its way.
pub proof fn lemma_knight_shape_enforced(b: Board, side: Color, mv: Move, capture: bool)
    requires
        within_board(mv),
        !knight_shape(
            gap(mv.start_x as int, mv.end_x as int),
            gap(mv.start_y as int, mv.end_y as int),
        ),
    ensures
        movement_error(b, side, mv, PieceType::Knight, capture) == Some(MoveError::Movement),
{
}

/// On the board, a king's move that does not end on a neighbouring square
/// breaks the movement rule.
pub proof fn lemma_king_shape_enforced(b: Board, side: Color, mv: Move, capture: bool)
    requires
        within_board(mv),
        span(mv.start_x as int, mv.start_y as int, mv.end_x as int, mv.end_y as int) != 1,
    ensures
        movement_error(b, side, mv, PieceType::King, capture) == Some(MoveError::Movement),
{
}

/// In a game that is not finished, a move on the board by a knight of the
/// side to move that is not a jump of one square by two, and does not end on
/// a piece of that side, is rejected for its movement.
pub proof fn lemma_knight_move_rejected(v: GameView, mv: Move)
    requires
        !v.finished,
        within_board(mv),
        at(v.board, mv.start_x as int, mv.start_y as int) matches Some(p) && p.piece is Knight
            && p.color == v.turn,
        !(at(v.board, mv.end_x as int, mv.end_y as int) matches Some(q) && q.color == v.turn),
        !knight_shape(
            gap(mv.start_x as int, mv.end_x as int),
            gap(mv.start_y as int, mv.end_y as int),
        ),
    ensures
        rejection(v, mv) == Some(MoveError::Movement),
        step(v, mv).0 == v,
        step(v, mv).1 == Err::<Option<Decision>, MoveError>(MoveError::Movement),
{
}

/// In a game that is not finished, a move on the board by the king of the
/// side to move that does not end on a neighbouring square, nor on a piece of
/// that side, is rejected for its movement.
pub proof fn lemma_king_move_rejected(v: GameView, mv: Move)
    requires
        !v.finished,
        within_board(mv),
        at(v.board, mv.start_x as int, mv.start_y as int) matches Some(p) && p.piece is King
            && p.color == v.turn,
        !(at(v.board, mv.end_x as int, mv.end_y as int) matches Some(q) && q.color == v.turn),
        span(mv.start_x as int, mv.start_y as int, mv.end_x as int, mv.end_y as int) != 1,
    ensures
        rejection(v, mv) == Some(MoveError::Movement),
        step(v, mv).0 == v,
        step(v, mv).1 == Err::<Option<Decision>, MoveError>(MoveError::Movement),
{
}

} // verus!
