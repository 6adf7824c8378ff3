//! The game state machine: a board, the side to move, whether the game has
//! ended, and the class of every committed move.
//!
//! `step` is the whole transition as a spec function on the view of a game;
//! `Game::do_move` is proved to compute it.

use vstd::prelude::*;
use crate::pieces::{
    at, on_board, opponent, opposite, place, square, with_square, Board, Color, Decision, Move,
    MoveError, MoveType, Piece, PieceType,
};
use crate::movement::{movement_error, validate, within_board};
use crate::check::{in_check, side_in_check};
use crate::fen::{fen_square, fen_turn, parse_fen};

verus! {

/// The number of most recent moves that the draw rule looks at.
pub const DRAW_WINDOW: usize = 50;

/// A game as a mathematical value.
pub struct GameView {
    pub board: Board,
    pub turn: Color,
    pub finished: bool,
    pub history: Seq<MoveType>,
}

/// A game of chess.
#[derive(Clone, PartialEq, Debug)]
pub struct Game {
    pub board: Board,
    pub turn: Color,
    pub finished: bool,
    pub move_history: Vec<MoveType>,
}

impl View for Game {
    type V = GameView;

    open spec fn view(&self) -> GameView {
        GameView {
            board: self.board,
            turn: self.turn,
            finished: self.finished,
            history: self.move_history@,
        }
    }
}

/// The board after the piece on the start square of `mv` has gone to its end
/// square, replacing what stood there.
pub open spec fn moved(b: Board, mv: Move) -> Board {
    with_square(
        with_square(b, mv.start_x as int, mv.start_y as int, None),
        mv.end_x as int,
        mv.end_y as int,
        at(b, mv.start_x as int, mv.start_y as int),
    )
}

/// Why `side` may not make the move `mv` on the board `b`, or `None` when it
/// may. The rules are taken in order: the start square holds a piece, it
/// belongs to `side`, the end square holds no piece of `side`, the movement
/// is valid, and the move leaves the king of `side` unattacked.
pub open spec fn refusal(b: Board, side: Color, mv: Move) -> Option<MoveError> {
    let target = at(b, mv.end_x as int, mv.end_y as int);
    match at(b, mv.start_x as int, mv.start_y as int) {
        None => Some(MoveError::NoPiece),
        Some(p) => if p.color != side {
            Some(MoveError::WrongColorPiece)
        } else if target is Some && target->0.color == side {
            Some(MoveError::FriendlyFire)
        } else {
            match movement_error(b, side, mv, p.piece, target is Some) {
                Some(e) => Some(e),
                None => if in_check(moved(b, mv), side) {
                    Some(MoveError::SelfCheck)
                } else {
                    None
                },
            }
        },
    }
}

/// Whether `side` has at least one move on `b` that is not refused.
pub open spec fn has_reply(b: Board, side: Color) -> bool {
    exists|mv: Move| #[trigger] refusal(b, side, mv) is None
}

/// The class of the move `mv` made on the board `b`: a pawn move or a
/// capture, or neither.
pub open spec fn classify(b: Board, mv: Move) -> MoveType {
    if at(b, mv.start_x as int, mv.start_y as int) matches Some(p) && p.piece is Pawn {
        MoveType::CaptureOrPawn
    } else if at(b, mv.end_x as int, mv.end_y as int) is Some {
        MoveType::CaptureOrPawn
    } else {
        MoveType::Other
    }
}

/// Whether none of the last `DRAW_WINDOW` entries of `h`, or none at all
/// where `h` is shorter, is a pawn move or a capture.
pub open spec fn reversible_run(h: Seq<MoveType>) -> bool {
    forall|i: int|
        0 <= i < h.len() && h.len() - i <= DRAW_WINDOW ==> h[i] != MoveType::CaptureOrPawn
}

/// The win that goes to `side`.
pub open spec fn win_for(side: Color) -> Decision {
    match side {
        Color::White => Decision::White,
        Color::Black => Decision::Black,
    }
}

/// How a committed move ends the game, if it does. `b` is the board after the
/// move, `mover` the side that made it and `h` the history with the move in
/// it. The mover wins when the other side has no reply; otherwise the game is
/// drawn when the recent history holds no pawn move and no capture.
pub open spec fn verdict(b: Board, mover: Color, h: Seq<MoveType>) -> Option<Decision> {
    if !has_reply(b, opposite(mover)) {
        Some(win_for(mover))
    } else if reversible_run(h) {
        Some(Decision::Tie)
    } else {
        None
    }
}

/// Why the move `mv` is rejected in the game `v`, or `None` when it is
/// accepted. A finished game rejects every move.
pub open spec fn rejection(v: GameView, mv: Move) -> Option<MoveError> {
    if v.finished {
        Some(MoveError::Mated)
    } else {
        refusal(v.board, v.turn, mv)
    }
}

/// The game after an accepted move `mv`.
pub open spec fn committed(v: GameView, mv: Move) -> GameView {
    let board = moved(v.board, mv);
    let history = v.history.push(classify(v.board, mv));
    GameView {
        board,
        turn: opposite(v.turn),
        finished: verdict(board, v.turn, history) is Some,
        history,
    }
}

/// One transition of the game: the state after the move `mv` is proposed in
/// the state `v`, and what the caller is told.
pub open spec fn step(v: GameView, mv: Move) -> (GameView, Result<Option<Decision>, MoveError>) {
    match rejection(v, mv) {
        Some(e) => (v, Err(e)),
        None => {
            let after = committed(v, mv);
            (after, Ok(verdict(after.board, v.turn, after.history)))
        },
    }
}

/// The piece that the standard opening puts on file `x` of a back rank.
pub open spec fn back_rank(x: int) -> PieceType {
    if x == 0 || x == 7 {
        PieceType::Rook
    } else if x == 1 || x == 6 {
        PieceType::Knight
    } else if x == 2 || x == 5 {
        PieceType::Bishop
    } else if x == 3 {
        PieceType::King
    } else {
        PieceType::Queen
    }
}

/// What the standard opening puts on `(x, y)`.
pub open spec fn opening_square(x: int, y: int) -> Option<Piece> {
    if !on_board(x, y) {
        None
    } else if y == 0 {
        Some(Piece { piece: back_rank(x), color: Color::White })
    } else if y == 1 {
        Some(Piece { piece: PieceType::Pawn, color: Color::White })
    } else if y == 6 {
        Some(Piece { piece: PieceType::Pawn, color: Color::Black })
    } else if y == 7 {
        Some(Piece { piece: back_rank(x), color: Color::Black })
    } else {
        None
    }
}

/// The `i`-th of the 4096 pairs of squares, counted with the start rank
/// first, then the start file, the end rank and the end file.
pub open spec fn nth_move(i: int) -> Move {
    Move {
        start_x: ((i / 64) % 8) as usize,
        start_y: (i / 512) as usize,
        end_x: (i % 8) as usize,
        end_y: ((i / 8) % 8) as usize,
    }
}

/// Every move between two squares of the board is one of the 4096 pairs.
pub proof fn lemma_move_is_numbered(mv: Move)
    requires
        within_board(mv),
    ensures
        0 <= ((mv.start_y * 8 + mv.start_x) * 8 + mv.end_y) * 8 + mv.end_x < 4096,
        nth_move(((mv.start_y * 8 + mv.start_x) * 8 + mv.end_y) * 8 + mv.end_x) == mv,
{
}

/// The board after the move `mv`.
pub fn apply_move(b: &Board, mv: &Move) -> (r: Board)
    requires
        within_board(*mv),
    ensures
        r == moved(*b, *mv),
{
    let lifted = place(b, mv.start_x, mv.start_y, None);
    place(&lifted, mv.end_x, mv.end_y, b[mv.start_y][mv.start_x])
}

/// Tries the move `mv` for `side` on a scratch copy of `b`. Returns the board
/// after the move, or the first rule that refuses it.
pub fn try_move(b: &Board, side: Color, mv: &Move) -> (r: Result<Board, MoveError>)
    ensures
        match r {
            Ok(after) => refusal(*b, side, *mv) is None && after == moved(*b, *mv),
            Err(e) => refusal(*b, side, *mv) == Some(e),
        },
{
    let p = match square(b, mv.start_x, mv.start_y) {
        None => { return Err(MoveError::NoPiece); },
        Some(p) => p,
    };
    if p.color != side {
        return Err(MoveError::WrongColorPiece);
    }
    let capture = match square(b, mv.end_x, mv.end_y) {
        None => false,
        Some(q) => {
            if q.color == side {
                return Err(MoveError::FriendlyFire);
            }
            true
        },
    };
    match validate(b, side, mv, p.piece, capture) {
        Some(e) => { return Err(e); },
        None => {},
    }
    let after = apply_move(b, mv);
    if side_in_check(&after, side) {
        return Err(MoveError::SelfCheck);
    }
    Ok(after)
}

/// The `i`-th of the 4096 pairs of squares.
fn move_number(i: usize) -> (r: Move)
    requires
        i < 4096,
    ensures
        r == nth_move(i as int),
        within_board(r),
{
    Move { start_x: (i / 64) % 8, start_y: i / 512, end_x: i % 8, end_y: (i / 8) % 8 }
}

/// Tries every pair of squares as a move of `side` and stops at the first
/// that is not refused.
pub fn has_safe_reply(b: &Board, side: Color) -> (r: bool)
    ensures
        r == has_reply(*b, side),
{
    let mut i: usize = 0;
    while i < 4096
        invariant
            i <= 4096,
            forall|j: int| 0 <= j < i ==> refusal(*b, side, #[trigger] nth_move(j)) is Some,
        decreases 4096 - i,
    {
        let mv = move_number(i);
        if try_move(b, side, &mv).is_ok() {
            return true;
        }
        i = i + 1;
    }
    proof {
        assert forall|mv: Move| #[trigger] refusal(*b, side, mv) is Some by {
            if refusal(*b, side, mv) is None {
                lemma_move_is_numbered(mv);
            }
        }
    }
    false
}

/// Whether none of the last `DRAW_WINDOW` entries of `h` is a pawn move or a
/// capture.
pub fn no_recent_progress(h: &Vec<MoveType>) -> (r: bool)
    ensures
        r == reversible_run(h@),
{
    let len = h.len();
    let mut i: usize = len;
    while i > 0 && len - i < DRAW_WINDOW
        invariant
            i <= len,
            len == h@.len(),
            len - i <= DRAW_WINDOW,
            forall|j: int| i <= j < len ==> h@[j] != MoveType::CaptureOrPawn,
        decreases i,
    {
        i = i - 1;
        if h[i] == MoveType::CaptureOrPawn {
            return false;
        }
    }
    true
}

/// The class of the move `mv` made on the board `b`.
pub fn move_class(b: &Board, mv: &Move) -> (r: MoveType)
    ensures
        r == classify(*b, *mv),
{
    let pawn = match square(b, mv.start_x, mv.start_y) {
        Some(p) => p.piece == PieceType::Pawn,
        None => false,
    };
    if pawn || square(b, mv.end_x, mv.end_y).is_some() {
        MoveType::CaptureOrPawn
    } else {
        MoveType::Other
    }
}

/// The win that goes to `side`.
fn winner(side: Color) -> (r: Decision)
    ensures
        r == win_for(side),
{
    match side {
        Color::White => Decision::White,
        Color::Black => Decision::Black,
    }
}

impl Game {
    /// A game in the standard opening position, White to move.
    pub fn new_game() -> (g: Game)
        ensures
            forall|x: int, y: int| at(g.board, x, y) == opening_square(x, y),
            g.turn == Color::White,
            !g.finished,
            g.move_history@ == Seq::<MoveType>::empty(),
    {
        let white = Color::White;
        let black = Color::Black;
        Game {
            board: [
                [
                    Some(Piece { piece: PieceType::Rook, color: white }),
                    Some(Piece { piece: PieceType::Knight, color: white }),
                    Some(Piece { piece: PieceType::Bishop, color: white }),
                    Some(Piece { piece: PieceType::King, color: white }),
                    Some(Piece { piece: PieceType::Queen, color: white }),
                    Some(Piece { piece: PieceType::Bishop, color: white }),
                    Some(Piece { piece: PieceType::Knight, color: white }),
                    Some(Piece { piece: PieceType::Rook, color: white }),
                ],
                [Some(Piece { piece: PieceType::Pawn, color: white }); 8],
                [None; 8],
                [None; 8],
                [None; 8],
                [None; 8],
                [Some(Piece { piece: PieceType::Pawn, color: black }); 8],
                [
                    Some(Piece { piece: PieceType::Rook, color: black }),
                    Some(Piece { piece: PieceType::Knight, color: black }),
                    Some(Piece { piece: PieceType::Bishop, color: black }),
                    Some(Piece { piece: PieceType::King, color: black }),
                    Some(Piece { piece: PieceType::Queen, color: black }),
                    Some(Piece { piece: PieceType::Bishop, color: black }),
                    Some(Piece { piece: PieceType::Knight, color: black }),
                    Some(Piece { piece: PieceType::Rook, color: black }),
                ],
            ],
            turn: Color::White,
            finished: false,
            move_history: Vec::new(),
        }
    }

    /// A game on an empty board, White to move.
    pub fn empty_game() -> (g: Game)
        ensures
            forall|x: int, y: int| at(g.board, x, y) is None,
            g.turn == Color::White,
            !g.finished,
            g.move_history@ == Seq::<MoveType>::empty(),
    {
        Game { board: [[None; 8]; 8], turn: Color::White, finished: false, move_history: Vec::new() }
    }

    /// Proposes the move `mv` for the side to move.
    ///
    /// A rejected move leaves the game as it was. An accepted move is made on
    /// the board and recorded in the history, and the turn passes to the
    /// other side; the result says whether the move ended the game. The move
    /// is tried on a scratch copy of the board, so nothing has to be undone
    /// when it turns out to expose the mover's king.
    pub fn do_move(&mut self, mv: Move) -> (res: Result<Option<Decision>, MoveError>)
        ensures
            (final(self)@, res) == step(old(self)@, mv),
            res is Err ==> *final(self) == *old(self),
            res is Ok ==> final(self).turn != old(self).turn,
    {
        if self.finished {
            return Err(MoveError::Mated);
        }
        let mover = self.turn;
        let after = match try_move(&self.board, mover, &mv) {
            Err(e) => { return Err(e); },
            Ok(after) => after,
        };
        let class = move_class(&self.board, &mv);
        self.board = after;
        self.move_history.push(class);
        self.turn = opponent(mover);
        let decision = if !has_safe_reply(&self.board, self.turn) {
            Some(winner(mover))
        } else if no_recent_progress(&self.move_history) {
            Some(Decision::Tie)
        } else {
            None
        };
        self.finished = decision.is_some();
        Ok(decision)
    }

    /// Decides whether the piece `the_piece` may make the move `mv` for the
    /// side to move, where `capture` says whether the end square holds an
    /// enemy piece. Returns the first movement rule broken, or `None`.
    /// Whether the move exposes the mover's king is not decided here.
    ///
    /// Of `the_piece` only the kind is read: a pawn advances in the direction
    /// of the side to move. `end_square` is not read, since `capture` carries
    /// what the rules need of it.
    pub fn legal_movement(
        &mut self,
        mv: &Move,
        the_piece: &Option<Piece>,
        end_square: &Option<Piece>,
        capture: bool,
    ) -> (r: Option<MoveError>)
        requires
            the_piece is Some,
        ensures
            r == movement_error(old(self).board, old(self).turn, *mv, the_piece->0.piece, capture),
            *final(self) == *old(self),
    {
        match the_piece {
            Some(p) => validate(&self.board, self.turn, mv, p.piece, capture),
            None => None,
        }
    }

    /// Whether the king of the side to move is attacked.
    pub fn in_check(&mut self) -> (r: bool)
        ensures
            r == in_check(old(self).board, old(self).turn),
            *final(self) == *old(self),
    {
        side_in_check(&self.board, self.turn)
    }

    /// Reads a position from the piece placement and the side to move of a
    /// FEN record. The fields that follow are not read.
    pub fn game_from_fen(s: &str) -> (g: Game)
        ensures
            forall|x: int, y: int|
                on_board(x, y) ==> at(g.board, x, y) == fen_square(s@, s@.len() as int, x, y),
            g.turn == fen_turn(s@),
            !g.finished,
            g.move_history@ == Seq::<MoveType>::empty(),
    {
        let (board, turn) = parse_fen(s);
        Game { board, turn, finished: false, move_history: Vec::new() }
    }
}

} // verus!
