//! The board model: pieces, sides, coordinates and the 8x8 grid.

use vstd::prelude::*;

verus! {

/// The six kinds of chess piece.
#[derive(Clone, Copy, PartialEq, Eq, Debug, Structural)]
pub enum PieceType {
    Pawn,
    Knight,
    Bishop,
    Rook,
    Queen,
    King,
}

/// The two players.
#[derive(Clone, Copy, PartialEq, Eq, Debug, Structural)]
pub enum Color {
    Black,
    White,
}

/// A piece of a given kind that belongs to a given side.
#[derive(Clone, Copy, PartialEq, Eq, Debug, Structural)]
pub struct Piece {
    pub piece: PieceType,
    pub color: Color,
}

/// How a game ended: a win for one side, or a draw.
#[derive(Clone, Copy, PartialEq, Eq, Debug, Structural)]
pub enum Decision {
    White,
    Black,
    Tie,
}

/// A proposed move from `(start_x, start_y)` to `(end_x, end_y)`.
///
/// `x` is the file and `y` the rank, both counted from 0. Rank 0 is White's
/// back rank and rank 7 is Black's.
#[derive(Clone, Copy, PartialEq, Eq, Debug, Structural)]
pub struct Move {
    pub start_x: usize,
    pub start_y: usize,
    pub end_x: usize,
    pub end_y: usize,
}

/// The class of a committed move, kept for the draw rule.
#[derive(Clone, Copy, PartialEq, Eq, Debug, Structural)]
pub enum MoveType {
    CaptureOrPawn,
    Other,
}

/// Why a move was refused.
#[derive(Clone, Copy, PartialEq, Eq, Debug, Structural)]
pub enum MoveError {
    /// A coordinate lies outside the board.
    OutsideBoard,
    /// The piece on the start square belongs to the side that is not to move.
    WrongColorPiece,
    /// The end square holds a piece of the side to move.
    FriendlyFire,
    /// The start square is empty.
    NoPiece,
    /// A sliding piece would have to pass over an occupied square.
    BlockedPath,
    /// The move would leave the mover's own king attacked.
    SelfCheck,
    /// The displacement is not one the piece can make.
    Movement,
    /// The game has already ended, by a win or by a draw.
    Mated,
}

/// The grid, indexed `board[rank][file]`.
pub type Board = [[Option<Piece>; 8]; 8];

/// Whether `(x, y)` names a square of the board.
pub open spec fn on_board(x: int, y: int) -> bool {
    0 <= x < 8 && 0 <= y < 8
}

/// What stands on `(x, y)`; nothing stands outside the board.
pub open spec fn at(b: Board, x: int, y: int) -> Option<Piece> {
    if on_board(x, y) {
        b[y][x]
    } else {
        None
    }
}

/// The board `b` with `v` on the square `(x, y)`.
pub open spec fn with_square(b: Board, x: int, y: int, v: Option<Piece>) -> Board {
    vstd::array::spec_array_update(b, y, vstd::array::spec_array_update(b[y], x, v))
}

/// The other side.
pub open spec fn opposite(c: Color) -> Color {
    match c {
        Color::White => Color::Black,
        Color::Black => Color::White,
    }
}

/// Reads one square of `with_square`.
pub proof fn lemma_with_square(b: Board, x: int, y: int, v: Option<Piece>, i: int, j: int)
    requires
        on_board(x, y),
    ensures
        at(with_square(b, x, y, v), i, j) == if i == x && j == y && on_board(i, j) {
            v
        } else {
            at(b, i, j)
        },
{
}

/// Two boards with the same contents on every square are the same board.
pub proof fn lemma_board_ext(a: Board, b: Board)
    requires
        forall|x: int, y: int| on_board(x, y) ==> at(a, x, y) == at(b, x, y),
    ensures
        a == b,
{
    assert forall|y: int| 0 <= y < 8 implies a[y] == b[y] by {
        assert forall|x: int| 0 <= x < 8 implies a[y][x] == b[y][x] by {
            assert(on_board(x, y));
            assert(at(a, x, y) == at(b, x, y));
        }
        assert(a[y] =~= b[y]);
    }
    assert(a =~= b);
}

/// The other side.
pub fn opponent(c: Color) -> (r: Color)
    ensures
        r == opposite(c),
{
    match c {
        Color::White => Color::Black,
        Color::Black => Color::White,
    }
}

/// Reads the square `(x, y)`, which may lie outside the board.
pub fn square(b: &Board, x: usize, y: usize) -> (r: Option<Piece>)
    ensures
        r == at(*b, x as int, y as int),
{
    if x < 8 && y < 8 {
        b[y][x]
    } else {
        None
    }
}

/// A copy of `b` with `v` on the square `(x, y)`.
pub fn place(b: &Board, x: usize, y: usize, v: Option<Piece>) -> (r: Board)
    requires
        x < 8,
        y < 8,
    ensures
        r == with_square(*b, x as int, y as int, v),
{
    let mut c = *b;
    c[y][x] = v;
    proof {
        lemma_board_ext_with(c, *b, x as int, y as int, v);
    }
    c
}

proof fn lemma_board_ext_with(c: Board, b: Board, x: int, y: int, v: Option<Piece>)
    requires
        on_board(x, y),
        forall|i: int, j: int|
            on_board(i, j) ==> at(c, i, j) == if i == x && j == y {
                v
            } else {
                at(b, i, j)
            },
    ensures
        c == with_square(b, x, y, v),
{
    assert forall|i: int, j: int| on_board(i, j) implies at(c, i, j) == at(
        with_square(b, x, y, v),
        i,
        j,
    ) by {
        lemma_with_square(b, x, y, v, i, j);
    }
    lemma_board_ext(c, with_square(b, x, y, v));
}

} // verus!
