//! The move legality validator: per-kind movement shapes and, for sliding
//! pieces, an unobstructed path. Whether a move exposes the mover's own king
//! is not decided here.

use vstd::prelude::*;
use crate::pieces::{at, on_board, Board, Color, Move, MoveError, PieceType};

verus! {

/// The distance between two coordinates on one axis.
pub open spec fn gap(a: int, b: int) -> int {
    if a <= b {
        b - a
    } else {
        a - b
    }
}

/// The sign of the displacement from `from` to `to`: -1, 0 or 1.
pub open spec fn toward(from: int, to: int) -> int {
    if to > from {
        1
    } else if to < from {
        -1
    } else {
        0
    }
}

/// The coordinate reached from `from` after `k` steps in direction `d`,
/// where `d` is -1, 0 or 1.
pub open spec fn walk(from: int, d: int, k: int) -> int {
    if d > 0 {
        from + k
    } else if d < 0 {
        from - k
    } else {
        from
    }
}

/// The number of unit steps a straight or diagonal move from `(sx, sy)` to
/// `(ex, ey)` takes.
pub open spec fn span(sx: int, sy: int, ex: int, ey: int) -> int {
    if gap(sx, ex) >= gap(sy, ey) {
        gap(sx, ex)
    } else {
        gap(sy, ey)
    }
}

/// Whether the `k`-th square from `(x, y)` in direction `(dx, dy)` is empty.
pub open spec fn empty_after(b: Board, x: int, y: int, dx: int, dy: int, k: int) -> bool {
    at(b, walk(x, dx, k), walk(y, dy, k)) is None
}

/// Whether the first `n - 1` squares from `(x, y)` in direction `(dx, dy)`
/// are all empty.
pub open spec fn clear_run(b: Board, x: int, y: int, dx: int, dy: int, n: int) -> bool {
    forall|k: int| 1 <= k < n ==> #[trigger] empty_after(b, x, y, dx, dy, k)
}

/// Whether every square strictly between `(sx, sy)` and `(ex, ey)` is empty,
/// walking from the start by the unit step that points at the end.
pub open spec fn path_clear(b: Board, sx: int, sy: int, ex: int, ey: int) -> bool {
    clear_run(b, sx, sy, toward(sx, ex), toward(sy, ey), span(sx, sy, ex, ey))
}

/// A knight's jump: one square along one axis and two along the other.
pub open spec fn knight_shape(dx: int, dy: int) -> bool {
    (dx == 1 && dy == 2) || (dx == 2 && dy == 1)
}

/// The rank from which a pawn of `side` may advance two squares.
pub open spec fn pawn_home(side: Color) -> int {
    match side {
        Color::White => 1,
        Color::Black => 6,
    }
}

/// How far a move from rank `sy` to rank `ey` goes forward for `side`:
/// White advances toward higher ranks, Black toward lower ones.
pub open spec fn advance(side: Color, sy: int, ey: int) -> int {
    match side {
        Color::White => ey - sy,
        Color::Black => sy - ey,
    }
}

/// A pawn's move: sideways by exactly one file when capturing and not at all
/// otherwise, forward by one rank, or by one or two from its home rank.
pub open spec fn pawn_shape(side: Color, mv: Move, capture: bool) -> bool {
    let forward = advance(side, mv.start_y as int, mv.end_y as int);
    &&& gap(mv.start_x as int, mv.end_x as int) == if capture {
        1int
    } else {
        0int
    }
    &&& if mv.start_y == pawn_home(side) {
        forward == 1 || forward == 2
    } else {
        forward == 1
    }
}

/// Whether the displacement of `mv` is one that a piece of `kind` can make.
pub open spec fn shape_ok(kind: PieceType, side: Color, mv: Move, capture: bool) -> bool {
    let dx = gap(mv.start_x as int, mv.end_x as int);
    let dy = gap(mv.start_y as int, mv.end_y as int);
    match kind {
        PieceType::Pawn => pawn_shape(side, mv, capture),
        PieceType::Knight => knight_shape(dx, dy),
        PieceType::Bishop => dx == dy,
        PieceType::Rook => (dx == 0) != (dy == 0),
        PieceType::Queen => dx == dy || (dx == 0) != (dy == 0),
        PieceType::King => span(
            mv.start_x as int,
            mv.start_y as int,
            mv.end_x as int,
            mv.end_y as int,
        ) == 1,
    }
}

/// The kinds whose moves need an unobstructed path.
pub open spec fn slides(kind: PieceType) -> bool {
    kind is Bishop || kind is Rook || kind is Queen
}

/// Whether both ends of `mv` lie on the board.
pub open spec fn within_board(mv: Move) -> bool {
    on_board(mv.start_x as int, mv.start_y as int) && on_board(mv.end_x as int, mv.end_y as int)
}

/// The first rule that a move of a piece of `kind` breaks, taken in order: the
/// two squares differ, both lie on the board, the displacement fits the kind,
/// and a sliding piece passes over empty squares only. `None` when no rule is
/// broken.
pub open spec fn movement_error(
    b: Board,
    side: Color,
    mv: Move,
    kind: PieceType,
    capture: bool,
) -> Option<MoveError> {
    if mv.start_x == mv.end_x && mv.start_y == mv.end_y {
        Some(MoveError::Movement)
    } else if !within_board(mv) {
        Some(MoveError::OutsideBoard)
    } else if !shape_ok(kind, side, mv, capture) {
        Some(MoveError::Movement)
    } else if slides(kind) && !path_clear(
        b,
        mv.start_x as int,
        mv.start_y as int,
        mv.end_x as int,
        mv.end_y as int,
    ) {
        Some(MoveError::BlockedPath)
    } else {
        None
    }
}

/// The distance between two coordinates on one axis.
pub(crate) fn distance(a: usize, b: usize) -> (r: usize)
    ensures
        r == gap(a as int, b as int),
{
    if a <= b {
        b - a
    } else {
        a - b
    }
}

/// The sign of the displacement from `from` to `to`.
pub(crate) fn direction(from: usize, to: usize) -> (r: i8)
    ensures
        r == toward(from as int, to as int),
{
    if to > from {
        1
    } else if to < from {
        -1
    } else {
        0
    }
}

/// The coordinate `k` steps from `from` in direction `d`, or `None` when it
/// would leave the board.
pub(crate) fn stride(from: usize, d: i8, k: usize) -> (r: Option<usize>)
    requires
        from < 8,
        k <= 8,
    ensures
        match r {
            Some(v) => v == walk(from as int, d as int, k as int) && v < 8,
            None => !(0 <= walk(from as int, d as int, k as int) < 8),
        },
{
    if d > 0 {
        if from + k < 8 {
            Some(from + k)
        } else {
            None
        }
    } else if d < 0 {
        if k <= from {
            Some(from - k)
        } else {
            None
        }
    } else {
        Some(from)
    }
}

/// Walks from just after the start of `mv` up to, and excluding, its end, and
/// reports whether every square passed is empty.
pub fn path_is_clear(b: &Board, mv: &Move) -> (r: bool)
    requires
        within_board(*mv),
    ensures
        r == path_clear(
            *b,
            mv.start_x as int,
            mv.start_y as int,
            mv.end_x as int,
            mv.end_y as int,
        ),
{
    let dx = direction(mv.start_x, mv.end_x);
    let dy = direction(mv.start_y, mv.end_y);
    let gx = distance(mv.start_x, mv.end_x);
    let gy = distance(mv.start_y, mv.end_y);
    let n: usize = if gx >= gy {
        gx
    } else {
        gy
    };
    let mut k: usize = 1;
    while k < n
        invariant
            1 <= k,
            n <= 7,
            mv.start_x < 8,
            mv.start_y < 8,
            dx == toward(mv.start_x as int, mv.end_x as int),
            dy == toward(mv.start_y as int, mv.end_y as int),
            n == span(mv.start_x as int, mv.start_y as int, mv.end_x as int, mv.end_y as int),
            clear_run(*b, mv.start_x as int, mv.start_y as int, dx as int, dy as int, k as int),
        decreases n - k,
    {
        let occupied = match (stride(mv.start_x, dx, k), stride(mv.start_y, dy, k)) {
            (Some(x), Some(y)) => b[y][x].is_some(),
            _ => false,
        };
        if occupied {
            assert(!empty_after(
                *b,
                mv.start_x as int,
                mv.start_y as int,
                dx as int,
                dy as int,
                k as int,
            ));
            return false;
        }
        assert(empty_after(
            *b,
            mv.start_x as int,
            mv.start_y as int,
            dx as int,
            dy as int,
            k as int,
        ));
        k = k + 1;
    }
    true
}

/// Whether the displacement of `mv` is one that a piece of `kind` can make.
pub fn shape_fits(kind: PieceType, side: Color, mv: &Move, capture: bool) -> (r: bool)
    requires
        within_board(*mv),
    ensures
        r == shape_ok(kind, side, *mv, capture),
{
    let dx = distance(mv.start_x, mv.end_x);
    let dy = distance(mv.start_y, mv.end_y);
    match kind {
        PieceType::Pawn => {
            let sideways: usize = if capture {
                1
            } else {
                0
            };
            let forward_one = match side {
                Color::White => mv.end_y == mv.start_y + 1,
                Color::Black => mv.end_y + 1 == mv.start_y,
            };
            let forward_two = match side {
                Color::White => mv.start_y == 1 && mv.end_y == 3,
                Color::Black => mv.start_y == 6 && mv.end_y == 4,
            };
            dx == sideways && (forward_one || forward_two)
        },
        PieceType::Knight => (dx == 1 && dy == 2) || (dx == 2 && dy == 1),
        PieceType::Bishop => dx == dy,
        PieceType::Rook => (dx == 0) != (dy == 0),
        PieceType::Queen => dx == dy || (dx == 0) != (dy == 0),
        PieceType::King => dx <= 1 && dy <= 1 && (dx == 1 || dy == 1),
    }
}

/// Decides whether a piece of `kind`, moved by `side`, may make the move `mv`
/// on the board `b`, where `capture` says whether the end square holds an
/// enemy piece. Returns the first rule broken, or `None`.
pub fn validate(b: &Board, side: Color, mv: &Move, kind: PieceType, capture: bool) -> (r: Option<
    MoveError,
>)
    ensures
        r == movement_error(*b, side, *mv, kind, capture),
{
    if mv.start_x == mv.end_x && mv.start_y == mv.end_y {
        return Some(MoveError::Movement);
    }
    if mv.start_x >= 8 || mv.end_x >= 8 || mv.start_y >= 8 || mv.end_y >= 8 {
        return Some(MoveError::OutsideBoard);
    }
    if !shape_fits(kind, side, mv, capture) {
        return Some(MoveError::Movement);
    }
    match kind {
        PieceType::Bishop | PieceType::Rook | PieceType::Queen => {
            if !path_is_clear(b, mv) {
                return Some(MoveError::BlockedPath);
            }
        },
        _ => {},
    }
    None
}

} // verus!
