//! The check detector: whether a side's king is attacked.
//!
//! The contract is stated over `attacked`, which says that some enemy piece
//! on the board threatens a square. The executable detector casts rays from
//! the king and probes the knight offsets around it; `lemma_rays_find_attackers`
//! shows that the two agree.

use vstd::prelude::*;
use crate::pieces::{at, on_board, opposite, Board, Color, Piece, PieceType};
use crate::movement::{clear_run, empty_after, gap, knight_shape, span, stride, toward, walk};

verus! {

/// Whether the king of `side` stands on `(x, y)`.
pub open spec fn is_king(b: Board, side: Color, x: int, y: int) -> bool {
    at(b, x, y) == Some(Piece { piece: PieceType::King, color: side })
}

/// Whether `(i, j)` comes before `(x, y)` when the board is read rank by
/// rank from rank 0, each rank from file 0.
pub open spec fn scanned_before(i: int, j: int, x: int, y: int) -> bool {
    j < y || (j == y && i < x)
}

/// Whether `(x, y)` is the square of the king of `side`: the first square, in
/// reading order, that holds one. A position of play holds exactly one.
pub open spec fn king_at(b: Board, side: Color, x: int, y: int) -> bool {
    &&& on_board(x, y)
    &&& is_king(b, side, x, y)
    &&& forall|i: int, j: int|
        on_board(i, j) && scanned_before(i, j, x, y) ==> !#[trigger] is_king(b, side, i, j)
}

/// Whether the side has no king at all.
pub open spec fn no_king(b: Board, side: Color) -> bool {
    forall|i: int, j: int| on_board(i, j) ==> !#[trigger] is_king(b, side, i, j)
}

/// Whether the piece `p`, standing on `(px, py)`, threatens the square
/// `(tx, ty)`.
///
/// A rook threatens along its rank or file and a bishop along its
/// diagonals, both over empty squares only; a queen does both. A king
/// threatens the squares next to it, a knight those a jump away, and a pawn
/// the two squares diagonally ahead of it.
pub open spec fn threatens(b: Board, p: Piece, px: int, py: int, tx: int, ty: int) -> bool {
    let dx = gap(px, tx);
    let dy = gap(py, ty);
    let open_line = clear_run(b, tx, ty, toward(tx, px), toward(ty, py), span(tx, ty, px, py));
    match p.piece {
        PieceType::Pawn => dx == 1 && ty - py == match p.color {
            Color::White => 1int,
            Color::Black => -1int,
        },
        PieceType::Knight => knight_shape(dx, dy),
        PieceType::Bishop => dx == dy && dx > 0 && open_line,
        PieceType::Rook => (dx == 0) != (dy == 0) && open_line,
        PieceType::Queen => ((dx == dy && dx > 0) || (dx == 0) != (dy == 0)) && open_line,
        PieceType::King => span(tx, ty, px, py) == 1,
    }
}

/// Whether `(x, y)` holds a piece of the side opposed to `side` that
/// threatens `(tx, ty)`.
pub open spec fn attacker(b: Board, side: Color, x: int, y: int, tx: int, ty: int) -> bool {
    &&& on_board(x, y)
    &&& at(b, x, y) matches Some(p)
    &&& p.color != side
    &&& threatens(b, p, x, y, tx, ty)
}

/// Whether some piece of the side opposed to `side` threatens `(tx, ty)`.
pub open spec fn attacked(b: Board, side: Color, tx: int, ty: int) -> bool {
    exists|x: int, y: int| #[trigger] attacker(b, side, x, y, tx, ty)
}

/// Whether the king of `side` is attacked. A side without a king is not in
/// check.
pub open spec fn in_check(b: Board, side: Color) -> bool {
    exists|kx: int, ky: int| #[trigger] king_at(b, side, kx, ky) && attacked(b, side, kx, ky)
}

/// Whether `(dx, dy)` is one of the eight compass directions.
pub open spec fn compass(dx: int, dy: int) -> bool {
    -1 <= dx <= 1 && -1 <= dy <= 1 && !(dx == 0 && dy == 0)
}

/// Whether a piece of `kind` and `color`, met as the first piece at distance
/// `n` along the ray `(dx, dy)` from a square, threatens that square.
pub open spec fn threat_along(kind: PieceType, color: Color, dx: int, dy: int, n: int) -> bool {
    match kind {
        PieceType::Pawn => n == 1 && dx != 0 && dy == match color {
            Color::White => -1int,
            Color::Black => 1int,
        },
        PieceType::Knight => false,
        PieceType::Bishop => dx != 0 && dy != 0,
        PieceType::Rook => dx == 0 || dy == 0,
        PieceType::Queen => true,
        PieceType::King => n == 1,
    }
}

/// Whether the first piece on the ray from `(kx, ky)` in direction
/// `(dx, dy)` stands at distance `n`, belongs to the side opposed to `side`,
/// and threatens `(kx, ky)`.
pub open spec fn ray_hit(b: Board, side: Color, kx: int, ky: int, dx: int, dy: int, n: int) -> bool {
    &&& 1 <= n
    &&& clear_run(b, kx, ky, dx, dy, n)
    &&& at(b, walk(kx, dx, n), walk(ky, dy, n)) matches Some(p)
    &&& p.color != side
    &&& threat_along(p.piece, p.color, dx, dy, n)
}

/// Whether the ray from `(kx, ky)` in direction `(dx, dy)` meets a threat.
pub open spec fn ray_threat(b: Board, side: Color, kx: int, ky: int, dx: int, dy: int) -> bool {
    exists|n: int| #[trigger] ray_hit(b, side, kx, ky, dx, dy, n)
}

/// Whether a knight of the side opposed to `side` stands at the offset
/// `(ox, oy)` from `(kx, ky)`.
pub open spec fn knight_on(b: Board, side: Color, kx: int, ky: int, ox: int, oy: int) -> bool {
    at(b, kx + ox, ky + oy) == Some(Piece { piece: PieceType::Knight, color: opposite(side) })
}

/// Whether an enemy knight stands on one of the eight squares a jump away
/// from `(kx, ky)`.
pub open spec fn knight_threat(b: Board, side: Color, kx: int, ky: int) -> bool {
    ||| knight_on(b, side, kx, ky, 2, -1)
    ||| knight_on(b, side, kx, ky, 2, 1)
    ||| knight_on(b, side, kx, ky, -2, -1)
    ||| knight_on(b, side, kx, ky, -2, 1)
    ||| knight_on(b, side, kx, ky, 1, 2)
    ||| knight_on(b, side, kx, ky, 1, -2)
    ||| knight_on(b, side, kx, ky, -1, 2)
    ||| knight_on(b, side, kx, ky, -1, -2)
}

/// Whether one of the eight rays from `(kx, ky)` meets a threat.
pub open spec fn any_ray_threat(b: Board, side: Color, kx: int, ky: int) -> bool {
    ||| ray_threat(b, side, kx, ky, -1, -1)
    ||| ray_threat(b, side, kx, ky, -1, 0)
    ||| ray_threat(b, side, kx, ky, 0, -1)
    ||| ray_threat(b, side, kx, ky, 0, 1)
    ||| ray_threat(b, side, kx, ky, 1, 0)
    ||| ray_threat(b, side, kx, ky, -1, 1)
    ||| ray_threat(b, side, kx, ky, 1, -1)
    ||| ray_threat(b, side, kx, ky, 1, 1)
}

/// A threat met on a ray is an attacker of the square the ray starts from.
pub proof fn lemma_ray_hit_attacks(
    b: Board,
    side: Color,
    kx: int,
    ky: int,
    dx: int,
    dy: int,
    n: int,
)
    requires
        on_board(kx, ky),
        compass(dx, dy),
        ray_hit(b, side, kx, ky, dx, dy, n),
    ensures
        attacker(b, side, walk(kx, dx, n), walk(ky, dy, n), kx, ky),
{
    let x = walk(kx, dx, n);
    let y = walk(ky, dy, n);
    assert(on_board(x, y));
    assert(toward(kx, x) == dx);
    assert(toward(ky, y) == dy);
    assert(span(kx, ky, x, y) == n);
}

/// An attacker that is not a knight is met on the ray that points at it.
pub proof fn lemma_attacker_on_ray(b: Board, side: Color, x: int, y: int, kx: int, ky: int)
    requires
        on_board(kx, ky),
        attacker(b, side, x, y, kx, ky),
        !(at(b, x, y)->0.piece is Knight),
    ensures
        compass(toward(kx, x), toward(ky, y)),
        ray_hit(
            b,
            side,
            kx,
            ky,
            toward(kx, x),
            toward(ky, y),
            span(kx, ky, x, y),
        ),
{
    let dx = toward(kx, x);
    let dy = toward(ky, y);
    let n = span(kx, ky, x, y);
    assert(walk(kx, dx, n) == x);
    assert(walk(ky, dy, n) == y);
    if n == 1 {
        assert(clear_run(b, kx, ky, dx, dy, n));
    }
}

/// Ray casting and knight probing together find exactly the attackers of a
/// square.
pub proof fn lemma_rays_find_attackers(b: Board, side: Color, kx: int, ky: int)
    requires
        on_board(kx, ky),
    ensures
        attacked(b, side, kx, ky) <==> (any_ray_threat(b, side, kx, ky) || knight_threat(
            b,
            side,
            kx,
            ky,
        )),
{
    if attacked(b, side, kx, ky) {
        let (x, y) = choose|x: int, y: int| #[trigger] attacker(b, side, x, y, kx, ky);
        let p = at(b, x, y)->0;
        if p.piece is Knight {
            assert(p == Piece { piece: PieceType::Knight, color: opposite(side) });
            assert(knight_on(b, side, kx, ky, x - kx, y - ky));
            assert(knight_threat(b, side, kx, ky));
        } else {
            lemma_attacker_on_ray(b, side, x, y, kx, ky);
            assert(ray_threat(b, side, kx, ky, toward(kx, x), toward(ky, y)));
            assert(any_ray_threat(b, side, kx, ky));
        }
    }
    if knight_threat(b, side, kx, ky) {
        let (ox, oy) = choose|ox: int, oy: int|
            knight_shape(gap(0, ox), gap(0, oy)) && #[trigger] knight_on(b, side, kx, ky, ox, oy);
        assert(attacker(b, side, kx + ox, ky + oy, kx, ky));
    }
    if any_ray_threat(b, side, kx, ky) {
        let (dx, dy) = choose|dx: int, dy: int|
            compass(dx, dy) && #[trigger] ray_threat(b, side, kx, ky, dx, dy);
        let n = choose|n: int| #[trigger] ray_hit(b, side, kx, ky, dx, dy, n);
        lemma_ray_hit_attacks(b, side, kx, ky, dx, dy, n);
    }
}

/// Scans the board rank by rank for the king of `side`.
pub fn find_king(b: &Board, side: Color) -> (r: Option<(usize, usize)>)
    ensures
        match r {
            Some((x, y)) => king_at(*b, side, x as int, y as int),
            None => no_king(*b, side),
        },
{
    let mut y: usize = 0;
    while y < 8
        invariant
            y <= 8,
            forall|i: int, j: int| on_board(i, j) && j < y ==> !#[trigger] is_king(*b, side, i, j),
        decreases 8 - y,
    {
        let mut x: usize = 0;
        while x < 8
            invariant
                y < 8,
                x <= 8,
                forall|i: int, j: int|
                    on_board(i, j) && scanned_before(i, j, x as int, y as int) ==> !#[trigger] is_king(
                        *b,
                        side,
                        i,
                        j,
                    ),
            decreases 8 - x,
        {
            match b[y][x] {
                Some(p) => {
                    if p.color == side && p.piece == PieceType::King {
                        return Some((x, y));
                    }
                },
                None => {},
            }
            x = x + 1;
        }
        y = y + 1;
    }
    None
}

/// Casts one ray from `(kx, ky)`, one step at a time, until it leaves the
/// board or meets a piece, and reports whether that piece is a threat.
pub fn cast_ray(b: &Board, side: Color, kx: usize, ky: usize, dx: i8, dy: i8) -> (r: bool)
    requires
        kx < 8,
        ky < 8,
        compass(dx as int, dy as int),
    ensures
        r == ray_threat(*b, side, kx as int, ky as int, dx as int, dy as int),
{
    let mut n: usize = 1;
    while n < 8
        invariant
            1 <= n <= 8,
            kx < 8,
            ky < 8,
            compass(dx as int, dy as int),
            clear_run(*b, kx as int, ky as int, dx as int, dy as int, n as int),
            forall|m: int|
                1 <= m < n ==> on_board(
                    walk(kx as int, dx as int, m),
                    walk(ky as int, dy as int, m),
                ),
        decreases 8 - n,
    {
        let (x, y) = match (stride(kx, dx, n), stride(ky, dy, n)) {
            (Some(x), Some(y)) => (x, y),
            _ => {
                proof {
                    lemma_ray_ends(*b, side, kx as int, ky as int, dx as int, dy as int, n as int);
                }
                return false;
            },
        };
        match b[y][x] {
            Some(p) => {
                let hit = p.color != side && threat_from(p, dx, dy, n);
                proof {
                    lemma_ray_stops(*b, side, kx as int, ky as int, dx as int, dy as int, n as int);
                }
                return hit;
            },
            None => {
                assert(empty_after(*b, kx as int, ky as int, dx as int, dy as int, n as int));
            },
        }
        n = n + 1;
    }
    proof {
        assert(!on_board(walk(kx as int, dx as int, 8), walk(ky as int, dy as int, 8)));
        lemma_ray_ends(*b, side, kx as int, ky as int, dx as int, dy as int, 8);
    }
    false
}

/// A ray whose `n`-th square lies outside the board, and which is empty
/// before it, meets no threat.
proof fn lemma_ray_ends(b: Board, side: Color, kx: int, ky: int, dx: int, dy: int, n: int)
    requires
        on_board(kx, ky),
        compass(dx, dy),
        1 <= n,
        clear_run(b, kx, ky, dx, dy, n),
        !on_board(walk(kx, dx, n), walk(ky, dy, n)),
    ensures
        !ray_threat(b, side, kx, ky, dx, dy),
{
    assert forall|m: int| !#[trigger] ray_hit(b, side, kx, ky, dx, dy, m) by {
        if ray_hit(b, side, kx, ky, dx, dy, m) {
            if m < n {
                assert(empty_after(b, kx, ky, dx, dy, m));
            } else {
                assert(!on_board(walk(kx, dx, m), walk(ky, dy, m)));
            }
        }
    }
}

/// A ray that is empty before its `n`-th square, which is occupied, meets a
/// threat exactly when that square holds one.
proof fn lemma_ray_stops(b: Board, side: Color, kx: int, ky: int, dx: int, dy: int, n: int)
    requires
        1 <= n,
        clear_run(b, kx, ky, dx, dy, n),
        at(b, walk(kx, dx, n), walk(ky, dy, n)) is Some,
    ensures
        ray_threat(b, side, kx, ky, dx, dy) == ray_hit(b, side, kx, ky, dx, dy, n),
{
    assert forall|m: int| m != n implies !#[trigger] ray_hit(b, side, kx, ky, dx, dy, m) by {
        if ray_hit(b, side, kx, ky, dx, dy, m) {
            if m < n {
                assert(empty_after(b, kx, ky, dx, dy, m));
            } else {
                assert(empty_after(b, kx, ky, dx, dy, n));
            }
        }
    }
}

/// Whether the piece `p`, met first at distance `n` along the ray
/// `(dx, dy)`, threatens the square the ray starts from.
fn threat_from(p: Piece, dx: i8, dy: i8, n: usize) -> (r: bool)
    ensures
        r == threat_along(p.piece, p.color, dx as int, dy as int, n as int),
{
    match p.piece {
        PieceType::Pawn => {
            let ahead: i8 = match p.color {
                Color::White => -1,
                Color::Black => 1,
            };
            n == 1 && dx != 0 && dy == ahead
        },
        PieceType::Knight => false,
        PieceType::Bishop => dx != 0 && dy != 0,
        PieceType::Rook => dx == 0 || dy == 0,
        PieceType::Queen => true,
        PieceType::King => n == 1,
    }
}

/// Whether an enemy knight stands at the offset `(ox, oy)` from `(kx, ky)`.
fn probe_knight(b: &Board, side: Color, kx: usize, ky: usize, ox: i8, oy: i8) -> (r: bool)
    requires
        kx < 8,
        ky < 8,
        -2 <= ox <= 2,
        -2 <= oy <= 2,
        ox != 0,
        oy != 0,
    ensures
        r == knight_on(*b, side, kx as int, ky as int, ox as int, oy as int),
{
    let x = match stride(kx, ox, if ox == 2 || ox == -2 {
        2
    } else {
        1
    }) {
        Some(x) => x,
        None => { return false; },
    };
    let y = match stride(ky, oy, if oy == 2 || oy == -2 {
        2
    } else {
        1
    }) {
        Some(y) => y,
        None => { return false; },
    };
    match b[y][x] {
        Some(p) => p.color != side && p.piece == PieceType::Knight,
        None => false,
    }
}

/// Whether the square `(kx, ky)` is attacked by the side opposed to `side`:
/// eight rays are cast and the eight knight offsets are probed.
pub fn square_attacked(b: &Board, side: Color, kx: usize, ky: usize) -> (r: bool)
    requires
        kx < 8,
        ky < 8,
    ensures
        r == attacked(*b, side, kx as int, ky as int),
{
    proof {
        lemma_rays_find_attackers(*b, side, kx as int, ky as int);
    }
    cast_ray(b, side, kx, ky, -1, -1) || cast_ray(b, side, kx, ky, -1, 0) || cast_ray(
        b,
        side,
        kx,
        ky,
        0,
        -1,
    ) || cast_ray(b, side, kx, ky, 0, 1) || cast_ray(b, side, kx, ky, 1, 0) || cast_ray(
        b,
        side,
        kx,
        ky,
        -1,
        1,
    ) || cast_ray(b, side, kx, ky, 1, -1) || cast_ray(b, side, kx, ky, 1, 1) || probe_knight(
        b,
        side,
        kx,
        ky,
        2,
        -1,
    ) || probe_knight(b, side, kx, ky, 2, 1) || probe_knight(b, side, kx, ky, -2, -1)
        || probe_knight(b, side, kx, ky, -2, 1) || probe_knight(b, side, kx, ky, 1, 2)
        || probe_knight(b, side, kx, ky, 1, -2) || probe_knight(b, side, kx, ky, -1, 2)
        || probe_knight(b, side, kx, ky, -1, -2)
}

/// Whether the king of `side` is attacked on the board `b`.
pub fn side_in_check(b: &Board, side: Color) -> (r: bool)
    ensures
        r == in_check(*b, side),
{
    match find_king(b, side) {
        Some((kx, ky)) => {
            let r = square_attacked(b, side, kx, ky);
            proof {
                lemma_king_square_unique(*b, side, kx as int, ky as int);
            }
            r
        },
        None => {
            assert forall|x: int, y: int| !#[trigger] king_at(*b, side, x, y) by {
                if king_at(*b, side, x, y) {
                    assert(is_king(*b, side, x, y));
                }
            }
            false
        },
    }
}

/// A side has at most one king square.
pub proof fn lemma_king_square_unique(b: Board, side: Color, kx: int, ky: int)
    requires
        king_at(b, side, kx, ky),
    ensures
        forall|x: int, y: int| #[trigger] king_at(b, side, x, y) ==> x == kx && y == ky,
        in_check(b, side) == attacked(b, side, kx, ky),
{
    assert forall|x: int, y: int| #[trigger] king_at(b, side, x, y) implies x == kx && y == ky by {
        if scanned_before(x, y, kx, ky) {
            assert(is_king(b, side, x, y));
        } else if scanned_before(kx, ky, x, y) {
            assert(is_king(b, side, kx, ky));
        }
    }
}

} // verus!
