//! Reading a position from the first two fields of a FEN record: the piece
//! placement, ranks from 8 down to 1 divided by `/`, and the side to move.
//!
//! The reader keeps a cursor that starts on file 7 of rank 7. A `/` takes it
//! to file 7 of the rank below; a digit from 1 to 8 takes it that many files
//! down, and any other character one file down. A piece letter puts its piece
//! on the square under the cursor; one read while the cursor stands outside
//! the board puts nothing. The placement ends at the first space, and the
//! character after that space names the side to move.
//!
//! `fen_square` follows the reader through the text. Since the cursor only
//! goes down, no square is written twice: `lemma_square_holds_its_letter` and
//! `lemma_square_without_letter` say what each square holds, whatever the
//! order of reading.

use vstd::prelude::*;
use crate::pieces::{at, on_board, Board, Color, Piece, PieceType};

verus! {

/// The piece that a letter stands for: upper case for White, lower case for
/// Black.
pub open spec fn fen_piece(c: char) -> Option<Piece> {
    if c == 'P' {
        Some(Piece { piece: PieceType::Pawn, color: Color::White })
    } else if c == 'p' {
        Some(Piece { piece: PieceType::Pawn, color: Color::Black })
    } else if c == 'N' {
        Some(Piece { piece: PieceType::Knight, color: Color::White })
    } else if c == 'n' {
        Some(Piece { piece: PieceType::Knight, color: Color::Black })
    } else if c == 'B' {
        Some(Piece { piece: PieceType::Bishop, color: Color::White })
    } else if c == 'b' {
        Some(Piece { piece: PieceType::Bishop, color: Color::Black })
    } else if c == 'R' {
        Some(Piece { piece: PieceType::Rook, color: Color::White })
    } else if c == 'r' {
        Some(Piece { piece: PieceType::Rook, color: Color::Black })
    } else if c == 'Q' {
        Some(Piece { piece: PieceType::Queen, color: Color::White })
    } else if c == 'q' {
        Some(Piece { piece: PieceType::Queen, color: Color::Black })
    } else if c == 'K' {
        Some(Piece { piece: PieceType::King, color: Color::White })
    } else if c == 'k' {
        Some(Piece { piece: PieceType::King, color: Color::Black })
    } else {
        None
    }
}

/// The number of files that a character other than `/` takes the cursor
/// down.
pub open spec fn fen_width(c: char) -> int {
    if c == '1' {
        1
    } else if c == '2' {
        2
    } else if c == '3' {
        3
    } else if c == '4' {
        4
    } else if c == '5' {
        5
    } else if c == '6' {
        6
    } else if c == '7' {
        7
    } else if c == '8' {
        8
    } else {
        1
    }
}

/// The rank of the cursor after the first `n` characters of `s`.
pub open spec fn fen_rank(s: Seq<char>, n: int) -> int
    decreases n,
{
    if n <= 0 {
        7
    } else if s[n - 1] == '/' {
        fen_rank(s, n - 1) - 1
    } else {
        fen_rank(s, n - 1)
    }
}

/// The file of the cursor after the first `n` characters of `s`.
pub open spec fn fen_file(s: Seq<char>, n: int) -> int
    decreases n,
{
    if n <= 0 {
        7
    } else if s[n - 1] == '/' {
        7
    } else {
        fen_file(s, n - 1) - fen_width(s[n - 1])
    }
}

/// Whether none of the first `n` characters of `s` is a space.
pub open spec fn fen_no_space(s: Seq<char>, n: int) -> bool {
    forall|j: int| 0 <= j < n && j < s.len() ==> s[j] != ' '
}

/// Whether the first space of `s` is its character `e`.
pub open spec fn fen_first_space(s: Seq<char>, e: int) -> bool {
    0 <= e < s.len() && s[e] == ' ' && fen_no_space(s, e)
}

/// Whether character `i` of `s` puts a piece on `(x, y)`: it belongs to the
/// placement, it is a piece letter, and the cursor stands on `(x, y)` when it
/// is read.
pub open spec fn fen_places(s: Seq<char>, i: int, x: int, y: int) -> bool {
    &&& 0 <= i < s.len()
    &&& fen_no_space(s, i)
    &&& fen_piece(s[i]) is Some
    &&& fen_file(s, i) == x
    &&& fen_rank(s, i) == y
}

/// What the first `n` characters of `s` put on `(x, y)`.
pub open spec fn fen_square(s: Seq<char>, n: int, x: int, y: int) -> Option<Piece>
    decreases n,
{
    if n <= 0 {
        None
    } else if fen_places(s, n - 1, x, y) {
        fen_piece(s[n - 1])
    } else {
        fen_square(s, n - 1, x, y)
    }
}

/// The side to move that `s` names: Black where the character after the
/// first space is `b`, White otherwise.
pub open spec fn fen_turn(s: Seq<char>) -> Color {
    if exists|e: int| #[trigger] fen_first_space(s, e) && e + 1 < s.len() && s[e + 1] == 'b' {
        Color::Black
    } else {
        Color::White
    }
}

/// The piece that a letter stands for.
fn piece_of_letter(c: char) -> (r: Option<Piece>)
    ensures
        r == fen_piece(c),
{
    match c {
        'P' => Some(Piece { piece: PieceType::Pawn, color: Color::White }),
        'p' => Some(Piece { piece: PieceType::Pawn, color: Color::Black }),
        'N' => Some(Piece { piece: PieceType::Knight, color: Color::White }),
        'n' => Some(Piece { piece: PieceType::Knight, color: Color::Black }),
        'B' => Some(Piece { piece: PieceType::Bishop, color: Color::White }),
        'b' => Some(Piece { piece: PieceType::Bishop, color: Color::Black }),
        'R' => Some(Piece { piece: PieceType::Rook, color: Color::White }),
        'r' => Some(Piece { piece: PieceType::Rook, color: Color::Black }),
        'Q' => Some(Piece { piece: PieceType::Queen, color: Color::White }),
        'q' => Some(Piece { piece: PieceType::Queen, color: Color::Black }),
        'K' => Some(Piece { piece: PieceType::King, color: Color::White }),
        'k' => Some(Piece { piece: PieceType::King, color: Color::Black }),
        _ => None,
    }
}

/// The number of files that a character other than `/` takes the cursor
/// down.
fn width_of_letter(c: char) -> (r: usize)
    ensures
        r == fen_width(c),
{
    match c {
        '2' => 2,
        '3' => 3,
        '4' => 4,
        '5' => 5,
        '6' => 6,
        '7' => 7,
        '8' => 8,
        _ => 1,
    }
}

/// The number of squares from coordinate `c` down to 0, both counted; none
/// when `c` is below 0.
pub open spec fn squares_left(c: int) -> int {
    if c < 0 {
        0
    } else {
        c + 1
    }
}

/// Reads the piece placement and the side to move from `s`.
pub fn parse_fen(s: &str) -> (r: (Board, Color))
    ensures
        forall|x: int, y: int|
            on_board(x, y) ==> at(r.0, x, y) == fen_square(s@, s@.len() as int, x, y),
        r.1 == fen_turn(s@),
{
    let mut board: Board = [[None; 8]; 8];
    let mut turn = Color::White;
    // The squares left in the rank under the cursor, and the ranks left.
    let mut files_left: usize = 8;
    let mut ranks_left: usize = 8;
    let mut placement = true;
    let mut side_read = false;
    for c in it: s.chars()
        invariant
            it.seq() == s@,
            placement ==> files_left == squares_left(fen_file(s@, it.index())),
            placement ==> ranks_left == squares_left(fen_rank(s@, it.index())),
            fen_file(s@, it.index()) <= 7,
            fen_rank(s@, it.index()) <= 7,
            forall|x: int, y: int|
                on_board(x, y) ==> at(board, x, y) == fen_square(s@, it.index(), x, y),
            placement == fen_no_space(s@, it.index()),
            placement ==> !side_read && turn == Color::White,
            !placement && !side_read ==> it.index() >= 1 && fen_first_space(s@, it.index() - 1)
                && turn == Color::White,
            side_read ==> exists|e: int|
                #[trigger] fen_first_space(s@, e) && e + 1 < it.index() && turn == if s@[e + 1]
                    == 'b' {
                    Color::Black
                } else {
                    Color::White
                },
    {
        let ghost before = board;
        if placement {
            if c == ' ' {
                placement = false;
            } else if c == '/' {
                if ranks_left > 0 {
                    ranks_left = ranks_left - 1;
                }
                files_left = 8;
            } else {
                match piece_of_letter(c) {
                    Some(p) => {
                        if files_left > 0 && ranks_left > 0 {
                            board[ranks_left - 1][files_left - 1] = Some(p);
                        }
                    },
                    None => {},
                }
                let w = width_of_letter(c);
                files_left = if files_left >= w {
                    files_left - w
                } else {
                    0
                };
            }
        } else if !side_read {
            if c == 'b' {
                turn = Color::Black;
            }
            side_read = true;
        }
        proof {
            let n = it.index();
            assert(fen_no_space(s@, n + 1) == (fen_no_space(s@, n) && s@[n] != ' '));
            assert forall|x: int, y: int| on_board(x, y) implies at(board, x, y) == fen_square(
                s@,
                n + 1,
                x,
                y,
            ) by {
                assert(at(before, x, y) == fen_square(s@, n, x, y));
            }
        }
    }
    proof {
        lemma_first_space_unique(s@);
    }
    (board, turn)
}

/// The cursor only goes down: later in the text its rank is no higher, and
/// within one rank its file is lower by at least the number of characters
/// read since.
pub proof fn lemma_cursor_descends(s: Seq<char>, i: int, j: int)
    requires
        0 <= i <= j,
    ensures
        fen_rank(s, j) <= fen_rank(s, i),
        fen_rank(s, j) == fen_rank(s, i) ==> fen_file(s, j) <= fen_file(s, i) - (j - i),
    decreases j - i,
{
    if i < j {
        lemma_cursor_descends(s, i, j - 1);
    }
}

/// No two letters of a text put a piece on the same square.
pub proof fn lemma_one_letter_per_square(s: Seq<char>, i: int, j: int, x: int, y: int)
    requires
        fen_places(s, i, x, y),
        fen_places(s, j, x, y),
    ensures
        i == j,
{
    if i < j {
        lemma_cursor_descends(s, i, j);
    } else if j < i {
        lemma_cursor_descends(s, j, i);
    }
}

/// A square holds the piece of the letter that was read while the cursor
/// stood on it.
pub proof fn lemma_square_holds_its_letter(s: Seq<char>, n: int, i: int, x: int, y: int)
    requires
        fen_places(s, i, x, y),
        i < n,
    ensures
        fen_square(s, n, x, y) == fen_piece(s[i]),
    decreases n,
{
    if fen_places(s, n - 1, x, y) {
        lemma_one_letter_per_square(s, i, n - 1, x, y);
    } else {
        lemma_square_holds_its_letter(s, n - 1, i, x, y);
    }
}

/// A square on which no letter was read is empty.
pub proof fn lemma_square_without_letter(s: Seq<char>, n: int, x: int, y: int)
    requires
        forall|i: int| 0 <= i < n ==> !fen_places(s, i, x, y),
    ensures
        fen_square(s, n, x, y) is None,
    decreases n,
{
    if n > 0 {
        lemma_square_without_letter(s, n - 1, x, y);
    }
}

/// A record has at most one first space.
pub proof fn lemma_first_space_unique(s: Seq<char>)
    ensures
        forall|e1: int, e2: int|
            #[trigger] fen_first_space(s, e1) && #[trigger] fen_first_space(s, e2) ==> e1 == e2,
{
}

} // verus!
