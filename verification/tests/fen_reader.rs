use chess_rules::{Color, Game, Piece, PieceType};

fn man(piece: PieceType, color: Color) -> Option<Piece> {
    Some(Piece { piece, color })
}

/// The number of occupied squares of the board.
fn men(g: &Game) -> usize {
    g.board.iter().map(|rank| rank.iter().filter(|s| s.is_some()).count()).sum()
}

#[test]
fn the_first_letter_lands_on_file_7_of_rank_7() {
    let g = Game::game_from_fen("r7/8/8/8/8/8/8/8 w");
    assert_eq!(g.board[7][7], man(PieceType::Rook, Color::Black));
    assert_eq!(men(&g), 1);
}

#[test]
fn the_last_letter_lands_on_file_0_of_rank_0() {
    let g = Game::game_from_fen("8/8/8/8/8/8/8/7K w");
    assert_eq!(g.board[0][0], man(PieceType::King, Color::White));
    assert_eq!(men(&g), 1);
}

#[test]
fn every_letter_names_its_piece() {
    let g = Game::game_from_fen("PNBRQK2/pnbrqk2/8/8/8/8/8/8 w");
    let white = [
        PieceType::Pawn,
        PieceType::Knight,
        PieceType::Bishop,
        PieceType::Rook,
        PieceType::Queen,
        PieceType::King,
    ];
    for (i, kind) in white.iter().enumerate() {
        assert_eq!(g.board[7][7 - i], man(*kind, Color::White));
        assert_eq!(g.board[6][7 - i], man(*kind, Color::Black));
    }
    assert_eq!(men(&g), 12);
}

#[test]
fn a_digit_skips_that_many_files() {
    let g = Game::game_from_fen("1p6/2p5/3p4/4p3/5p2/6p1/7p/8 w");
    for n in 1..8usize {
        assert_eq!(g.board[8 - n][7 - n], man(PieceType::Pawn, Color::Black));
    }
    assert_eq!(men(&g), 7);
    let g = Game::game_from_fen("3k1q2/8/8/8/8/8/8/8 w");
    assert_eq!(g.board[7][4], man(PieceType::King, Color::Black));
    assert_eq!(g.board[7][2], man(PieceType::Queen, Color::Black));
    assert_eq!(men(&g), 2);
}

#[test]
fn any_other_character_skips_one_file() {
    for fen in ["rxk5/8/8/8/8/8/8/8 w", "r0k5/8/8/8/8/8/8/8 w", "r9k5/8/8/8/8/8/8/8 w", "r-k w"] {
        let g = Game::game_from_fen(fen);
        assert_eq!(g.board[7][7], man(PieceType::Rook, Color::Black));
        assert_eq!(g.board[7][6], None);
        assert_eq!(g.board[7][5], man(PieceType::King, Color::Black));
        assert_eq!(men(&g), 2);
    }
}

#[test]
fn a_slash_starts_the_next_rank_at_file_7() {
    let g = Game::game_from_fen("k/q/r w");
    assert_eq!(g.board[7][7], man(PieceType::King, Color::Black));
    assert_eq!(g.board[6][7], man(PieceType::Queen, Color::Black));
    assert_eq!(g.board[5][7], man(PieceType::Rook, Color::Black));
    assert_eq!(men(&g), 3);
}

#[test]
fn the_side_to_move_follows_the_first_space() {
    assert_eq!(Game::game_from_fen("8/8/8/8/8/8/8/8 w").turn, Color::White);
    assert_eq!(Game::game_from_fen("8/8/8/8/8/8/8/8 b").turn, Color::Black);
    assert_eq!(Game::game_from_fen("8/8/8/8/8/8/8/8 b KQkq - 0 1").turn, Color::Black);
    assert_eq!(Game::game_from_fen("8/8/8/8/8/8/8/8 w b").turn, Color::White);
    assert_eq!(Game::game_from_fen("8/8/8/8/8/8/8/8  b").turn, Color::White);
}

#[test]
fn white_moves_where_no_side_is_named() {
    assert_eq!(Game::game_from_fen("8/8/8/8/8/8/8/8").turn, Color::White);
    assert_eq!(Game::game_from_fen("8/8/8/8/8/8/8/8 ").turn, Color::White);
    assert_eq!(Game::game_from_fen("8/8/8/8/8/8/8/8 x").turn, Color::White);
    assert_eq!(Game::game_from_fen("8/8/8/8/8/8/8/8 B").turn, Color::White);
    assert_eq!(Game::game_from_fen("").turn, Color::White);
    // A `b` of the placement is a bishop, not the side to move.
    assert_eq!(Game::game_from_fen("b").turn, Color::White);
}

#[test]
fn nothing_after_the_first_space_is_placed() {
    let g = Game::game_from_fen("8/8/8/8/8/8/8/8 b KQkq - 0 1");
    assert_eq!(g.board, Game::empty_game().board);
    let g = Game::game_from_fen(" rnbqkbnr/pppppppp");
    assert_eq!(g.board, Game::empty_game().board);
}

#[test]
fn a_letter_read_outside_the_board_places_nothing() {
    // A ninth letter in a rank.
    let g = Game::game_from_fen("ppppppppP/8/8/8/8/8/8/8 w");
    assert_eq!(g.board[7], [man(PieceType::Pawn, Color::Black); 8]);
    assert_eq!(men(&g), 8);
    // A letter after the files have run out.
    let g = Game::game_from_fen("8K/44k/71q/8/8/8/8/8 w");
    assert_eq!(men(&g), 0);
    // A ninth rank.
    let g = Game::game_from_fen("8/8/8/8/8/8/8/8/KQRBNP2/kq w");
    assert_eq!(men(&g), 0);
}

#[test]
fn a_slash_brings_the_cursor_back_on_the_board() {
    let g = Game::game_from_fen("88888888pp/k7 w");
    assert_eq!(g.board[6][7], man(PieceType::King, Color::Black));
    assert_eq!(men(&g), 1);
}

#[test]
fn a_game_read_from_text_is_fresh() {
    let g = Game::game_from_fen("rnbqkbnr/pppppppp/8/8/8/8/PPPPPPPP/RNBQKBNR b KQkq - 12 34");
    assert!(!g.finished);
    assert!(g.move_history.is_empty());
}

#[test]
fn the_empty_text_gives_the_empty_game() {
    assert_eq!(Game::game_from_fen(""), Game::empty_game());
}

#[test]
fn the_empty_game_is_empty() {
    let g = Game::empty_game();
    assert_eq!(men(&g), 0);
    assert_eq!(g.turn, Color::White);
    assert!(!g.finished);
    assert!(g.move_history.is_empty());
}

#[test]
fn the_new_game_is_the_standard_opening() {
    let g = Game::new_game();
    let back = [
        PieceType::Rook,
        PieceType::Knight,
        PieceType::Bishop,
        PieceType::King,
        PieceType::Queen,
        PieceType::Bishop,
        PieceType::Knight,
        PieceType::Rook,
    ];
    for x in 0..8 {
        assert_eq!(g.board[0][x], man(back[x], Color::White));
        assert_eq!(g.board[1][x], man(PieceType::Pawn, Color::White));
        for y in 2..6 {
            assert_eq!(g.board[y][x], None);
        }
        assert_eq!(g.board[6][x], man(PieceType::Pawn, Color::Black));
        assert_eq!(g.board[7][x], man(back[x], Color::Black));
    }
    assert_eq!(g.turn, Color::White);
    assert!(!g.finished);
    assert!(g.move_history.is_empty());
}
