use chess_rules::{Game, Move};

#[test]
pub fn check_new_game() {
    let base_new_game = Game::new_game();
    let fen_game = Game::game_from_fen("rnbqkbnr/pppppppp/8/8/8/8/PPPPPPPP/RNBQKBNR w KQkq - 0 1");
    assert_eq!(base_new_game, fen_game);
}

#[test]
pub fn pawn_move() {
    let mut pawn_move = Game::new_game();
    let _ = pawn_move.do_move(Move { start_x: 3, start_y: 1, end_x: 3, end_y: 3 });
    let fen_game =
        Game::game_from_fen("rnbqkbnr/pppppppp/8/8/4P3/8/PPPP1PPP/RNBQKBNR b KQkq e3 0 1");
    assert_eq!(pawn_move.board, fen_game.board);
}

#[test]
pub fn knight_move() {
    let mut knight_move = Game::new_game();
    let _ = knight_move.do_move(Move { start_x: 1, start_y: 0, end_x: 2, end_y: 2 });
    let fen_game = Game::game_from_fen("rnbqkbnr/pppppppp/8/8/8/5N2/PPPPPPPP/RNBQKB1R b KQkq - 1 1");
    assert_eq!(knight_move.board, fen_game.board);
}

#[test]
pub fn italian_game() {
    let mut italian_game = Game::new_game();
    let _ = italian_game.do_move(Move { start_x: 3, start_y: 1, end_x: 3, end_y: 3 });
    let _ = italian_game.do_move(Move { start_x: 3, start_y: 6, end_x: 3, end_y: 4 });
    let _ = italian_game.do_move(Move { start_x: 1, start_y: 0, end_x: 2, end_y: 2 });
    let _ = italian_game.do_move(Move { start_x: 6, start_y: 7, end_x: 5, end_y: 5 });
    let _ = italian_game.do_move(Move { start_x: 2, start_y: 0, end_x: 5, end_y: 3 });
    let fen_game =
        Game::game_from_fen("r1bqkbnr/pppp1ppp/2n5/4p3/2B1P3/5N2/PPPP1PPP/RNBQK2R b KQkq - 3 3");
    assert_eq!(italian_game.board, fen_game.board);
}

#[test]
pub fn pin_ruy_lopez() {
    let mut pin_ruy_lopez = Game::new_game();
    let _ = pin_ruy_lopez.do_move(Move { start_x: 3, start_y: 1, end_x: 3, end_y: 3 });
    let _ = pin_ruy_lopez.do_move(Move { start_x: 3, start_y: 6, end_x: 3, end_y: 4 });
    let _ = pin_ruy_lopez.do_move(Move { start_x: 1, start_y: 0, end_x: 2, end_y: 2 });
    let _ = pin_ruy_lopez.do_move(Move { start_x: 6, start_y: 7, end_x: 5, end_y: 5 });
    let _ = pin_ruy_lopez.do_move(Move { start_x: 2, start_y: 0, end_x: 6, end_y: 4 });
    let _ = pin_ruy_lopez.do_move(Move { start_x: 4, start_y: 6, end_x: 4, end_y: 5 });
    let _ = pin_ruy_lopez.do_move(Move { start_x: 6, start_y: 0, end_x: 5, end_y: 2 });
    let _ = pin_ruy_lopez.do_move(Move { start_x: 5, start_y: 5, end_x: 4, end_y: 3 });
    let _ = pin_ruy_lopez.do_move(Move { start_x: 7, start_y: 6, end_x: 7, end_y: 5 });
    let fen_game =
        Game::game_from_fen("r1bqkbnr/1pp2ppp/p1np4/1B2p3/4P3/2N2N2/PPPP1PPP/R1BQK2R w KQkq - 0 5");
    assert_eq!(pin_ruy_lopez.board, fen_game.board);
}

#[test]
pub fn fools_mate() {
    let mut fools_mate = Game::new_game();
    let _ = fools_mate.do_move(Move { start_x: 3, start_y: 1, end_x: 3, end_y: 3 });
    let _ = fools_mate.do_move(Move { start_x: 1, start_y: 6, end_x: 1, end_y: 4 });
    let _ = fools_mate.do_move(Move { start_x: 4, start_y: 1, end_x: 4, end_y: 3 });
    let _ = fools_mate.do_move(Move { start_x: 2, start_y: 6, end_x: 2, end_y: 5 });
    let _ = fools_mate.do_move(Move { start_x: 4, start_y: 0, end_x: 0, end_y: 4 });
    let fen_game =
        Game::game_from_fen("rnbqkbnr/ppppp2p/5p2/6pQ/3PP3/8/PPP2PPP/RNB1KBNR b KQkq - 1 3");
    assert_eq!(fools_mate.board, fen_game.board);
}

#[test]
pub fn move_after_mate() {
    let mut move_after_mate = Game::new_game();
    let _ = move_after_mate.do_move(Move { start_x: 3, start_y: 1, end_x: 3, end_y: 3 });
    let _ = move_after_mate.do_move(Move { start_x: 1, start_y: 6, end_x: 1, end_y: 4 });
    let _ = move_after_mate.do_move(Move { start_x: 4, start_y: 1, end_x: 4, end_y: 3 });
    let _ = move_after_mate.do_move(Move { start_x: 2, start_y: 6, end_x: 2, end_y: 5 });
    let _ = move_after_mate.do_move(Move { start_x: 4, start_y: 0, end_x: 0, end_y: 4 });
    let _ = move_after_mate.do_move(Move { start_x: 4, start_y: 0, end_x: 0, end_y: 4 });
    let _ = move_after_mate.do_move(Move { start_x: 4, start_y: 0, end_x: 0, end_y: 4 });
    let fen_game =
        Game::game_from_fen("rnbqkbnr/ppppp2p/5p2/6pQ/3PP3/8/PPP2PPP/RNB1KBNR b KQkq - 1 3");
    assert_eq!(move_after_mate.board, fen_game.board);
}

#[test]
pub fn sic_queen() {
    let mut sic_queen = Game::new_game();
    let _ = sic_queen.do_move(Move { start_x: 3, start_y: 1, end_x: 3, end_y: 3 });
    let _ = sic_queen.do_move(Move { start_x: 5, start_y: 6, end_x: 5, end_y: 4 });
    let _ = sic_queen.do_move(Move { start_x: 4, start_y: 1, end_x: 4, end_y: 2 });
    let _ = sic_queen.do_move(Move { start_x: 4, start_y: 7, end_x: 7, end_y: 4 });
    let _ = sic_queen.do_move(Move { start_x: 5, start_y: 1, end_x: 5, end_y: 2 });
    let fen_game =
        Game::game_from_fen("rnb1kbnr/pp1ppppp/8/q1p5/4P3/2PP4/PP3PPP/RNBQKBNR b KQkq - 0 3");
    assert_eq!(sic_queen.board, fen_game.board);
}
