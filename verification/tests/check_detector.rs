use chess_rules::{Color, Game};

/// Whether the side to move of the position `fen` is in check.
fn checked(fen: &str) -> bool {
    Game::game_from_fen(fen).in_check()
}

#[test]
fn rook_gives_check_along_a_file_or_rank() {
    assert!(checked("4k3/8/8/8/8/8/8/4R2K b"));
    assert!(checked("R3k3/8/8/8/8/8/8/7K b"));
    assert!(checked("4k2R/8/8/8/8/8/8/7K b"));
    assert!(checked("4R3/8/8/8/8/8/8/4k2K b"));
    assert!(!checked("4k3/8/8/8/8/8/8/3R3K b"));
    // The side whose rook it is is not in check.
    assert!(!checked("4k3/8/8/8/8/8/8/4R2K w"));
}

#[test]
fn rook_gives_no_check_along_a_diagonal() {
    assert!(!checked("4k3/8/8/8/R7/8/8/7K b"));
    assert!(!checked("4k3/5R2/8/8/8/8/8/7K b"));
}

#[test]
fn bishop_gives_check_along_a_diagonal_only() {
    assert!(checked("4k3/8/8/8/B7/8/8/7K b"));
    assert!(checked("4k3/8/8/7B/8/8/8/7K b"));
    assert!(checked("8/8/8/8/8/2k5/8/B6K b"));
    assert!(!checked("4k3/8/8/8/8/8/8/4B2K b"));
    assert!(!checked("4k3/4B3/8/8/8/8/8/7K b"));
}

#[test]
fn queen_gives_check_both_ways() {
    assert!(checked("4k3/8/8/8/8/8/8/4Q2K b"));
    assert!(checked("4k3/8/8/8/Q7/8/8/7K b"));
    assert!(checked("Q3k3/8/8/8/8/8/8/7K b"));
    assert!(!checked("4k3/8/5Q2/8/8/8/8/7K b"));
}

#[test]
fn a_piece_in_between_blocks_the_ray() {
    // A piece of the king's own side.
    assert!(!checked("4k3/8/8/4p3/8/8/8/4R2K b"));
    assert!(!checked("4k3/3n4/8/8/B7/8/8/7K b"));
    // A piece of the other side that does not itself give check.
    assert!(!checked("4k3/8/8/4N3/8/8/8/4R2K b"));
    assert!(!checked("4k3/8/8/4P3/8/8/8/4Q2K b"));
    assert!(!checked("4k3/3R4/8/8/B7/8/8/7K b"));
    // The first piece met decides, not one behind it.
    assert!(checked("4k3/8/8/4R3/8/8/8/4N2K b"));
}

#[test]
fn knight_gives_check_a_jump_away() {
    assert!(checked("4k3/8/5N2/8/8/8/8/7K b"));
    assert!(checked("4k3/8/3N4/8/8/8/8/7K b"));
    assert!(checked("4k3/2N5/8/8/8/8/8/7K b"));
    assert!(checked("4k3/6N1/8/8/8/8/8/7K b"));
    assert!(checked("8/8/8/2n5/4K3/8/8/7k w"));
    assert!(checked("8/8/8/8/4K3/8/3n4/7k w"));
    assert!(checked("8/8/8/8/4K3/8/5n2/7k w"));
    assert!(checked("8/8/8/8/4K3/6n1/8/7k w"));
    assert!(!checked("4k3/8/4N3/8/8/8/8/7K b"));
    assert!(!checked("4k3/8/8/4N3/8/8/8/7K b"));
    // A knight of the king's own side.
    assert!(!checked("4k3/8/5n2/8/8/8/8/7K b"));
}

#[test]
fn only_a_knight_gives_check_from_a_knight_square() {
    assert!(!checked("4k3/8/5R2/8/8/8/8/7K b"));
    assert!(!checked("4k3/8/5B2/8/8/8/8/7K b"));
    assert!(!checked("4k3/8/5Q2/8/8/8/8/7K b"));
    assert!(!checked("4k3/8/5P2/8/8/8/8/7K b"));
    assert!(!checked("4k3/8/5K2/8/8/8/8/8 b"));
}

#[test]
fn pawn_gives_check_diagonally_ahead_of_itself() {
    // White pawns capture toward rank 8.
    assert!(checked("4k3/3P4/8/8/8/8/8/7K b"));
    assert!(checked("4k3/5P2/8/8/8/8/8/7K b"));
    assert!(!checked("4k3/4P3/8/8/8/8/8/7K b"));
    assert!(!checked("8/8/8/3P4/4k3/8/8/7K b"));
    assert!(!checked("8/8/8/5P2/4k3/8/8/7K b"));
    assert!(!checked("4k3/8/2P5/8/8/8/8/7K b"));
    // Black pawns capture toward rank 1.
    assert!(checked("7k/8/8/8/8/8/3p4/4K3 w"));
    assert!(checked("7k/8/8/8/8/8/5p2/4K3 w"));
    assert!(!checked("7k/8/8/8/8/8/4p3/4K3 w"));
    assert!(!checked("7k/8/8/8/4K3/3p4/8/8 w"));
    assert!(!checked("7k/8/8/8/4K3/5p2/8/8 w"));
    // A pawn of the king's own side.
    assert!(!checked("4k3/3p4/8/8/8/8/8/7K b"));
}

#[test]
fn king_gives_check_next_to_the_other_king() {
    assert!(checked("8/8/8/8/3kK3/8/8/8 w"));
    assert!(checked("8/8/8/8/3kK3/8/8/8 b"));
    assert!(checked("8/8/8/3k4/4K3/8/8/8 w"));
    assert!(checked("8/8/8/4k3/4K3/8/8/8 b"));
    assert!(!checked("8/8/8/8/2k1K3/8/8/8 w"));
    assert!(!checked("8/8/4k3/8/4K3/8/8/8 b"));
    assert!(!checked("8/8/2k5/8/4K3/8/8/8 w"));
}

#[test]
fn the_opening_position_has_no_check() {
    let mut g = Game::new_game();
    assert!(!g.in_check());
    g.turn = Color::Black;
    assert!(!g.in_check());
}

#[test]
fn a_side_without_a_king_is_not_in_check() {
    assert!(!Game::empty_game().in_check());
    assert!(!checked("8/8/8/8/8/8/8/R6k w"));
    assert!(!checked("r7/8/8/8/8/8/8/Q7 w"));
}

#[test]
fn the_first_king_in_reading_order_is_the_one_examined() {
    // Two white kings: the one on rank 1 is read first.
    assert!(checked("7k/8/8/8/8/4K3/8/r3K3 w"));
    assert!(!checked("7k/8/8/8/8/r3K3/8/4K3 w"));
    // On one rank, the king with the lower `x` is read first.
    assert!(checked("7k/8/8/8/8/8/8/K1n1r2K w"));
    assert!(!checked("7k/8/8/8/8/8/8/K1r1n2K w"));
}

#[test]
fn the_detector_changes_nothing() {
    let mut g = Game::game_from_fen("4k3/8/8/8/8/8/8/4R2K b");
    let before = g.clone();
    assert!(g.in_check());
    assert_eq!(g, before);
}
