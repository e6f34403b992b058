use chess_game::{Game, MoveResult, PendingPromotion};

const START: &str = "rnbqkbnr/pppppppp/8/8/8/8/PPPPPPPP/RNBQKBNR w KQkq - 0 1";

fn game_at(fen: &str) -> Game {
    Game::new(fen.to_string()).expect("the engine reads this position")
}

fn fen_of(game: &Game) -> String {
    game.get_board().as_fen()
}

fn pending(start_file: u8, start_rank: u8, end_file: u8, end_rank: u8) -> PendingPromotion {
    PendingPromotion { start_file, start_rank, end_file, end_rank }
}

#[test]
fn default_game_starts_at_the_initial_position() {
    let game = Game::default();
    assert_eq!(fen_of(&game), START);
    assert!(game.is_white_turn());
    assert!(!game.is_reversed());
}

#[test]
fn king_pawn_two_steps_is_played() {
    let mut game = Game::default();
    assert_eq!(game.try_making_move(4, 1, 4, 3), MoveResult::Done);
    assert!(!game.is_white_turn());
    assert_eq!(fen_of(&game), "rnbqkbnr/pppppppp/8/8/4P3/8/PPPP1PPP/RNBQKBNR b KQkq e3 0 1");
}

#[test]
fn blocked_rook_step_is_refused() {
    let mut game = Game::default();
    assert_eq!(game.try_making_move(0, 0, 0, 1), MoveResult::Failure);
    assert_eq!(fen_of(&game), START);
    assert!(game.is_white_turn());
}

#[test]
fn pawn_on_seventh_asks_for_a_piece_and_becomes_a_queen() {
    let mut game = game_at("8/P6k/8/8/8/8/8/K7 w - - 0 1");
    let answer = game.try_making_move(0, 6, 0, 7);
    assert_eq!(answer, MoveResult::IsPromotion(pending(0, 6, 0, 7)));
    assert_eq!(fen_of(&game), "8/P6k/8/8/8/8/8/K7 w - - 0 1");
    let held = match answer {
        MoveResult::IsPromotion(held) => held,
        _ => unreachable!(),
    };
    assert_eq!(game.resolve_promotion(held, "q"), MoveResult::Done);
    assert_eq!(game.get_board().glyph(0, 7), 'Q');
    assert_eq!(game.get_board().glyph(0, 6), '.');
    assert_eq!(fen_of(&game), "Q7/7k/8/8/8/8/8/K7 b - - 0 1");
    assert!(!game.is_white_turn());
}

#[test]
fn each_legal_move_passes_the_turn_once() {
    let mut game = Game::default();
    let line: [(u8, u8, u8, u8); 6] =
        [(4, 1, 4, 3), (4, 6, 4, 4), (6, 0, 5, 2), (1, 7, 2, 5), (5, 0, 2, 3), (5, 7, 2, 4)];
    let mut white = true;
    for (start_file, start_rank, end_file, end_rank) in line {
        assert_eq!(game.is_white_turn(), white);
        assert_eq!(
            game.try_making_move(start_file, start_rank, end_file, end_rank),
            MoveResult::Done
        );
        white = !white;
        assert_eq!(game.is_white_turn(), white);
    }
    assert_eq!(
        fen_of(&game),
        "r1bqk1nr/pppp1ppp/2n5/2b1p3/2B1P3/5N2/PPPP1PPP/RNBQK2R w KQkq - 4 4"
    );
}

#[test]
fn castling_is_asked_for_by_the_kings_squares() {
    let mut game = game_at("r1bqk1nr/pppp1ppp/2n5/2b1p3/2B1P3/5N2/PPPP1PPP/RNBQK2R w KQkq - 4 4");
    assert_eq!(game.try_making_move(4, 0, 6, 0), MoveResult::Done);
    assert_eq!(
        fen_of(&game),
        "r1bqk1nr/pppp1ppp/2n5/2b1p3/2B1P3/5N2/PPPP1PPP/RNBQ1RK1 b kq - 5 4"
    );
}

#[test]
fn illegal_moves_are_refused_and_change_nothing() {
    let mut game = Game::default();
    let tries: [(u8, u8, u8, u8); 7] = [
        (4, 1, 4, 4),
        (4, 3, 4, 4),
        (4, 6, 4, 4),
        (1, 0, 1, 2),
        (4, 0, 4, 1),
        (3, 0, 3, 0),
        (0, 1, 1, 2),
    ];
    for (start_file, start_rank, end_file, end_rank) in tries {
        assert_eq!(
            game.try_making_move(start_file, start_rank, end_file, end_rank),
            MoveResult::Failure
        );
        assert_eq!(fen_of(&game), START);
        assert!(game.is_white_turn());
    }
}

#[test]
fn move_that_leaves_the_king_in_check_is_refused() {
    let fen = "4r1k1/8/8/8/8/8/4B3/4K3 w - - 0 1";
    let mut game = game_at(fen);
    assert_eq!(game.try_making_move(4, 1, 3, 2), MoveResult::Failure);
    assert_eq!(fen_of(&game), fen);
    assert_eq!(game.try_making_move(4, 0, 3, 0), MoveResult::Done);
}

#[test]
fn squares_off_the_board_are_refused() {
    let mut game = Game::default();
    assert_eq!(game.try_making_move(8, 1, 4, 3), MoveResult::Failure);
    assert_eq!(game.try_making_move(4, 8, 4, 3), MoveResult::Failure);
    assert_eq!(game.try_making_move(4, 1, 8, 3), MoveResult::Failure);
    assert_eq!(game.try_making_move(4, 1, 4, 8), MoveResult::Failure);
    assert_eq!(game.try_making_move(255, 255, 255, 255), MoveResult::Failure);
    assert_eq!(fen_of(&game), START);
    assert_eq!(game.resolve_promotion(pending(0, 6, 0, 8), "q"), MoveResult::Failure);
    assert_eq!(game.resolve_promotion(pending(200, 6, 0, 7), "q"), MoveResult::Failure);
    assert_eq!(fen_of(&game), START);
}

#[test]
fn white_pawn_leaving_the_seventh_rank_always_asks_for_a_piece() {
    // The pawn is blocked by the king in front of it: no such move is legal.
    let fen = "k7/P7/8/8/8/8/8/K7 w - - 0 1";
    let mut game = game_at(fen);
    for end_file in 0..8u8 {
        assert_eq!(
            game.try_making_move(0, 6, end_file, 7),
            MoveResult::IsPromotion(pending(0, 6, end_file, 7))
        );
        assert_eq!(fen_of(&game), fen);
    }
    assert_eq!(game.resolve_promotion(pending(0, 6, 0, 7), "q"), MoveResult::Failure);
    assert_eq!(fen_of(&game), fen);
}

#[test]
fn white_pawn_asks_for_a_piece_even_when_black_is_to_move() {
    let fen = "8/P6k/8/8/8/8/8/K7 b - - 0 1";
    let mut game = game_at(fen);
    assert_eq!(game.try_making_move(0, 6, 0, 7), MoveResult::IsPromotion(pending(0, 6, 0, 7)));
    assert_eq!(game.resolve_promotion(pending(0, 6, 0, 7), "q"), MoveResult::Failure);
    assert_eq!(fen_of(&game), fen);
}

#[test]
fn black_pawn_leaving_the_second_rank_asks_for_a_piece() {
    let fen = "k7/8/8/8/8/8/7p/K7 b - - 0 1";
    let mut game = game_at(fen);
    assert_eq!(game.try_making_move(7, 1, 7, 0), MoveResult::IsPromotion(pending(7, 1, 7, 0)));
    assert_eq!(fen_of(&game), fen);
    assert_eq!(game.resolve_promotion(pending(7, 1, 7, 0), "n"), MoveResult::Done);
    assert_eq!(game.get_board().glyph(7, 0), 'n');
    assert_eq!(fen_of(&game), "k7/8/8/8/8/8/8/K6n w - - 0 2");
}

#[test]
fn only_a_pawn_on_its_last_step_has_the_shape_of_a_promotion() {
    // A rook on the seventh rank moving to the eighth is an ordinary move.
    let mut game = game_at("7k/R7/8/8/8/8/8/K7 w - - 0 1");
    assert_eq!(game.try_making_move(0, 6, 0, 7), MoveResult::Done);
    // A white pawn on the second rank has six ranks to go.
    let mut game = Game::default();
    assert_eq!(game.try_making_move(0, 1, 0, 2), MoveResult::Done);
    // A black pawn on the seventh rank moving up the board is no promotion.
    let mut game = game_at("k7/p7/8/8/8/8/8/K7 w - - 0 1");
    assert_eq!(game.try_making_move(0, 6, 0, 7), MoveResult::Failure);
}

#[test]
fn promotion_by_capture_to_each_piece() {
    for (kind, glyph) in [("q", 'Q'), ("r", 'R'), ("b", 'B'), ("n", 'N')] {
        let mut game = game_at("1n5k/P7/8/8/8/8/8/K7 w - - 0 1");
        assert_eq!(game.try_making_move(0, 6, 1, 7), MoveResult::IsPromotion(pending(0, 6, 1, 7)));
        assert_eq!(game.resolve_promotion(pending(0, 6, 1, 7), kind), MoveResult::Done);
        assert_eq!(game.get_board().glyph(1, 7), glyph);
        assert!(!game.is_white_turn());
    }
}

#[test]
fn promotion_to_anything_but_the_four_pieces_is_refused() {
    let fen = "8/P6k/8/8/8/8/8/K7 w - - 0 1";
    let mut game = game_at(fen);
    for kind in [
        "k", "p", "Q", "R", "B", "N", " ", "0", "x", "\u{e9}", "\u{265b}", "", "qq", "queen", "q ",
        " q",
    ] {
        assert_eq!(game.resolve_promotion(pending(0, 6, 0, 7), kind), MoveResult::Failure);
        assert_eq!(fen_of(&game), fen);
        assert!(game.is_white_turn());
    }
}

#[test]
fn promotion_is_judged_anew_when_it_is_resolved() {
    // The squares of an ordinary move, resubmitted with a piece, are refused.
    let mut game = Game::default();
    assert_eq!(game.resolve_promotion(pending(4, 1, 4, 3), "q"), MoveResult::Failure);
    // Without a piece there is nothing to resolve, though the move alone would be legal.
    assert_eq!(game.resolve_promotion(pending(4, 1, 4, 3), ""), MoveResult::Failure);
    assert_eq!(fen_of(&game), START);
}

#[test]
fn complete_move_text_is_played_or_refused() {
    let mut game = Game::default();
    assert_eq!(game.try_commiting_promotion("e2e5".to_string()), MoveResult::Failure);
    assert_eq!(game.try_commiting_promotion("".to_string()), MoveResult::Failure);
    assert_eq!(game.try_commiting_promotion("0000".to_string()), MoveResult::Failure);
    assert_eq!(game.try_commiting_promotion("e2e4q".to_string()), MoveResult::Failure);
    assert_eq!(game.try_commiting_promotion("e2e4 ".to_string()), MoveResult::Failure);
    assert_eq!(game.try_commiting_promotion("E2E4".to_string()), MoveResult::Failure);
    assert_eq!(game.try_commiting_promotion("a\u{e9}2".to_string()), MoveResult::Failure);
    assert_eq!(game.try_commiting_promotion("\u{e9}2e4".to_string()), MoveResult::Failure);
    assert_eq!(fen_of(&game), START);
    assert_eq!(game.try_commiting_promotion("e2e4".to_string()), MoveResult::Done);
    assert_eq!(fen_of(&game), "rnbqkbnr/pppppppp/8/8/4P3/8/PPPP1PPP/RNBQKBNR b KQkq e3 0 1");
}

#[test]
fn complete_move_text_with_a_piece_promotes() {
    let mut game = game_at("8/P6k/8/8/8/8/8/K7 w - - 0 1");
    assert_eq!(game.try_commiting_promotion("a7a8".to_string()), MoveResult::Failure);
    assert_eq!(game.try_commiting_promotion("a7a8k".to_string()), MoveResult::Failure);
    assert_eq!(game.try_commiting_promotion("a7a8r".to_string()), MoveResult::Done);
    assert_eq!(fen_of(&game), "R7/7k/8/8/8/8/8/K7 b - - 0 1");
}

#[test]
fn en_passant_is_an_ordinary_move() {
    let mut game = game_at("4k3/8/8/3pP3/8/8/8/4K3 w - d6 0 2");
    assert_eq!(game.try_making_move(4, 4, 3, 5), MoveResult::Done);
    assert_eq!(fen_of(&game), "4k3/8/3P4/8/8/8/8/4K3 b - - 0 2");
}

#[test]
fn quiet_piece_move_is_refused_at_a_full_half_move_counter() {
    let fen = "4k3/8/8/8/8/8/8/R3K3 w - - 65535 7";
    let mut game = game_at(fen);
    assert_eq!(game.try_making_move(0, 0, 0, 1), MoveResult::Failure);
    assert_eq!(game.try_commiting_promotion("e1e2".to_string()), MoveResult::Failure);
    assert_eq!(fen_of(&game), fen);
    let fen = "4k3/8/8/8/8/8/8/R3K3 b - - 65535 7";
    let mut game = game_at(fen);
    assert_eq!(game.try_making_move(4, 7, 4, 6), MoveResult::Failure);
    assert_eq!(fen_of(&game), fen);
}

#[test]
fn pawn_move_is_played_at_a_full_half_move_counter() {
    let mut game = game_at("4k3/8/8/8/8/8/4P3/4K3 w - - 65535 7");
    assert_eq!(game.try_making_move(4, 1, 4, 3), MoveResult::Done);
    assert_eq!(fen_of(&game), "4k3/8/8/8/4P3/8/8/4K3 b - e3 0 7");
    let mut game = game_at("4k3/4p3/8/8/8/8/8/4K3 b - - 65535 7");
    assert_eq!(game.try_making_move(4, 6, 4, 5), MoveResult::Done);
    assert_eq!(fen_of(&game), "4k3/8/4p3/8/8/8/8/4K3 w - - 0 8");
}

#[test]
fn capture_is_played_at_a_full_half_move_counter() {
    let mut game = game_at("4k3/8/8/8/8/8/r7/R3K3 w - - 65535 7");
    assert_eq!(game.try_making_move(0, 0, 0, 1), MoveResult::Done);
    assert_eq!(fen_of(&game), "4k3/8/8/8/8/8/R7/4K3 b - - 0 7");
}

#[test]
fn promotion_is_played_at_a_full_half_move_counter() {
    let mut game = game_at("8/P6k/8/8/8/8/8/K7 w - - 65535 7");
    assert_eq!(game.try_commiting_promotion("a7a8q".to_string()), MoveResult::Done);
    assert_eq!(fen_of(&game), "Q7/7k/8/8/8/8/8/K7 b - - 0 7");
    let mut game = game_at("8/P6k/8/8/8/8/8/K7 w - - 65535 65535");
    assert_eq!(game.try_making_move(0, 6, 0, 7), MoveResult::IsPromotion(pending(0, 6, 0, 7)));
    assert_eq!(game.resolve_promotion(pending(0, 6, 0, 7), "n"), MoveResult::Done);
    assert_eq!(fen_of(&game), "N7/7k/8/8/8/8/8/K7 b - - 0 65535");
}

#[test]
fn white_moves_at_a_full_move_number_and_black_does_not() {
    let mut game = game_at("4k3/8/8/8/8/8/8/R3K3 w - - 3 65535");
    assert_eq!(game.try_making_move(0, 0, 0, 1), MoveResult::Done);
    assert_eq!(fen_of(&game), "4k3/8/8/8/8/8/R7/4K3 b - - 4 65535");
    assert_eq!(game.try_making_move(4, 7, 4, 6), MoveResult::Failure);
    assert_eq!(game.try_commiting_promotion("e8e7".to_string()), MoveResult::Failure);
    assert_eq!(fen_of(&game), "4k3/8/8/8/8/8/R7/4K3 b - - 4 65535");
    // Neither a pawn move nor a capture helps Black there.
    let fen = "4k3/4p3/8/8/8/8/r7/R3K3 b - - 3 65535";
    let mut game = game_at(fen);
    assert_eq!(game.try_making_move(4, 6, 4, 5), MoveResult::Failure);
    assert_eq!(game.try_making_move(0, 1, 0, 0), MoveResult::Failure);
    assert_eq!(fen_of(&game), fen);
}

#[test]
fn counters_one_below_full_still_count() {
    let mut game = game_at("4k3/8/8/8/8/8/8/R3K3 w - - 65534 65534");
    assert_eq!(game.try_making_move(0, 0, 0, 1), MoveResult::Done);
    assert_eq!(fen_of(&game), "4k3/8/8/8/8/8/R7/4K3 b - - 65535 65534");
    assert_eq!(game.try_making_move(4, 7, 4, 6), MoveResult::Failure);
    let mut game = game_at("4k3/8/8/8/8/8/8/R3K3 b - - 3 65534");
    assert_eq!(game.try_making_move(4, 7, 4, 6), MoveResult::Done);
    assert_eq!(fen_of(&game), "8/4k3/8/8/8/8/8/R3K3 w - - 4 65535");
}

#[test]
fn texts_that_name_no_move_are_refused_at_full_counters() {
    let fen = "4k3/8/8/8/8/8/r7/R3K3 w - - 65535 65535";
    let mut game = game_at(fen);
    for text in ["", "a1", "a1a", "zzzz", "a1a9", "i1a2", "0000", "a1a2a1a2", "A1A2", "a1a2x", "a1 a2"] {
        assert_eq!(game.try_commiting_promotion(text.to_string()), MoveResult::Failure);
        assert_eq!(fen_of(&game), fen);
    }
    // An illegal capture and an illegal pawn-like text are the engine's to refuse.
    assert_eq!(game.try_commiting_promotion("a1a3".to_string()), MoveResult::Failure);
    assert_eq!(game.try_commiting_promotion("e1a2".to_string()), MoveResult::Failure);
    assert_eq!(game.try_commiting_promotion("a1a2".to_string()), MoveResult::Done);
}

#[test]
fn clone_is_a_game_of_its_own() {
    let mut game = Game::default();
    let kept = game.clone();
    assert_eq!(game.try_making_move(4, 1, 4, 3), MoveResult::Done);
    assert_eq!(fen_of(&kept), START);
    assert!(kept.is_white_turn());
    assert!(!game.is_white_turn());
}

#[test]
fn answers_compare_by_what_they_hold() {
    assert_eq!(MoveResult::Done, MoveResult::Done);
    assert_ne!(MoveResult::Done, MoveResult::Failure);
    assert_ne!(
        MoveResult::IsPromotion(pending(0, 6, 0, 7)),
        MoveResult::IsPromotion(pending(0, 6, 1, 7))
    );
    assert_eq!(format!("{:?}", MoveResult::Failure), "Failure");
}
