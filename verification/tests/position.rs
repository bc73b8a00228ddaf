use chess_position_trainer::board::{Color, Move, MoveKind, Piece, Role, Square};
use chess_position_trainer::chessgame::ChessGame;
use chess_position_trainer::position::{IllegalMove, InvalidFen, Position};

const START: &str = "rnbqkbnr/pppppppp/8/8/8/8/PPPPPPPP/RNBQKBNR w KQkq - 0 1";

fn sq(name: &str) -> Square {
    let b = name.as_bytes();
    Square { file: b[0] - b'a', rank: b[1] - b'1' }
}

#[test]
fn start_position_round_trips() {
    let p = Position::load(START).unwrap();
    assert_eq!(p.to_fen(), START);
}

#[test]
fn canonical_record_loads_as_the_same_position() {
    let records = [
        START,
        "r3k2r/8/8/8/8/8/8/R3K2R   w  KQkq   -  007 0012",
        "8/P7/8/8/8/8/8/k6K w - -",
        "rnbqkbnr/ppp1pppp/8/3pP3/8/8/PPPP1PPP/RNBQKBNR w KQkq d6 0 3",
        "2k4R/8/3K4/8/8/8/8/8 b - - 0 1",
    ];
    for record in records {
        let first = Position::load(record).unwrap();
        let canonical = first.to_fen();
        let second = Position::load(&canonical).unwrap();
        assert_eq!(second.to_fen(), canonical);
        assert_eq!(second.side_to_move(), first.side_to_move());
        for rank in 0..8 {
            for file in 0..8 {
                assert_eq!(second.piece_at(file, rank), first.piece_at(file, rank));
            }
        }
    }
}

#[test]
fn blanks_and_leading_zeros_are_normalised() {
    let p = Position::load("r3k2r/8/8/8/8/8/8/R3K2R   w  KQkq   -  007 0012").unwrap();
    assert_eq!(p.to_fen(), "r3k2r/8/8/8/8/8/8/R3K2R w KQkq - 7 12");
}

#[test]
fn fullmove_zero_counts_as_one() {
    let p = Position::load("8/P7/8/8/8/8/8/k6K w - - 0 0").unwrap();
    assert_eq!(p.to_fen(), "8/P7/8/8/8/8/8/k6K w - - 0 1");
}

#[test]
fn start_position_has_twenty_moves() {
    let p = Position::load(START).unwrap();
    let moves = p.legal_moves();
    assert_eq!(moves.len(), 20);
    let push = Move {
        origin: sq("e2"),
        target: sq("e4"),
        promotion: None,
        kind: MoveKind::DoublePawnPush,
    };
    let step = Move { origin: sq("e2"), target: sq("e3"), promotion: None, kind: MoveKind::Normal };
    let knight = Move { origin: sq("g1"), target: sq("f3"), promotion: None, kind: MoveKind::Normal };
    assert!(moves.contains(&push));
    assert!(moves.contains(&step));
    assert!(moves.contains(&knight));
}

#[test]
fn legal_moves_hold_no_move_twice() {
    let p = Position::load("r3k2r/8/8/8/8/8/8/R3K2R w KQkq - 0 1").unwrap();
    let moves = p.legal_moves();
    assert_eq!(moves.len(), 26);
    for i in 0..moves.len() {
        for j in 0..i {
            assert_ne!(moves[i], moves[j]);
        }
    }
}

#[test]
fn every_legal_move_applies_and_flips_the_side() {
    let records = [
        START,
        "r3k2r/8/8/8/8/8/8/R3K2R w KQkq - 0 1",
        "8/P7/8/8/8/8/8/k6K w - - 0 1",
        "rnbqkbnr/ppp1pppp/8/3pP3/8/8/PPPP1PPP/RNBQKBNR w KQkq d6 0 3",
        "2k4R/8/3K4/8/8/8/8/8 b - - 0 1",
    ];
    for record in records {
        let p = Position::load(record).unwrap();
        for m in p.legal_moves() {
            let mut q = Position::load(record).unwrap();
            assert_eq!(q.apply(m.origin, m.target, m.promotion), Ok(()));
            assert_ne!(q.side_to_move(), p.side_to_move());
            assert!(Position::load(&q.to_fen()).is_ok());
            let next = p.play(m.origin, m.target, m.promotion).unwrap();
            assert_eq!(next.to_fen(), q.to_fen());
        }
    }
}

#[test]
fn is_legal_agrees_with_the_list_of_moves() {
    let p = Position::load("8/P7/8/8/8/8/8/k6K w - - 0 1").unwrap();
    let moves = p.legal_moves();
    for of in 0..8u8 {
        for or in 0..8u8 {
            for tf in 0..8u8 {
                for tr in 0..8u8 {
                    let o = Square { file: of, rank: or };
                    let t = Square { file: tf, rank: tr };
                    let listed = moves.iter().any(|m| m.origin == o && m.target == t);
                    assert_eq!(p.is_legal(o, t, None), listed);
                    let promoting = moves
                        .iter()
                        .any(|m| m.origin == o && m.target == t && m.promotion.is_some());
                    assert_eq!(p.is_promotion(o, t), promoting);
                    if listed {
                        let all = moves
                            .iter()
                            .filter(|m| m.origin == o && m.target == t)
                            .all(|m| m.promotion.is_some());
                        assert_eq!(p.is_promotion(o, t), all);
                    }
                }
            }
        }
    }
}

#[test]
fn is_legal_with_a_promotion_asks_for_that_piece() {
    let p = Position::load("8/P7/8/8/8/8/8/k6K w - - 0 1").unwrap();
    assert!(p.is_legal(sq("a7"), sq("a8"), Some(Role::Queen)));
    assert!(p.is_legal(sq("a7"), sq("a8"), Some(Role::Knight)));
    assert!(!p.is_legal(sq("a7"), sq("a8"), Some(Role::King)));
    assert!(!p.is_legal(sq("h1"), sq("h2"), Some(Role::Queen)));
    assert!(p.is_legal(sq("h1"), sq("h2"), None));
}

#[test]
fn promotion_yields_four_moves() {
    let p = Position::load("8/P7/8/8/8/8/8/k6K w - - 0 1").unwrap();
    let promotions: Vec<Move> = p
        .legal_moves()
        .into_iter()
        .filter(|m| m.origin == sq("a7") && m.target == sq("a8"))
        .collect();
    assert_eq!(promotions.len(), 4);
    for role in [Role::Queen, Role::Rook, Role::Bishop, Role::Knight] {
        assert!(promotions.iter().any(|m| m.promotion == Some(role)));
    }
}

#[test]
fn legal_push_gives_en_passant_target() {
    let mut p = Position::load(START).unwrap();
    assert!(p.is_legal(sq("e2"), sq("e4"), None));
    assert!(!p.is_promotion(sq("e2"), sq("e4")));
    assert_eq!(p.apply(sq("e2"), sq("e4"), None), Ok(()));
    assert_eq!(p.to_fen(), "rnbqkbnr/pppppppp/8/8/4P3/8/PPPP1PPP/RNBQKBNR b KQkq e3 0 1");
}

#[test]
fn illegal_push_leaves_position() {
    let mut p = Position::load(START).unwrap();
    assert!(!p.is_legal(sq("e2"), sq("e5"), None));
    assert!(!p.is_promotion(sq("e2"), sq("e5")));
    assert_eq!(p.apply(sq("e2"), sq("e5"), None), Err(IllegalMove));
    assert_eq!(p.to_fen(), START);
}

#[test]
fn castle_moves_king_and_rook() {
    let mut p = Position::load("r3k2r/8/8/8/8/8/8/R3K2R w KQkq - 0 1").unwrap();
    let castle =
        Move { origin: sq("e1"), target: sq("g1"), promotion: None, kind: MoveKind::Castle };
    assert!(p.legal_moves().contains(&castle));
    assert_eq!(p.apply(sq("e1"), sq("g1"), None), Ok(()));
    assert_eq!(p.piece_at(6, 0), Some(Piece { color: Color::White, role: Role::King }));
    assert_eq!(p.piece_at(5, 0), Some(Piece { color: Color::White, role: Role::Rook }));
    assert_eq!(p.piece_at(7, 0), None);
    assert_eq!(p.to_fen(), "r3k2r/8/8/8/8/8/8/R4RK1 b kq - 1 1");
}

#[test]
fn castling_through_an_attacked_square_is_illegal() {
    let p = Position::load("r3k2r/8/8/8/8/5r2/8/R3K2R w KQkq - 0 1").unwrap();
    assert!(!p.is_legal(sq("e1"), sq("g1"), None));
    assert!(p.is_legal(sq("e1"), sq("c1"), None));
}

#[test]
fn a_pinned_piece_may_not_leave_the_king_in_check() {
    let p = Position::load("4r2k/8/8/8/8/8/4N3/4K3 w - - 0 1").unwrap();
    assert!(!p.is_legal(sq("e2"), sq("c3"), None));
    assert!(p.is_legal(sq("e1"), sq("d1"), None));
}

#[test]
fn promotion_to_queen() {
    let mut p = Position::load("8/P7/8/8/8/8/8/k6K w - - 0 1").unwrap();
    assert!(p.is_legal(sq("a7"), sq("a8"), None));
    assert!(p.is_promotion(sq("a7"), sq("a8")));
    assert_eq!(p.apply(sq("a7"), sq("a8"), None), Err(IllegalMove));
    assert_eq!(p.apply(sq("a7"), sq("a8"), Some(Role::Queen)), Ok(()));
    assert_eq!(p.to_fen(), "Q7/8/8/8/8/8/8/k6K b - - 0 1");
}

#[test]
fn en_passant_takes_the_passed_pawn() {
    let mut p =
        Position::load("rnbqkbnr/ppp1pppp/8/3pP3/8/8/PPPP1PPP/RNBQKBNR w KQkq d6 0 3").unwrap();
    let ep =
        Move { origin: sq("e5"), target: sq("d6"), promotion: None, kind: MoveKind::EnPassant };
    assert!(p.legal_moves().contains(&ep));
    assert_eq!(p.apply(sq("e5"), sq("d6"), None), Ok(()));
    assert_eq!(p.piece_at(3, 5), Some(Piece { color: Color::White, role: Role::Pawn }));
    assert_eq!(p.piece_at(3, 4), None);
    assert_eq!(p.side_to_move(), Color::Black);
    assert_eq!(p.to_fen(), "rnbqkbnr/ppp1pppp/3P4/8/8/8/PPPP1PPP/RNBQKBNR b KQkq - 0 3");
}

#[test]
fn en_passant_lasts_one_move() {
    let p = Position::load("rnbqkbnr/ppp1pppp/8/3pP3/8/8/PPPP1PPP/RNBQKBNR w KQkq - 0 3").unwrap();
    assert!(!p.is_legal(sq("e5"), sq("d6"), None));
}

#[test]
fn clocks_count_as_the_rules_say() {
    let mut p = Position::load(START).unwrap();
    assert_eq!(p.apply(sq("g1"), sq("f3"), None), Ok(()));
    assert_eq!(p.to_fen(), "rnbqkbnr/pppppppp/8/8/8/5N2/PPPPPPPP/RNBQKB1R b KQkq - 1 1");
    assert_eq!(p.apply(sq("g8"), sq("f6"), None), Ok(()));
    assert_eq!(p.to_fen(), "rnbqkb1r/pppppppp/5n2/8/8/5N2/PPPPPPPP/RNBQKB1R w KQkq - 2 2");
    assert_eq!(p.apply(sq("h1"), sq("g1"), None), Ok(()));
    assert_eq!(p.to_fen(), "rnbqkb1r/pppppppp/5n2/8/8/5N2/PPPPPPPP/RNBQKBR1 b Qkq - 3 2");
}

#[test]
fn piece_at_off_the_board_is_nothing() {
    let p = Position::load(START).unwrap();
    assert_eq!(p.piece_at(8, 0), None);
    assert_eq!(p.piece_at(0, 8), None);
    assert_eq!(p.piece_at(255, 255), None);
    assert_eq!(p.piece_at(4, 0), Some(Piece { color: Color::White, role: Role::King }));
    assert_eq!(p.piece_at(3, 7), Some(Piece { color: Color::Black, role: Role::Queen }));
    assert_eq!(p.piece_at(4, 3), None);
}

#[test]
fn malformed_records_are_refused() {
    let bad = [
        "",
        "rnbqkbnr/pppppppp/8/8/8/8/PPPPPPPP/RNBQKBNR",
        "rnbqkbnr/pppppppp/8/8/8/8/PPPPPPPP/RNBQKBNR w KQkq",
        "rnbqkbnr/pppppppp/8/8/8/8/PPPPPPPP/RNBQKBNR w KQkq - 0 1 extra",
        "rnbqkbnr/pppppppp/8/8/8/8/PPPPPPPP/RNBQKBNR x KQkq - 0 1",
        "rnbqkbnr/pppppppp/9/8/8/8/PPPPPPPP/RNBQKBNR w KQkq - 0 1",
        "rnbqkbnr/pppppppp/8/8/8/8/PPPPPPPP w KQkq - 0 1",
        "rnbqkbnr/pppppppp/8/8/8/8/PPPPPPPP/RNBQKBNR/8 w KQkq - 0 1",
        "rnbqkbnr/pppppppp/7/8/8/8/PPPPPPPP/RNBQKBNR w KQkq - 0 1",
        "rnbqkbnr/pppppppp/8//8/8/PPPPPPPP/RNBQKBNR w KQkq - 0 1",
        "rnbqkbnr/pppppppp/8/8/8/8/PPPPPPPP/RNBQKBNX w KQkq - 0 1",
        "rnbqkbnr/pppppppp/8/8/8/8/PPPPPPPP/RNBQKBNR w QK - 0 1",
        "rnbqkbnr/pppppppp/8/8/8/8/PPPPPPPP/RNBQKBNR w KQkqK - 0 1",
        "rnbqkbnr/pppppppp/8/8/8/8/PPPPPPPP/RNBQKBNR w KQkq e9 0 1",
        "rnbqkbnr/pppppppp/8/8/8/8/PPPPPPPP/RNBQKBNR w KQkq E3 0 1",
        "rnbqkbnr/pppppppp/8/8/8/8/PPPPPPPP/RNBQKBNR w KQkq - x 1",
        "rnbqkbnr/pppppppp/8/8/8/8/PPPPPPPP/RNBQKBNR w KQkq - -1 1",
        "rnbqkbnr/pppppppp/8/8/8/8/PPPPPPPP/RNBQKBNR w KQkq - 0 4294967296",
    ];
    for record in bad {
        assert!(matches!(Position::load(record), Err(InvalidFen)), "{}", record);
    }
}

#[test]
fn positions_against_the_rules_are_refused() {
    let bad = [
        "8/8/8/8/8/8/8/8 w - - 0 1",
        "8/8/8/8/8/8/8/K7 w - - 0 1",
        "k7/8/8/8/8/8/8/KK6 w - - 0 1",
        "k6P/8/8/8/8/8/8/K7 w - - 0 1",
        "k7/8/8/8/8/8/8/K6p w - - 0 1",
        "k7/8/8/8/8/8/8/K6R b KQ - 0 1",
        "4k3/8/8/8/8/8/8/4K2R w Q - 0 1",
        "k3R3/8/8/8/8/8/8/K7 w - - 0 1",
        "rnbqkbnr/pppppppp/8/8/8/8/PPPPPPPP/RNBQKBNR w KQkq e3 0 1",
    ];
    for record in bad {
        assert!(matches!(Position::load(record), Err(InvalidFen)), "{}", record);
    }
}

#[test]
fn largest_clock_is_read() {
    let p = Position::load("8/P7/8/8/8/8/8/k6K w - - 4294967295 4294967295").unwrap();
    assert_eq!(p.to_fen(), "8/P7/8/8/8/8/8/k6K w - - 4294967295 4294967295");
}

#[test]
fn short_record_gets_default_clocks() {
    let p = Position::load("rnbqkbnr/pppppppp/8/8/8/8/PPPPPPPP/RNBQKBNR w KQkq -").unwrap();
    assert_eq!(p.to_fen(), START);
    assert!(matches!(
        Position::load("rnbqkbnr/pppppppp/8/8/8/8/PPPPPPPP/RNBQKBNR w KQkq - 5"),
        Err(InvalidFen)
    ));
}

#[test]
fn game_plays_and_swallows_illegal_moves() {
    let mut game = ChessGame::new_from_fen(START).unwrap();
    assert!(game.is_white_turn());
    assert!(game.is_legal_move(sq("e2"), sq("e4")));
    assert!(!game.is_legal_move(sq("e2"), sq("e5")));
    assert!(!game.is_promotion_move(sq("e2"), sq("e4")));
    assert!(!game.do_move(sq("e2"), sq("e5"), None));
    assert_eq!(game.to_fen(), START);
    assert!(game.do_move(sq("e2"), sq("e4"), None));
    assert!(!game.is_white_turn());
    assert_eq!(
        game.piece_at_cell(sq("e4")),
        Some(Piece { color: Color::White, role: Role::Pawn })
    );
    assert_eq!(game.piece_at_cell(sq("e2")), None);
    assert_eq!(game.piece_at_cell(Square { file: 9, rank: 9 }), None);
    assert_eq!(game.position().to_fen(), game.to_fen());
    let next = game.after_move(sq("e7"), sq("e5"), None).unwrap();
    assert!(next.is_white_turn());
    assert!(game.after_move(sq("e7"), sq("e4"), None).is_none());
    assert!(ChessGame::new_from_fen("not a record").is_none());
}

#[test]
fn too_much_material_is_refused() {
    let crowded = "QQQQQQQQ/Q6Q/Q6Q/Q6Q/Q6Q/Q6Q/pp5Q/kBQQQQQK w - - 0 1";
    assert!(matches!(Position::load(crowded), Err(InvalidFen)));
    assert!(ChessGame::new_from_fen(crowded).is_none());
    for record in [
        "k7/8/8/8/8/8/PPPPPPPP/QQ5K w - - 0 1",
        "k7/8/8/8/8/8/8/RRR4K w - - 0 1",
        "k7/8/8/8/8/8/PPPPPPP1/NNNN3K w - - 0 1",
        "kqq5/pppppppp/8/8/8/8/8/7K w - - 0 1",
    ] {
        assert!(matches!(Position::load(record), Err(InvalidFen)), "{}", record);
    }
    assert!(Position::load("k7/8/8/8/8/8/PPPPPPP1/QQ5K w - - 0 1").is_ok());
}

#[test]
fn an_impossible_check_is_refused() {
    assert!(matches!(
        Position::load("4k3/8/3N1N2/8/8/8/8/4R2K b - - 0 1"),
        Err(InvalidFen)
    ));
    assert!(Position::load("4k3/8/3N4/8/8/8/8/4R2K b - - 0 1").is_ok());
}

#[test]
fn the_library_agrees_with_the_rules() {
    for record in [
        START,
        "r3k2r/p1ppqpb1/bn2pnp1/3PN3/1p2P3/2N2Q1p/PPPBBPPP/R3K2R w KQkq - 0 1",
        "8/2p5/3p4/KP5r/1R3p1k/8/4P1P1/8 w - - 0 1",
        "r3k2r/Pppp1ppp/1b3nbN/nP6/BBP1P3/q4N2/Pp1P2PP/R2Q1RK1 w kq - 0 1",
        "rnbq1k1r/pp1Pbppp/2p5/8/2B5/8/PPP1NnPP/RNBQK2R w KQ - 1 8",
        "r4rk1/1pp1qppp/p1np1n2/2b1p1B1/2B1P1b1/P1NP1N2/1PP1QPPP/R4RK1 w - - 0 10",
        "k3R3/8/8/8/8/8/8/K7 b - - 0 1",
        "8/8/8/8/8/8/5k2/7K w - - 0 1",
    ] {
        let p = Position::load(record).unwrap();
        assert!(p.agrees(), "{}", record);
        for m in p.legal_moves() {
            let next = p.play(m.origin, m.target, m.promotion).unwrap();
            assert!(next.agrees(), "{} after {:?}", record, m);
        }
    }
}
