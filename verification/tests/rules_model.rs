use chess_position_trainer::attack::{attacked_from, king_attacked};
use chess_position_trainer::board::{Color, Move, MoveKind, Role, Square};
use chess_position_trainer::chessboard::ChessBoard;
use chess_position_trainer::chessgame::ChessGame;
use chess_position_trainer::fen::Setup;
use chess_position_trainer::movement::is_attacked;
use chess_position_trainer::position::Position;

const START: &str = "rnbqkbnr/pppppppp/8/8/8/8/PPPPPPPP/RNBQKBNR w KQkq - 0 1";

fn setup(record: &str) -> Setup {
    let chars: Vec<char> = record.chars().collect();
    Setup::read(&chars).unwrap()
}

fn sq(name: &str) -> Square {
    let b = name.as_bytes();
    Square { file: b[0] - b'a', rank: b[1] - b'1' }
}

fn mv(from: &str, to: &str, promotion: Option<Role>, kind: MoveKind) -> Move {
    Move { origin: sq(from), target: sq(to), promotion, kind }
}

#[test]
fn sound_positions() {
    for record in [
        START,
        "r3k2r/8/8/8/8/8/8/R3K2R w KQkq - 0 1",
        "k3R3/8/8/8/8/8/8/K7 b - - 0 1",
        "8/P7/8/8/8/8/8/k6K w - - 0 1",
        "4k3/8/8/8/8/8/8/4K2R w K - 0 1",
        "rnbqkbnr/pppppppp/8/8/4P3/8/PPPP1PPP/RNBQKBNR b KQkq e3 0 1",
        "rnbqkbnr/ppp1pppp/8/3pP3/8/8/PPPP1PPP/RNBQKBNR w KQkq d6 0 3",
    ] {
        assert!(setup(record).is_sound(), "{}", record);
    }
}

#[test]
fn each_rule_of_soundness_is_tested() {
    for record in [
        "8/8/8/8/8/8/8/8 w - - 0 1",
        "8/8/8/8/8/8/8/K7 w - - 0 1",
        "k7/8/8/8/8/8/8/8 w - - 0 1",
        "k7/8/8/8/8/8/8/KK6 w - - 0 1",
        "kk6/8/8/8/8/8/8/K7 w - - 0 1",
        "k6P/8/8/8/8/8/8/K7 w - - 0 1",
        "k6p/8/8/8/8/8/8/K7 w - - 0 1",
        "k7/8/8/8/8/8/8/K6P w - - 0 1",
        "k7/8/8/8/8/8/8/K6p w - - 0 1",
        "4k3/8/8/8/8/8/8/4K3 w K - 0 1",
        "4k3/8/8/8/8/8/8/4K2R w Q - 0 1",
        "4k3/8/8/8/8/8/8/R2K3R w KQ - 0 1",
        "4k3/8/8/8/8/8/8/4K2r w K - 0 1",
        "r3k3/8/8/8/8/8/8/4K3 w k - 0 1",
        "r2k4/8/8/8/8/8/8/4K3 w q - 0 1",
        "k3R3/8/8/8/8/8/8/K7 w - - 0 1",
        "k7/1P6/8/8/8/8/8/K7 w - - 0 1",
        "k7/2N5/8/8/8/8/8/K7 w - - 0 1",
        "k7/8/8/8/8/8/8/K6B w - - 0 1",
        "1k6/8/8/8/8/8/1q6/K7 b - - 0 1",
        "8/8/8/8/8/8/8/Kk6 w - - 0 1",
        "rnbqkbnr/pppppppp/8/8/8/8/PPPPPPPP/RNBQKBNR w KQkq e3 0 1",
        "rnbqkbnr/pppppppp/8/8/4P3/8/PPPP1PPP/RNBQKBNR b KQkq e4 0 1",
        "rnbqkbnr/pppppppp/8/8/4P3/8/PPPP1PPP/RNBQKBNR b KQkq e6 0 1",
        "rnbqkbnr/pppppppp/8/8/4P3/8/PPPPPPPP/RNBQKBNR b KQkq e3 0 1",
        "rnbqkbnr/pppppppp/8/8/4P3/4N3/PPPP1PPP/R1BQKBNR b KQkq e3 0 1",
        "rnbqkbnr/pppppppp/8/8/4p3/8/PPPP1PPP/RNBQKBNR b KQkq e3 0 1",
        "rnbqkbnr/pppppppp/8/8/4P3/8/PPPP1PPP/RNBQKBNR w KQkq e3 0 1",
    ] {
        assert!(!setup(record).is_sound(), "{}", record);
    }
}

#[test]
fn a_screened_line_does_not_give_check() {
    assert!(setup("k2nR3/8/8/8/8/8/8/K7 w - - 0 1").is_sound());
    assert!(setup("k7/8/2n5/8/8/8/8/K6B b - - 0 1").is_sound());
}

#[test]
fn pieces_attack_as_they_move() {
    let s = setup("7k/8/8/3q4/8/2N5/1P6/K3R2b w - - 0 1");
    let hits = |from: &str, to: &str| attacked_from(&s.cells, sq(from), sq(to));
    assert!(hits("d5", "d8"));
    assert!(hits("d5", "a5"));
    assert!(hits("d5", "g8"));
    assert!(hits("d5", "a2"));
    assert!(hits("d5", "e4"));
    assert!(hits("d5", "h1"));
    assert!(!hits("d5", "b1"));
    assert!(!hits("d5", "d5"));
    assert!(!hits("d5", "e7"));
    assert!(hits("h1", "e4"));
    assert!(hits("h1", "d5"));
    assert!(!hits("h1", "c6"));
    assert!(hits("c3", "d5"));
    assert!(hits("c3", "a2"));
    assert!(hits("c3", "b1"));
    assert!(!hits("c3", "c5"));
    assert!(hits("b2", "a3"));
    assert!(hits("b2", "c3"));
    assert!(!hits("b2", "b3"));
    assert!(!hits("b2", "a1"));
    assert!(hits("e1", "e8"));
    assert!(hits("e1", "b1"));
    assert!(hits("e1", "a1"));
    assert!(hits("e1", "h1"));
    assert!(hits("a1", "b1"));
    assert!(hits("a1", "b2"));
    assert!(!hits("a1", "c1"));
    assert!(hits("h8", "g7"));
    assert!(!hits("a8", "a7"));
    let black = setup("7k/6p1/8/8/8/8/8/K7 w - - 0 1");
    assert!(attacked_from(&black.cells, sq("g7"), sq("f6")));
    assert!(attacked_from(&black.cells, sq("g7"), sq("h6")));
    assert!(!attacked_from(&black.cells, sq("g7"), sq("h8")));
}

#[test]
fn sliders_stop_at_the_first_piece() {
    let s = setup("7k/8/8/8/8/8/8/R1B1K3 w - - 0 1");
    assert!(attacked_from(&s.cells, sq("a1"), sq("b1")));
    assert!(attacked_from(&s.cells, sq("a1"), sq("c1")));
    assert!(!attacked_from(&s.cells, sq("a1"), sq("d1")));
    assert!(!attacked_from(&s.cells, sq("a1"), sq("e1")));
    assert!(attacked_from(&s.cells, sq("a1"), sq("a8")));
}

#[test]
fn check_is_seen_for_either_side() {
    let s = setup("k3R3/8/8/8/8/8/8/K7 b - - 0 1");
    assert!(king_attacked(&s.cells, Color::Black));
    assert!(!king_attacked(&s.cells, Color::White));
    let quiet = setup(START);
    assert!(!king_attacked(&quiet.cells, Color::White));
    assert!(!king_attacked(&quiet.cells, Color::Black));
    let none = setup("8/8/8/8/8/8/8/K7 w - - 0 1");
    assert!(!king_attacked(&none.cells, Color::Black));
}

#[test]
fn step_follows_the_account_of_a_move() {
    let cases = [
        (START, mv("e2", "e4", None, MoveKind::DoublePawnPush),
            "rnbqkbnr/pppppppp/8/8/4P3/8/PPPP1PPP/RNBQKBNR b KQkq e3 0 1"),
        (START, mv("g1", "f3", None, MoveKind::Normal),
            "rnbqkbnr/pppppppp/8/8/8/5N2/PPPPPPPP/RNBQKB1R b KQkq - 1 1"),
        ("r3k2r/8/8/8/8/8/8/R3K2R w KQkq - 0 1", mv("e1", "g1", None, MoveKind::Castle),
            "r3k2r/8/8/8/8/8/8/R4RK1 b kq - 1 1"),
        ("r3k2r/8/8/8/8/8/8/R3K2R w KQkq - 0 1", mv("e1", "c1", None, MoveKind::Castle),
            "r3k2r/8/8/8/8/8/8/2KR3R b kq - 1 1"),
        ("r3k2r/8/8/8/8/8/8/R3K2R b KQkq - 3 7", mv("e8", "c8", None, MoveKind::Castle),
            "2kr3r/8/8/8/8/8/8/R3K2R w KQ - 4 8"),
        ("r3k2r/8/8/8/8/8/8/R3K2R w KQkq - 0 1", mv("a1", "a8", None, MoveKind::Normal),
            "R3k2r/8/8/8/8/8/8/4K2R b Kk - 0 1"),
        ("r3k2r/8/8/8/8/8/8/R3K2R w KQkq - 5 1", mv("h1", "h2", None, MoveKind::Normal),
            "r3k2r/8/8/8/8/8/7R/R3K3 b Qkq - 6 1"),
        ("8/P7/8/8/8/8/8/k6K w - - 9 1", mv("a7", "a8", Some(Role::Knight), MoveKind::Normal),
            "N7/8/8/8/8/8/8/k6K b - - 0 1"),
        ("rnbqkbnr/ppp1pppp/8/3pP3/8/8/PPPP1PPP/RNBQKBNR w KQkq d6 0 3",
            mv("e5", "d6", None, MoveKind::EnPassant),
            "rnbqkbnr/ppp1pppp/3P4/8/8/8/PPPP1PPP/RNBQKBNR b KQkq - 0 3"),
        ("8/8/8/8/8/8/8/k6K b - - 4294967295 4294967295", mv("a1", "a2", None, MoveKind::Normal),
            "8/8/8/8/8/8/k7/7K w - - 4294967295 4294967295"),
    ];
    for (before, m, after) in cases {
        assert_eq!(setup(before).step(m).write(), after);
    }
}

#[test]
fn same_compares_every_value() {
    let a = setup(START);
    assert!(a.same(&setup(START)));
    assert!(a.same(&a.clone()));
    for other in [
        "rnbqkbnr/pppppppp/8/8/8/8/PPPPPPPP/RNBQKBN1 w KQkq - 0 1",
        "rnbqkbnr/pppppppp/8/8/8/8/PPPPPPPP/RNBQKBNR b KQkq - 0 1",
        "rnbqkbnr/pppppppp/8/8/8/8/PPPPPPPP/RNBQKBNR w KQk - 0 1",
        "rnbqkbnr/pppppppp/8/8/8/8/PPPPPPPP/RNBQKBNR w KQkq e3 0 1",
        "rnbqkbnr/pppppppp/8/8/8/8/PPPPPPPP/RNBQKBNR w KQkq - 1 1",
        "rnbqkbnr/pppppppp/8/8/8/8/PPPPPPPP/RNBQKBNR w KQkq - 0 2",
    ] {
        assert!(!a.same(&setup(other)), "{}", other);
    }
}

#[test]
fn clones_are_independent() {
    let mut game = ChessGame::new_from_fen(START).unwrap();
    let kept = game.clone();
    assert!(game.do_move(sq("e2"), sq("e4"), None));
    assert_eq!(kept.to_fen(), START);
    let position = Position::load(START).unwrap();
    assert_eq!(position.clone().to_fen(), START);
    let mut board = ChessBoard::new(START).unwrap();
    board.handle_mouse_pressed(240, 340);
    let copy = board.clone();
    board.handle_mouse_released(240, 240, None);
    assert!(copy.moved_piece().is_some());
    assert_eq!(copy.game().to_fen(), START);
    assert_ne!(board.game().to_fen(), START);
}

#[test]
fn squares_are_attacked_by_either_side() {
    let s = setup("r3k2r/8/8/8/8/5r2/8/R3K2R w KQkq - 0 1");
    assert!(is_attacked(&s.cells, sq("f1"), Color::Black));
    assert!(!is_attacked(&s.cells, sq("g1"), Color::Black));
    assert!(!is_attacked(&s.cells, sq("e1"), Color::Black));
    assert!(is_attacked(&s.cells, sq("f1"), Color::White));
    assert!(is_attacked(&s.cells, sq("a7"), Color::White));
    assert!(!is_attacked(&s.cells, sq("b7"), Color::White));
}

#[test]
fn pieces_obey_the_rules_of_movement() {
    let start = setup(START);
    assert!(start.obeys(mv("e2", "e4", None, MoveKind::DoublePawnPush)));
    assert!(start.obeys(mv("e2", "e3", None, MoveKind::Normal)));
    assert!(start.obeys(mv("g1", "f3", None, MoveKind::Normal)));
    assert!(!start.obeys(mv("e2", "e5", None, MoveKind::Normal)));
    assert!(!start.obeys(mv("e2", "e4", None, MoveKind::Normal)));
    assert!(!start.obeys(mv("e2", "d3", None, MoveKind::Normal)));
    assert!(!start.obeys(mv("e2", "d3", None, MoveKind::EnPassant)));
    assert!(!start.obeys(mv("e2", "e1", None, MoveKind::Normal)));
    assert!(!start.obeys(mv("g1", "e2", None, MoveKind::Normal)));
    assert!(!start.obeys(mv("g1", "g3", None, MoveKind::Normal)));
    assert!(!start.obeys(mv("f1", "c4", None, MoveKind::Normal)));
    assert!(!start.obeys(mv("a1", "a3", None, MoveKind::Normal)));
    assert!(!start.obeys(mv("d1", "d3", None, MoveKind::Normal)));
    assert!(!start.obeys(mv("e1", "g1", None, MoveKind::Castle)));
    assert!(!start.obeys(mv("e4", "e5", None, MoveKind::Normal)));
    assert!(!start.obeys(Move {
        origin: Square { file: 8, rank: 1 },
        target: sq("e4"),
        promotion: None,
        kind: MoveKind::Normal,
    }));
    let blocked = setup("rnbqkbnr/pppppppp/8/8/8/4n3/PPPPPPPP/RNBQKBNR w KQkq - 0 1");
    assert!(!blocked.obeys(mv("e2", "e4", None, MoveKind::DoublePawnPush)));
    assert!(!blocked.obeys(mv("e2", "e3", None, MoveKind::Normal)));
    assert!(blocked.obeys(mv("d2", "e3", None, MoveKind::Normal)));
    assert!(blocked.obeys(mv("f2", "e3", None, MoveKind::Normal)));
    let passing = setup("rnbqkbnr/ppp1pppp/8/3pP3/8/8/PPPP1PPP/RNBQKBNR w KQkq d6 0 3");
    assert!(passing.obeys(mv("e5", "d6", None, MoveKind::EnPassant)));
    assert!(!passing.obeys(mv("e5", "f6", None, MoveKind::EnPassant)));
    let late = setup("rnbqkbnr/ppp1pppp/8/3pP3/8/8/PPPP1PPP/RNBQKBNR w KQkq - 0 3");
    assert!(!late.obeys(mv("e5", "d6", None, MoveKind::EnPassant)));
}

#[test]
fn castling_needs_right_room_and_safety() {
    let free = setup("r3k2r/8/8/8/8/8/8/R3K2R w KQkq - 0 1");
    assert!(free.obeys(mv("e1", "g1", None, MoveKind::Castle)));
    assert!(free.obeys(mv("e1", "c1", None, MoveKind::Castle)));
    assert!(!free.obeys(mv("e8", "g8", None, MoveKind::Castle)));
    let black = setup("r3k2r/8/8/8/8/8/8/R3K2R b KQkq - 0 1");
    assert!(black.obeys(mv("e8", "g8", None, MoveKind::Castle)));
    assert!(black.obeys(mv("e8", "c8", None, MoveKind::Castle)));
    let no_right = setup("r3k2r/8/8/8/8/8/8/R3K2R w Qkq - 0 1");
    assert!(!no_right.obeys(mv("e1", "g1", None, MoveKind::Castle)));
    assert!(no_right.obeys(mv("e1", "c1", None, MoveKind::Castle)));
    let crowded = setup("r3k2r/8/8/8/8/8/8/RN2K1NR w KQkq - 0 1");
    assert!(!crowded.obeys(mv("e1", "g1", None, MoveKind::Castle)));
    assert!(!crowded.obeys(mv("e1", "c1", None, MoveKind::Castle)));
    let crossed = setup("r3k2r/8/8/8/8/5r2/8/R3K2R w KQkq - 0 1");
    assert!(!crossed.obeys(mv("e1", "g1", None, MoveKind::Castle)));
    assert!(crossed.obeys(mv("e1", "c1", None, MoveKind::Castle)));
    let landing = setup("r3k2r/8/8/8/8/6r1/8/R3K2R w KQkq - 0 1");
    assert!(!landing.obeys(mv("e1", "g1", None, MoveKind::Castle)));
    let checked = setup("r3k2r/8/8/8/8/4r3/8/R3K2R w KQkq - 0 1");
    assert!(!checked.obeys(mv("e1", "g1", None, MoveKind::Castle)));
    assert!(!checked.obeys(mv("e1", "c1", None, MoveKind::Castle)));
    let rook_passes = setup("r3k2r/8/8/8/8/1r6/8/R3K2R w KQkq - 0 1");
    assert!(rook_passes.obeys(mv("e1", "c1", None, MoveKind::Castle)));
}

#[test]
fn no_legal_move_leaves_the_mover_in_check() {
    for record in [
        START,
        "r3k2r/p1ppqpb1/bn2pnp1/3PN3/1p2P3/2N2Q1p/PPPBBPPP/R3K2R w KQkq - 0 1",
        "8/2p5/3p4/KP5r/1R3p1k/8/4P1P1/8 w - - 0 1",
        "4r2k/8/8/8/8/8/4N3/4K3 w - - 0 1",
        "k3R3/8/8/8/8/8/8/K7 b - - 0 1",
    ] {
        let p = Position::load(record).unwrap();
        let mover = p.side_to_move();
        let before = setup(record);
        for m in p.legal_moves() {
            assert!(before.obeys(m));
            let next = p.play(m.origin, m.target, m.promotion).unwrap();
            let after = setup(&next.to_fen());
            assert!(after.same(&before.step(m)));
            assert!(after.is_sound());
            assert!(!king_attacked(&after.cells, mover));
        }
    }
}
