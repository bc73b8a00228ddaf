use chess_position_trainer::engine::{
    Engine, EngineError, LineReader, Phase, Reply, Step, DEFAULT_TIME, SETTLE_TIME,
};

/// A session driven to `Ready` through the greeting and the first handshake.
fn ready() -> Engine {
    let mut e = Engine::new("/usr/bin/stockfish");
    assert_eq!(e.take_steps(), vec![Step::Spawn("/usr/bin/stockfish".to_string())]);
    assert_eq!(e.receive("Stockfish 16 by the Stockfish developers\n"), Reply::Pending);
    e.take_steps();
    assert_eq!(e.receive("id name Stockfish 16\n"), Reply::Pending);
    assert_eq!(e.receive("uciok\n"), Reply::Pending);
    assert_eq!(e.receive("readyok\n"), Reply::Started);
    e
}

#[test]
fn start_greets_then_shakes_hands() {
    let mut e = Engine::new("engine");
    assert_eq!(e.phase(), Phase::Spawned);
    assert!(e.awaits_line());
    assert!(!e.is_idle());
    assert_eq!(e.take_steps(), vec![Step::Spawn("engine".to_string())]);
    assert_eq!(e.take_steps(), vec![]);
    assert_eq!(e.receive("hello\n"), Reply::Pending);
    assert_eq!(e.phase(), Phase::Greeted);
    assert_eq!(
        e.take_steps(),
        vec![
            Step::Send("uci\n".to_string()),
            Step::Pause(SETTLE_TIME),
            Step::Send("isready\n".to_string()),
        ]
    );
    assert_eq!(e.receive("option name Hash type spin\n"), Reply::Pending);
    assert_eq!(e.phase(), Phase::Greeted);
    assert_eq!(e.receive("  uciok \r\n"), Reply::Pending);
    assert_eq!(e.phase(), Phase::Initialised);
    assert_eq!(e.receive("readyok\n"), Reply::Started);
    assert_eq!(e.phase(), Phase::Ready);
    assert_eq!(e.answer(), "option name Hash type spin\n  uciok \r");
    assert!(e.is_idle());
    assert!(!e.awaits_line());
    assert_eq!(e.take_steps(), vec![]);
}

#[test]
fn set_position_sends_one_line() {
    let mut e = ready();
    assert_eq!(e.set_position("2k4R/8/3K4/8/8/8/8/8 b - - 0 1"), Ok(()));
    assert_eq!(e.phase(), Phase::Ready);
    assert_eq!(e.position(), "2k4R/8/3K4/8/8/8/8/8 b - - 0 1");
    assert_eq!(
        e.take_steps(),
        vec![Step::Send("position fen 2k4R/8/3K4/8/8/8/8/8 b - - 0 1 moves \n".to_string())]
    );
}

#[test]
fn positions_keep_their_order_and_the_last_one_stands() {
    let mut e = ready();
    let fens = ["8/8/8/8/8/8/8/k6K w - - 0 1", "8/8/8/8/8/8/8/k5K1 b - - 1 1", "k7/8/8/8/8/8/8/6K1 w - - 2 2"];
    for fen in fens {
        assert_eq!(e.set_position(fen), Ok(()));
    }
    assert_eq!(e.position(), fens[2]);
    let steps = e.take_steps();
    assert_eq!(steps.len(), 3);
    for i in 0..3 {
        assert_eq!(steps[i], Step::Send(format!("position fen {} moves \n", fens[i])));
    }
}

#[test]
fn moves_are_joined_by_spaces() {
    let mut e = ready();
    let moves = vec!["e2e4".to_string(), "e7e5".to_string(), "g1f3".to_string()];
    assert_eq!(e.make_moves(&moves), Ok(()));
    assert_eq!(e.position(), "rnbqkbnr/pppppppp/8/8/8/8/PPPPPPPP/RNBQKBNR w KQkq - 0 1");
    assert_eq!(e.make_moves_from_position("8/8/8/8/8/8/8/k6K w - - 0 1", &moves), Ok(()));
    assert_eq!(e.make_moves(&vec![]), Ok(()));
    assert_eq!(
        e.take_steps(),
        vec![
            Step::Send("position startpos moves e2e4 e7e5 g1f3\n".to_string()),
            Step::Send("position fen 8/8/8/8/8/8/8/k6K w - - 0 1 moves e2e4 e7e5 g1f3\n".to_string()),
            Step::Send("position startpos moves \n".to_string()),
        ]
    );
}

#[test]
fn best_move_is_the_second_word_of_the_line() {
    let mut e = ready();
    assert_eq!(e.set_position("2k4R/8/3K4/8/8/8/8/8 b - - 0 1"), Ok(()));
    assert_eq!(e.bestmove(), Ok(()));
    assert_eq!(e.phase(), Phase::Busy);
    assert!(e.awaits_line());
    assert_eq!(
        e.take_steps(),
        vec![
            Step::Send("position fen 2k4R/8/3K4/8/8/8/8/8 b - - 0 1 moves \n".to_string()),
            Step::Send("go movetime 100\n".to_string()),
        ]
    );
    assert_eq!(e.receive("info depth 1 score cp -500 pv c8b7\n"), Reply::Pending);
    assert_eq!(e.receive("info string bestmove is near\n"), Reply::Pending);
    assert_eq!(e.receive("\n"), Reply::Pending);
    assert_eq!(e.phase(), Phase::Busy);
    assert_eq!(e.receive("bestmove c8b7 ponder h8h7\n"), Reply::BestMove);
    assert_eq!(e.answer(), "c8b7");
    assert_eq!(e.phase(), Phase::Ready);
}

#[test]
fn best_move_tolerates_runs_of_blanks() {
    let mut e = ready();
    assert_eq!(e.bestmove(), Ok(()));
    assert_eq!(e.receive("bestmove \t a7a8q\r\n"), Reply::BestMove);
    assert_eq!(e.answer(), "a7a8q");
}

#[test]
fn best_move_without_a_move_poisons() {
    let mut e = ready();
    assert_eq!(e.bestmove(), Ok(()));
    assert_eq!(e.receive("bestmove\n"), Reply::Failed);
    assert_eq!(e.phase(), Phase::Poisoned);
    assert_eq!(e.bestmove(), Err(EngineError::Io("the engine named no best move".to_string())));
}

#[test]
fn movetime_sets_the_search_time() {
    let mut e = ready().movetime(2500);
    assert_eq!(e.bestmove(), Ok(()));
    assert_eq!(e.take_steps(), vec![Step::Send("go movetime 2500\n".to_string())]);
    assert_eq!(DEFAULT_TIME, 100);
    let mut z = ready().movetime(0);
    assert_eq!(z.bestmove(), Ok(()));
    assert_eq!(z.take_steps(), vec![Step::Send("go movetime 0\n".to_string())]);
    let mut m = ready().movetime(u32::MAX);
    assert_eq!(m.bestmove(), Ok(()));
    assert_eq!(m.take_steps(), vec![Step::Send("go movetime 4294967295\n".to_string())]);
}

#[test]
fn option_is_set_where_the_engine_says_nothing() {
    let mut e = ready();
    assert_eq!(e.set_option("Skill Level", "5"), Ok(()));
    assert_eq!(e.phase(), Phase::Syncing);
    assert_eq!(
        e.take_steps(),
        vec![
            Step::Send("setoption name Skill Level value 5\n".to_string()),
            Step::Send("isready\n".to_string()),
        ]
    );
    assert_eq!(e.receive("\n"), Reply::Pending);
    let reply = e.receive("readyok\n");
    assert_eq!(reply, Reply::OptionSet);
    assert_eq!(e.option_result(reply), Ok(()));
    assert_eq!(e.phase(), Phase::Ready);
}

#[test]
fn option_is_unknown_where_the_engine_objects() {
    let mut e = ready();
    assert_eq!(e.set_option("Skil Level", "5"), Ok(()));
    assert_eq!(e.receive("No such option: Skil Level\n"), Reply::Pending);
    let reply = e.receive("readyok\n");
    assert_eq!(reply, Reply::OptionUnknown);
    assert_eq!(e.answer(), "No such option: Skil Level");
    assert_eq!(e.option_result(reply), Err(EngineError::UnknownOption("Skil Level".to_string())));
    assert_eq!(e.phase(), Phase::Ready);
    assert_eq!(e.set_position("8/8/8/8/8/8/8/k6K w - - 0 1"), Ok(()));
    assert_eq!(e.option_result(Reply::Pending), Err(EngineError::Io(String::new())));
}

#[test]
fn raw_command_is_sent_as_given() {
    let mut e = ready();
    assert_eq!(e.command("d"), Ok(()));
    assert_eq!(
        e.take_steps(),
        vec![
            Step::Send("d\n".to_string()),
            Step::Pause(100),
            Step::Send("isready\n".to_string()),
        ]
    );
    assert_eq!(e.receive("readyok\n"), Reply::Output);
    assert_eq!(e.command(" d"), Ok(()));
    assert_eq!(e.take_steps()[0], Step::Send(" d\n".to_string()));
    assert_eq!(e.receive("readyok\n"), Reply::Output);
    assert_eq!(e.command("  go depth 1 \t"), Ok(()));
    assert_eq!(e.take_steps()[0], Step::Send("  go depth 1 \t\n".to_string()));
    assert_eq!(e.receive("readyok\n"), Reply::Output);
    assert_eq!(e.command(""), Ok(()));
    assert_eq!(e.take_steps()[0], Step::Send("\n".to_string()));
}

#[test]
fn raw_command_collects_what_the_engine_says() {
    let mut e = ready();
    assert_eq!(e.command("d"), Ok(()));
    assert_eq!(e.phase(), Phase::Syncing);
    assert_eq!(e.receive(" +---+---+\n"), Reply::Pending);
    assert_eq!(e.receive(" | k |   |\r\n"), Reply::Pending);
    assert_eq!(e.receive("\n"), Reply::Pending);
    assert_eq!(e.receive("Fen: 8/8 \n"), Reply::Pending);
    assert_eq!(e.receive("  readyok \r\n"), Reply::Output);
    assert_eq!(e.answer(), " +---+---+\n | k |   |\r\n\nFen: 8/8 ");
    assert_eq!(e.phase(), Phase::Ready);
    assert_eq!(e.command("d"), Ok(()));
    assert_eq!(e.receive("readyok\n"), Reply::Output);
    assert_eq!(e.answer(), "");
    assert_eq!(e.command("d"), Ok(()));
    assert_eq!(e.receive("one line\n"), Reply::Pending);
    assert_eq!(e.receive("readyok\n"), Reply::Output);
    assert_eq!(e.answer(), "one line");
}

#[test]
fn any_text_from_the_engine_makes_the_option_unknown() {
    let mut e = ready();
    assert_eq!(e.set_option("Hash", "16"), Ok(()));
    assert_eq!(e.receive(" \n"), Reply::Pending);
    let reply = e.receive("readyok\n");
    assert_eq!(reply, Reply::OptionUnknown);
    assert_eq!(e.answer(), " ");
    assert_eq!(e.option_result(reply), Err(EngineError::UnknownOption("Hash".to_string())));
    assert_eq!(e.set_option("Hash", "16"), Ok(()));
    assert_eq!(e.receive("\n"), Reply::Pending);
    assert_eq!(e.receive("\n"), Reply::Pending);
    assert_eq!(e.receive("readyok\n"), Reply::OptionUnknown);
    assert_eq!(e.answer(), "\n");
}

#[test]
fn failure_poisons_the_session() {
    let mut e = ready();
    assert_eq!(e.set_position("8/8/8/8/8/8/8/k6K w - - 0 1"), Ok(()));
    assert_eq!(e.failure(), "");
    assert_eq!(e.fail("broken pipe"), EngineError::Io("broken pipe".to_string()));
    assert_eq!(e.failure(), "broken pipe");
    assert_eq!(e.phase(), Phase::Poisoned);
    assert_eq!(e.take_steps(), vec![]);
    let refused = || Err(EngineError::Io("broken pipe".to_string()));
    assert_eq!(e.set_position("k7/8/8/8/8/8/8/7K w - - 0 1"), refused());
    assert_eq!(e.position(), "8/8/8/8/8/8/8/k6K w - - 0 1");
    assert_eq!(e.make_moves(&vec![]), refused());
    assert_eq!(e.make_moves_from_position("x", &vec![]), refused());
    assert_eq!(e.bestmove(), refused());
    assert_eq!(e.set_option("a", "b"), refused());
    assert_eq!(e.command("d"), refused());
    assert_eq!(e.receive("readyok\n"), Reply::Failed);
    assert_eq!(e.option_result(Reply::Failed), refused());
    assert_eq!(e.take_steps(), vec![]);
    assert_eq!(e.phase(), Phase::Poisoned);
}

#[test]
fn failure_to_start_is_a_spawn_error() {
    let mut e = Engine::new("/no/such/engine");
    e.take_steps();
    assert_eq!(e.fail("no such file"), EngineError::Spawn);
    assert_eq!(e.phase(), Phase::Poisoned);
    assert_eq!(e.fail("again"), EngineError::Io("again".to_string()));
    assert_eq!(e.bestmove(), Err(EngineError::Io("again".to_string())));
}

#[test]
fn errors_have_their_messages() {
    assert_eq!(EngineError::Spawn.to_string(), "Engine could not be created !");
    assert_eq!(EngineError::Io("broken pipe".to_string()).to_string(), "IO error: broken pipe");
    assert_eq!(EngineError::Io(String::new()).to_string(), "IO error: ");
    assert_eq!(
        EngineError::UnknownOption("Skil Level".to_string()).to_string(),
        "No such option: 'Skil Level'"
    );
    assert_eq!(EngineError::Spawn.description(), "Engine could not be created");
    assert_eq!(EngineError::Io("broken pipe".to_string()).description(), "broken pipe");
    assert_eq!(EngineError::UnknownOption("x".to_string()).description(), "Unknown option");
}

#[test]
fn stop_closes_the_engine_once() {
    let mut e = ready();
    e.stop();
    assert_eq!(e.phase(), Phase::Stopped);
    assert_eq!(e.take_steps(), vec![Step::Close]);
    e.stop();
    assert_eq!(e.take_steps(), vec![]);
    assert_eq!(e.bestmove(), Err(EngineError::Io("the session has been stopped".to_string())));
    assert_eq!(e.fail("late"), EngineError::Io("late".to_string()));
    assert_eq!(e.phase(), Phase::Stopped);
    assert_eq!(e.command("d"), Err(EngineError::Io("the session has been stopped".to_string())));
}

#[test]
fn line_while_ready_is_dropped() {
    let mut e = ready();
    assert_eq!(e.receive("info string idle chatter\n"), Reply::Idle);
    assert_eq!(e.phase(), Phase::Ready);
}

#[test]
fn reader_cuts_lines_at_line_feeds() {
    let mut reader = LineReader::new();
    let mut lines: Vec<String> = Vec::new();
    for b in "uciok\nbestmove c8b7\n\nrest".bytes() {
        if let Some(line) = reader.push(b) {
            lines.push(line);
        }
    }
    assert_eq!(lines, vec!["uciok\n", "bestmove c8b7\n", "\n"]);
    assert_eq!(reader.push(b'\n'), Some("rest\n".to_string()));
    assert_eq!(reader.push(0xe9), None);
    assert_eq!(reader.push(b'\n'), Some("\u{e9}\n".to_string()));
}
