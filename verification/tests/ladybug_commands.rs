use ladybug::ladybug::Ladybug;

/// Sends each line to Ladybug and collects all output lines.
fn run_lines(ladybug: &mut Ladybug, lines: &[&str]) -> Vec<String> {
    let mut out = Vec::new();
    for line in lines {
        let reply = ladybug.handle_input(line);
        out.extend(reply.output);
    }
    out
}

#[test]
fn test_ladybug_with_invalid_uci_input_prints_error_message() {
    let mut ladybug = Ladybug::new();
    assert_eq!(vec!["info string unknown command"], run_lines(&mut ladybug, &["Not Uci"]));
    assert_eq!(vec!["info string unknown command"], run_lines(&mut ladybug, &["       "]));
    assert_eq!(vec!["info string unknown command"], run_lines(&mut ladybug, &["123456789"]));
    assert_eq!(vec!["info string unknown command"], run_lines(&mut ladybug, &["position test"]));
    assert_eq!(vec!["info string invalid fen"], run_lines(&mut ladybug, &["position fen this is invalid fen"]));
}

#[test]
fn test_ladybug_for_uci() {
    let mut ladybug = Ladybug::new();
    let out = run_lines(&mut ladybug, &["uci"]);
    assert_eq!("id name Ladybug 0.1.0", out[0]);
    assert_eq!("id author Felix O.", out[1]);
    assert_eq!("uciok", out[2]);
}

#[test]
fn test_ladybug_for_isready() {
    let mut ladybug = Ladybug::new();
    let out = run_lines(&mut ladybug, &["isready"]);
    assert_eq!("readyok", out[0]);
}

#[test]
fn test_ladybug_for_position() {
    let mut ladybug = Ladybug::new();

    let out = run_lines(&mut ladybug, &["position startpos", "display"]);
    assert_eq!("rnbqkbnr/pppppppp/8/8/8/8/PPPPPPPP/RNBQKBNR w KQkq - 0 1", out[0]);

    let out = run_lines(&mut ladybug, &["position fen rnbqkbnr/pppppppp/8/8/8/8/PPPPPPPP/RNBQKBNR w KQkq - 0 1", "display"]);
    assert_eq!("rnbqkbnr/pppppppp/8/8/8/8/PPPPPPPP/RNBQKBNR w KQkq - 0 1", out[0]);

    let out = run_lines(&mut ladybug, &["position startpos moves e2e4 c7c5 c2c3 b8c6 d2d4", "display"]);
    assert_eq!("r1bqkbnr/pp1ppppp/2n5/2p5/3PP3/2P5/PP3PPP/RNBQKBNR b KQkq d3 0 3", out[0]);

    let out = run_lines(&mut ladybug, &["position fen r1bqkbnr/pp1ppppp/2n5/2p5/3PP3/2P5/PP3PPP/RNBQKBNR b KQkq d3 0 3 moves c5d4 h2h4 d4c3 g1f3 c3b2 f1b5 b2c1q", "display"]);
    assert_eq!("r1bqkbnr/pp1ppppp/2n5/1B6/4P2P/5N2/P4PP1/RNqQK2R w KQkq - 0 7", out[0]);
}

#[test]
fn test_ladybug_for_quit() {
    let mut ladybug = Ladybug::new();
    let reply = ladybug.handle_input("quit");
    assert_eq!("quit", reply.output[0]);
    assert!(reply.quit);
}

#[test]
fn test_ladybug_for_help() {
    let mut ladybug = Ladybug::new();
    let out = run_lines(&mut ladybug, &["help"]);
    assert_eq!("Ladybug is a free and UCI compatible chess engine.", out[0]);
    assert_eq!("Currently, Ladybug only implements a subset of the UCI protocol:", out[1]);
    assert_eq!("uci                              : Ask Ladybug if she supports UCI", out[2]);
    assert_eq!("isready                          : Synchronize Ladybug with the GUI", out[3]);
    assert_eq!("position fen <fen> moves <moves> : Setup the board position", out[4]);
    assert_eq!("quit                             : Quit Ladybug", out[5]);
    assert_eq!("display                          : Print the fen of the current position", out[6]);
}

#[test]
fn test_ladybug_for_display() {
    let mut ladybug = Ladybug::new();

    let out = run_lines(&mut ladybug, &["position fen rnbqkbnr/pppppppp/8/8/8/8/PPPPPPPP/RNBQKBNR w KQkq - 0 1", "display"]);
    assert_eq!("rnbqkbnr/pppppppp/8/8/8/8/PPPPPPPP/RNBQKBNR w KQkq - 0 1", out[0]);

    let out = run_lines(&mut ladybug, &["position fen r1bqk1nr/ppp1bBpp/3p4/n7/3PP3/1Q3N2/P4PPP/RNB1K2R b KQkq - 0 9", "display"]);
    assert_eq!("r1bqk1nr/ppp1bBpp/3p4/n7/3PP3/1Q3N2/P4PPP/RNB1K2R b KQkq - 0 9", out[0]);
}

#[test]
fn go_perft_answers_only_on_bad_depth() {
    let mut ladybug = Ladybug::new();
    assert!(run_lines(&mut ladybug, &["go perft 3"]).is_empty());
    assert!(run_lines(&mut ladybug, &["go perft +3"]).is_empty());
    assert_eq!(vec!["info string unknown command"], run_lines(&mut ladybug, &["go perft x"]));
    assert_eq!(vec!["info string unknown command"], run_lines(&mut ladybug, &["go perft 18446744073709551616"]));
    assert_eq!(vec!["info string unknown command"], run_lines(&mut ladybug, &["go"]));
    assert_eq!(vec!["info string unknown command"], run_lines(&mut ladybug, &["go perft"]));
    assert_eq!(vec!["info string unknown command"], run_lines(&mut ladybug, &["position"]));
}

#[test]
fn invalid_moves_keep_the_board() {
    let mut ladybug = Ladybug::new();
    let out = run_lines(&mut ladybug, &["position startpos moves e2e4", "position startpos moves e2e4 e7e4", "display"]);
    assert_eq!("info string invalid moves", out[0]);
    assert_eq!("rnbqkbnr/pppppppp/8/8/4P3/8/PPPP1PPP/RNBQKBNR b KQkq e3 0 1", out[1]);
}

#[test]
fn invalid_fen_keeps_the_board() {
    let mut ladybug = Ladybug::new();
    let out = run_lines(&mut ladybug, &["position fen 8/8/8/8 w - - 0 1", "display"]);
    assert_eq!("info string invalid fen", out[0]);
    assert_eq!("rnbqkbnr/pppppppp/8/8/8/8/PPPPPPPP/RNBQKBNR w KQkq - 0 1", out[1]);
}

#[test]
fn quit_is_the_only_stop() {
    let mut ladybug = Ladybug::new();
    for line in ["uci", "isready", "help", "display", "nonsense"] {
        assert!(!ladybug.handle_input(line).quit);
    }
    assert!(ladybug.handle_input("  quit  ").quit);
}
