use ladybug::board::Board;
use ladybug::board::color::Color;
use ladybug::board::piece::Piece;
use ladybug::move_gen::generate::generates_moves;
use ladybug::move_gen::ply::Ply;

fn moves_of(fen: &str) -> Vec<String> {
    let board = Board::from_fen(fen).unwrap();
    generates_moves(board.position).iter().map(|m| m.to_uci_string()).collect()
}

#[test]
fn start_position_has_twenty_moves() {
    let moves = moves_of("rnbqkbnr/pppppppp/8/8/8/8/PPPPPPPP/RNBQKBNR w KQkq - 0 1");
    assert_eq!(20, moves.len());
    assert_eq!("b1a3", moves[0]);
    assert!(moves.contains(&"e2e4".to_string()));
    assert!(moves.contains(&"g1f3".to_string()));
}

#[test]
fn kiwipete_has_forty_eight_moves() {
    let moves = moves_of("r3k2r/p1ppqpb1/bn2pnp1/3PN3/1p2P3/2N2Q1p/PPPBBPPP/R3K2R w KQkq - 0 1");
    assert_eq!(48, moves.len());
    assert!(moves.contains(&"e1g1".to_string()));
    assert!(moves.contains(&"e1c1".to_string()));
}

#[test]
fn promotions_are_listed_for_each_piece() {
    let moves = moves_of("8/P6k/8/8/8/8/8/K7 w - - 0 1");
    for m in ["a7a8q", "a7a8r", "a7a8b", "a7a8n"] {
        assert!(moves.contains(&m.to_string()), "{}", m);
    }
    assert!(!moves.contains(&"a7a8".to_string()));
}

#[test]
fn pinned_piece_may_not_leave_the_line() {
    // the bishop on e2 is pinned by the rook on e8
    let moves = moves_of("4r2k/8/8/8/8/8/4B3/4K3 w - - 0 1");
    assert!(moves.iter().all(|m| !m.starts_with("e2")));
}

#[test]
fn castling_through_attack_is_refused() {
    // the rook on f8 attacks f1
    let moves = moves_of("5r1k/8/8/8/8/8/8/4K2R w K - 0 1");
    assert!(!moves.contains(&"e1g1".to_string()));
    let moves = moves_of("7k/8/8/8/8/8/8/4K2R w K - 0 1");
    assert!(moves.contains(&"e1g1".to_string()));
}

#[test]
fn mate_and_stalemate_have_no_moves() {
    let mate = Board::from_fen("k7/1Q6/1K6/8/8/8/8/8 b - - 0 1").unwrap();
    assert!(generates_moves(mate.position).is_empty());
    assert!(mate.position.is_in_check(Color::Black));
    let stalemate = Board::from_fen("k7/8/1Q6/8/8/8/8/7K b - - 0 1").unwrap();
    assert!(generates_moves(stalemate.position).is_empty());
    assert!(!stalemate.position.is_in_check(Color::Black));
}

#[test]
fn ply_records_piece_and_capture() {
    let board = Board::from_fen("r1bqkbnr/pp1ppppp/2n5/2p5/3PP3/2P5/PP3PPP/RNBQKBNR b KQkq d3 0 3").unwrap();
    let ply = Ply::from_string("c5d4", board.position).unwrap();
    assert_eq!(34, ply.source);
    assert_eq!(27, ply.destination);
    assert_eq!(Piece::Pawn, ply.piece);
    assert_eq!(Some(Piece::Pawn), ply.captured_piece);
    assert_eq!(None, ply.promotion_piece);
    assert_eq!("c5d4", ply.to_uci_string());
    assert!(Ply::from_string("c5c4x", board.position).is_none());
    assert!(Ply::from_string("c5", board.position).is_none());
    assert!(Ply::from_string("e2e4", board.position).is_none());
}

#[test]
fn move_text_reads_back_as_the_same_ply() {
    for fen in [
        "rnbqkbnr/pppppppp/8/8/8/8/PPPPPPPP/RNBQKBNR w KQkq - 0 1",
        "r3k2r/p1ppqpb1/bn2pnp1/3PN3/1p2P3/2N2Q1p/PPPBBPPP/R3K2R w KQkq - 0 1",
        "8/P6k/8/8/8/8/8/K7 w - - 0 1",
    ] {
        let board = Board::from_fen(fen).unwrap();
        for m in generates_moves(board.position) {
            assert_eq!(Some(m), Ply::from_string(&m.to_uci_string(), board.position));
        }
    }
}

#[test]
fn legal_moves_never_leave_the_king_attacked() {
    let board = Board::from_fen("r3k2r/p1ppqpb1/bn2pnp1/3PN3/1p2P3/2N2Q1p/PPPBBPPP/R3K2R w KQkq - 0 1").unwrap();
    for m in generates_moves(board.position) {
        let after = board.position.make_move(m);
        assert!(!after.is_in_check(Color::White));
        assert_eq!(Color::Black, after.color_to_move);
    }
}
