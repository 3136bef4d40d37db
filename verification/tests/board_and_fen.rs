use ladybug::board::Board;
use ladybug::board::FenError;
use ladybug::board::color::Color;
use ladybug::board::piece::Piece;

const START: &str = "rnbqkbnr/pppppppp/8/8/8/8/PPPPPPPP/RNBQKBNR w KQkq - 0 1";

fn fen_after(fen: &str, moves: &[&str]) -> String {
    let mut board = Board::from_fen(fen).unwrap();
    for m in moves {
        let ply = ladybug::move_gen::ply::Ply::from_string(m, board.position).expect("legal move");
        board = board.make_move(ply);
    }
    board.to_fen()
}

#[test]
fn default_board_is_start_position() {
    let board = Board::default();
    assert_eq!(START, board.to_fen());
    assert_eq!(Color::White, board.position.color_to_move);
    assert_eq!(Some((Color::White, Piece::King)), board.position.pieces[4]);
    assert_eq!(Some((Color::Black, Piece::Queen)), board.position.pieces[59]);
}

#[test]
fn fen_reads_back_as_written() {
    for fen in [
        START,
        "r3k2r/p1ppqpb1/bn2pnp1/3PN3/1p2P3/2N2Q1p/PPPBBPPP/R3K2R w KQkq - 0 1",
        "8/8/8/8/8/8/8/8 b - - 99 4294967295",
        "4k3/8/8/3pP3/8/8/8/4K3 w - d6 0 12",
        "r3k2r/8/8/8/8/8/8/R3K2R b Kq - 3 40",
    ] {
        let board = Board::from_fen(fen).unwrap();
        assert_eq!(fen, board.to_fen());
        let again = Board::from_fen(&board.to_fen()).unwrap();
        assert_eq!(fen, again.to_fen());
    }
}

#[test]
fn fen_with_extra_spaces_is_read() {
    let board = Board::from_fen("  rnbqkbnr/pppppppp/8/8/8/8/PPPPPPPP/RNBQKBNR   w KQkq -  0 1 ").unwrap();
    assert_eq!(START, board.to_fen());
}

#[test]
fn invalid_fen_is_refused() {
    for fen in [
        "",
        "this is invalid fen",
        "rnbqkbnr/pppppppp/8/8/8/8/PPPPPPPP/RNBQKBNR w KQkq - 0",
        "rnbqkbnr/pppppppp/8/8/8/8/PPPPPPPP/RNBQKBNR w KQkq - 0 1 extra",
        "rnbqkbnr/pppppppp/8/8/8/8/PPPPPPPP w KQkq - 0 1",
        "rnbqkbnr/pppppppp/9/8/8/8/PPPPPPPP/RNBQKBNR w KQkq - 0 1",
        "rnbqkbnr/ppppppppp/8/8/8/8/PPPPPPPP/RNBQKBNR w KQkq - 0 1",
        "rnbqkbnr/pppppppp/7/8/8/8/PPPPPPPP/RNBQKBNR w KQkq - 0 1",
        "rnbqkbnx/pppppppp/8/8/8/8/PPPPPPPP/RNBQKBNR w KQkq - 0 1",
        "rnbqkbnr/pppppppp/8/8/8/8/PPPPPPPP/RNBQKBNR x KQkq - 0 1",
        "rnbqkbnr/pppppppp/8/8/8/8/PPPPPPPP/RNBQKBNR w KQxq - 0 1",
        "rnbqkbnr/pppppppp/8/8/8/8/PPPPPPPP/RNBQKBNR w KQkq e9 0 1",
        "rnbqkbnr/pppppppp/8/8/8/8/PPPPPPPP/RNBQKBNR w KQkq - a 1",
        "rnbqkbnr/pppppppp/8/8/8/8/PPPPPPPP/RNBQKBNR w KQkq - 0 4294967296",
    ] {
        assert!(matches!(Board::from_fen(fen), Err(FenError)), "accepted {:?}", fen);
    }
}

#[test]
fn moves_update_the_fen() {
    assert_eq!(
        "r1bqkbnr/pp1ppppp/2n5/2p5/3PP3/2P5/PP3PPP/RNBQKBNR b KQkq d3 0 3",
        fen_after(START, &["e2e4", "c7c5", "c2c3", "b8c6", "d2d4"])
    );
    assert_eq!(
        "rnbqkbnr/pppppppp/8/8/8/5N2/PPPPPPPP/RNBQKB1R b KQkq - 1 1",
        fen_after(START, &["g1f3"])
    );
}

#[test]
fn castling_moves_the_rook_and_clears_rights() {
    let fen = "r3k2r/8/8/8/8/8/8/R3K2R w KQkq - 0 1";
    assert_eq!("r3k2r/8/8/8/8/8/8/R4RK1 b kq - 1 1", fen_after(fen, &["e1g1"]));
    assert_eq!("2kr3r/8/8/8/8/8/8/R4RK1 w - - 2 2", fen_after(fen, &["e1g1", "e8c8"]));
    assert_eq!("r3k2r/8/8/8/8/8/8/1R2K2R b Kkq - 1 1", fen_after(fen, &["a1b1"]));
}

#[test]
fn en_passant_takes_the_pawn() {
    let fen = "rnbqkbnr/ppp1pppp/8/8/3pP3/8/PPPP1PPP/RNBQKBNR b KQkq e3 0 3";
    assert_eq!("rnbqkbnr/ppp1pppp/8/8/8/4p3/PPPP1PPP/RNBQKBNR w KQkq - 0 4", fen_after(fen, &["d4e3"]));
}

#[test]
fn promotion_names_the_new_piece() {
    let fen = "8/P6k/8/8/8/8/8/K7 w - - 0 1";
    assert_eq!("N7/7k/8/8/8/8/8/K7 b - - 0 1", fen_after(fen, &["a7a8n"]));
    let board = Board::from_fen(fen).unwrap();
    assert!(ladybug::move_gen::ply::Ply::from_string("a7a8", board.position).is_none());
    assert!(ladybug::move_gen::ply::Ply::from_string("a7a8k", board.position).is_none());
}
