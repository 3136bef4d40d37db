use ladybug::board::Board;
use ladybug::evaluation::{evaluate, NEGATIVE_INFINITY};
use ladybug::lookup::lookup_table::LookupTable;
use ladybug::board::color::Color;
use ladybug::search::Search;

#[test]
fn lookup_tables_hold_attacks() {
    let mut table = LookupTable::default();
    assert!(!table.knight_attacks(0).contains(10));
    table.initialize_tables();
    let knight: Vec<u8> = (0..64).filter(|&t| table.knight_attacks(0).contains(t)).collect();
    assert_eq!(vec![10, 17], knight);
    let king: Vec<u8> = (0..64).filter(|&t| table.king_attacks(0).contains(t)).collect();
    assert_eq!(vec![1, 8, 9], king);
    let white_pawn: Vec<u8> = (0..64).filter(|&t| table.pawn_attacks(Color::White, 12).contains(t)).collect();
    assert_eq!(vec![19, 21], white_pawn);
    let black_pawn: Vec<u8> = (0..64).filter(|&t| table.pawn_attacks(Color::Black, 52).contains(t)).collect();
    assert_eq!(vec![43, 45], black_pawn);
    let corner: Vec<u8> = (0..64).filter(|&t| table.pawn_attacks(Color::White, 15).contains(t)).collect();
    assert_eq!(vec![22], corner);
    // symmetric tables
    for s in 0..64u8 {
        for t in 0..64u8 {
            assert_eq!(table.knight_attacks(s).contains(t), table.knight_attacks(t).contains(s));
            assert_eq!(table.king_attacks(s).contains(t), table.king_attacks(t).contains(s));
            assert_eq!(
                table.pawn_attacks(Color::White, s).contains(t),
                table.pawn_attacks(Color::Black, t).contains(s)
            );
        }
    }
}

#[test]
fn evaluation_counts_material_for_side_to_move() {
    assert_eq!(0, evaluate(Board::default().position));
    let board = Board::from_fen("k7/8/1K6/8/8/8/8/7Q w - - 0 1").unwrap();
    assert_eq!(900, evaluate(board.position));
    let board = Board::from_fen("k7/8/1K6/8/8/8/8/7Q b - - 0 1").unwrap();
    assert_eq!(-900, evaluate(board.position));
}

#[test]
fn negamax_scores_mate_and_stalemate() {
    let mut search = Search::new();
    let mate = Board::from_fen("k7/1Q6/1K6/8/8/8/8/8 b - - 0 1").unwrap();
    assert_eq!(NEGATIVE_INFINITY + 2 * 5000, search.negamax(mate.position, 3, 2));
    let stalemate = Board::from_fen("k7/8/1Q6/8/8/8/8/7K b - - 0 1").unwrap();
    assert_eq!(0, search.negamax(stalemate.position, 3, 0));
    assert!(search.best_move.is_none());
}

#[test]
fn negamax_at_depth_zero_evaluates() {
    let mut search = Search::new();
    let board = Board::from_fen("k7/8/1K6/8/8/8/8/7Q w - - 0 1").unwrap();
    assert_eq!(900, search.negamax(board.position, 0, 0));
    assert!(search.best_move.is_none());
}

#[test]
fn negamax_finds_mate_in_one() {
    let mut search = Search::new();
    let board = Board::from_fen("k7/8/1K6/8/8/8/8/7Q w - - 0 1").unwrap();
    let score = search.negamax(board.position, 1, 0);
    assert_eq!(-(NEGATIVE_INFINITY + 5000), score);
    assert_eq!("h1b7", search.best_move.unwrap().to_uci_string());
}

#[test]
fn iterative_search_returns_best_move() {
    let mut search = Search::new();
    let board = Board::from_fen("k7/8/1K6/8/8/8/8/7Q w - - 0 1").unwrap();
    let best = search.iterative_search(board.position, 2);
    assert_eq!("h1b7", best.to_uci_string());
    assert!(search.best_move.is_none());
    let only = Board::from_fen("7k/8/8/8/8/8/8/K7 w - - 0 1").unwrap();
    let best = search.iterative_search(only.position, 0);
    assert_eq!("a1b1", best.to_uci_string());
}

#[test]
fn search_takes_hanging_queen() {
    let mut search = Search::new();
    let board = Board::from_fen("4k3/8/8/3q4/8/8/3R4/4K3 w - - 0 1").unwrap();
    let best = search.iterative_search(board.position, 2);
    assert_eq!("d2d5", best.to_uci_string());
}

#[test]
fn later_mate_costs_less() {
    let mut search = Search::new();
    let mate = Board::from_fen("k7/1Q6/1K6/8/8/8/8/8 b - - 0 1").unwrap();
    let sooner = search.negamax(mate.position, 1, 1);
    let later = search.negamax(mate.position, 1, 2);
    assert!(sooner < later);
    assert_eq!(NEGATIVE_INFINITY + 5000, sooner);
}
