use ladybug::board::color::Color;
use ladybug::board::piece::Piece::{Bishop, King, Knight, Pawn, Queen, Rook};

#[test]
fn color_to_index_returns_correct_index() {
    assert_eq!(0, Color::White.to_index());
    assert_eq!(1, Color::Black.to_index());
}

#[test]
fn piece_to_index_returns_correct_index() {
    assert_eq!(0, Pawn.to_index());
    assert_eq!(1, Knight.to_index());
    assert_eq!(2, Bishop.to_index());
    assert_eq!(3, Rook.to_index());
    assert_eq!(4, Queen.to_index());
    assert_eq!(5, King.to_index());
}

#[test]
fn other_color_flips() {
    assert_eq!(Color::Black, Color::White.other());
    assert_eq!(Color::White, Color::Black.other());
}
