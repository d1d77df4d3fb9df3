use dgt_board::game::GameBoard;
use dgt_board::game::StartPosition;
use dgt_board::game::detect_move;
use dgt_board::game::partition_updates;
use dgt_board::protocol::ChessBoard;
use dgt_board::protocol::ChessMove;
use dgt_board::protocol::RawPiece;

/// The standard initial layout as the device dumps it: White's back rank
/// on squares 0-7, the King's column before the Queen's.
fn normal_dump() -> Vec<u8> {
    let mut data = vec![0u8; 64];
    let white_back = [0x02, 0x03, 0x04, 0x05, 0x06, 0x04, 0x03, 0x02];
    let black_back = [0x08, 0x09, 0x0a, 0x0b, 0x0c, 0x0a, 0x09, 0x08];
    for i in 0..8 {
        data[i] = white_back[i];
        data[8 + i] = 0x01;
        data[48 + i] = 0x07;
        data[56 + i] = black_back[i];
    }
    data
}

fn mirror_dump() -> Vec<u8> {
    let mut data = vec![0u8; 64];
    let black_back = [0x08, 0x09, 0x0a, 0x0c, 0x0b, 0x0a, 0x09, 0x08];
    let white_back = [0x02, 0x03, 0x04, 0x06, 0x05, 0x04, 0x03, 0x02];
    for i in 0..8 {
        data[i] = black_back[i];
        data[8 + i] = 0x07;
        data[48 + i] = 0x01;
        data[56 + i] = white_back[i];
    }
    data
}

fn board_from(data: &[u8]) -> GameBoard {
    GameBoard::new(ChessBoard::new(data).unwrap())
}

#[test]
fn test_normal_start_classifies() {
    let game = board_from(&normal_dump());
    assert_eq!(game.is_starting_position(), StartPosition::Normal);
}

#[test]
fn test_mirror_start_classifies() {
    let game = board_from(&mirror_dump());
    assert_eq!(game.is_starting_position(), StartPosition::Mirror);
}

#[test]
fn test_empty_board_is_no_start() {
    let game = board_from(&vec![0u8; 64]);
    assert_eq!(game.is_starting_position(), StartPosition::NoStart);
}

#[test]
fn test_nonempty_center_is_no_start() {
    let mut data = normal_dump();
    data[30] = 0x01;
    let game = board_from(&data);
    assert_eq!(game.is_starting_position(), StartPosition::NoStart);
}

#[test]
fn test_swapped_royals_are_no_start() {
    // the conventional-chess column order differs from the recorded one
    let mut data = normal_dump();
    data[3] = 0x06;
    data[4] = 0x05;
    let game = board_from(&data);
    assert_eq!(game.is_starting_position(), StartPosition::NoStart);
}

#[test]
fn test_classification_idempotent() {
    let game = board_from(&normal_dump());
    let first = game.is_starting_position();
    let second = game.is_starting_position();
    assert_eq!(first, second);
    let game = board_from(&vec![0u8; 64]);
    assert_eq!(game.is_starting_position(), game.is_starting_position());
}

#[test]
fn test_single_move_leaves_start() {
    // a pawn steps from square 8 into the center: squares 16-47 are no
    // longer all empty, so the classification drops to none
    let mut game = board_from(&normal_dump());
    assert_eq!(game.is_starting_position(), StartPosition::Normal);
    game.apply_move(ChessMove::new(8, RawPiece::Empty));
    game.apply_move(ChessMove::new(16, RawPiece::WhitePawn));
    assert_eq!(game.is_starting_position(), StartPosition::NoStart);
}

#[test]
fn test_apply_move_out_of_range_ignored() {
    let mut game = board_from(&normal_dump());
    game.apply_move(ChessMove::new(64, RawPiece::BlackQueen));
    game.apply_move(ChessMove::new(200, RawPiece::BlackQueen));
    assert_eq!(game.is_starting_position(), StartPosition::Normal);
}

#[test]
fn test_detect_move_unclassified() {
    let moves = [
        ChessMove::new(8, RawPiece::Empty),
        ChessMove::new(16, RawPiece::WhitePawn),
    ];
    assert_eq!(detect_move(&moves), None);
    assert_eq!(detect_move(&[]), None);
}

#[test]
fn test_partition_updates() {
    let moves = [
        ChessMove::new(8, RawPiece::Empty),
        ChessMove::new(16, RawPiece::WhitePawn),
        ChessMove::new(8, RawPiece::WhitePawn),
        ChessMove::new(12, RawPiece::WhiteKing),
        ChessMove::new(12, RawPiece::Empty),
    ];
    let (vacated, occupied) = partition_updates(&moves);
    // square 8 was re-occupied after being emptied; square 12 ended empty
    assert_eq!(vacated, vec![12]);
    assert_eq!(
        occupied,
        vec![
            ChessMove::new(8, RawPiece::WhitePawn),
            ChessMove::new(16, RawPiece::WhitePawn),
        ]
    );
}
