use passtally::piece::PartialPiece::{TopBottom_LeftRight, TopLeft_BottomRight, TopRight_BottomLeft};
use passtally::piece::Side::{Bottom, Left, Right, Top};
use passtally::piece::{PartialPiece, RotatedPartialPiece, Side};

#[test]
fn board_partial_pieces_sanity() {
    for partial_piece in &[
        TopBottom_LeftRight,
        TopLeft_BottomRight,
        TopRight_BottomLeft,
    ] {
        for side in &[Top, Bottom, Left, Right] {
            assert_eq!(partial_piece.pass(partial_piece.pass(*side)), *side);
        }
    }
}

#[test]
fn lib_partial_pieces_sanity() {
    for partial_piece in &[
        TopBottom_LeftRight,
        TopLeft_BottomRight,
        TopRight_BottomLeft,
    ] {
        for side in &[Top, Bottom, Left, Right] {
            assert_eq!(partial_piece.pass(partial_piece.pass(*side)), *side);
        }
    }
}

#[test]
fn rotated_partial_piece_sanity() {
    for partial_piece in &[
        TopBottom_LeftRight,
        TopLeft_BottomRight,
        TopRight_BottomLeft,
    ] {
        for rotation in 0..4 {
            let rotated_partial_piece = RotatedPartialPiece::new(*partial_piece, rotation);

            for side in &[Top, Bottom, Left, Right] {
                println!("Rotation {}", rotation);
                assert_eq!(
                    rotated_partial_piece.pass(rotated_partial_piece.pass(*side)),
                    *side
                );
            }
        }
    }
}

#[test]
fn rotated_partial_piece() {
    for partial_piece in &[
        TopBottom_LeftRight,
        TopLeft_BottomRight,
        TopRight_BottomLeft,
    ] {
        for rotation in 0..4 {
            let rotated_partial_piece = RotatedPartialPiece::new(*partial_piece, rotation);

            for side in &[Top, Bottom, Left, Right] {
                println!("Rotation {}", rotation);
                assert_eq!(
                    rotated_partial_piece.pass(rotated_partial_piece.pass(*side)),
                    *side
                );
            }
        }
    }
}

#[test]
fn side_opposite_and_rotate() {
    assert_eq!(Side::Top.opposite(), Side::Bottom);
    assert_eq!(Side::Bottom.opposite(), Side::Top);
    assert_eq!(Side::Left.opposite(), Side::Right);
    assert_eq!(Side::Right.opposite(), Side::Left);

    assert_eq!(Side::Top.rotate(0), Side::Top);
    assert_eq!(Side::Top.rotate(1), Side::Right);
    assert_eq!(Side::Top.rotate(2), Side::Bottom);
    assert_eq!(Side::Top.rotate(3), Side::Left);
    assert_eq!(Side::Left.rotate(1), Side::Top);
    assert_eq!(Side::Right.rotate(4), Side::Right);
}

#[test]
fn rotated_pass_exact_values() {
    // TopLeft_BottomRight rotated one quarter-turn clockwise behaves as a
    // top-right elbow.
    let rp = RotatedPartialPiece::new(PartialPiece::TopLeft_BottomRight, 1);
    assert_eq!(rp.pass(Side::Top), Side::Right);
    assert_eq!(rp.pass(Side::Right), Side::Top);
    assert_eq!(rp.pass(Side::Bottom), Side::Left);
    assert_eq!(rp.pass(Side::Left), Side::Bottom);
}
