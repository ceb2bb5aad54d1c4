use passtally::board::{Board, BoardPosition};
use passtally::game::{Action, Game, PasstallyError, Turn};
use passtally::piece::{Piece, PositionedPiece};

#[test]
fn construct_game() {
    let _game = Game::new(2);
}

#[test]
fn decks_hold_the_full_pool() {
    let game = Game::new(3);
    let mut counts = [0u32; 6];
    let mut total = 0u32;
    for i in 0..3 {
        let deck = game.deck(i);
        assert_eq!(deck.len(), 14);
        for piece in deck {
            total += 1;
            match piece {
                Piece::Red => counts[0] += 1,
                Piece::Green => counts[1] += 1,
                Piece::Yellow => counts[2] += 1,
                Piece::Blue => counts[3] += 1,
                Piece::Cyan => counts[4] += 1,
                Piece::Pink => counts[5] += 1,
            }
        }
    }
    assert_eq!(total, 42);
    for c in counts {
        assert_eq!(c, 7);
    }
}

#[test]
fn next_player_follows_rounds() {
    let mut game = Game::new(2);
    assert_eq!(game.next_player(), 0);

    let turn = Turn(
        Action::PlacePiece(PositionedPiece {
            piece: Piece::Pink,
            position: BoardPosition::new(0, 0),
            rotation: 0,
        }),
        Action::PlacePiece(PositionedPiece {
            piece: Piece::Pink,
            position: BoardPosition::new(1, 1),
            rotation: 2,
        }),
    );
    game.play_turn(turn).unwrap();
    assert_eq!(game.round(), 1);
    assert_eq!(game.next_player(), 1);
}

#[test]
fn marker_move_needs_a_marker() {
    let mut game = Game::new(2);
    assert!(matches!(
        game.move_player_marker(0, 1).unwrap_err(),
        PasstallyError::NoPlayerMarker,
    ));
}

#[test]
fn marker_move_needs_a_free_slot() {
    let mut game = Game::new(2);
    game.set_player_marker(3, Some(0));
    game.set_player_marker(4, Some(1));
    assert!(matches!(
        game.move_player_marker(3, 4).unwrap_err(),
        PasstallyError::HasPlayerMarker,
    ));
}

#[test]
fn marker_move_legality_on_a_dense_track() {
    // Markers occupy every slot except 4 (the destination), 5 and 17.
    let mut game = Game::new(2);
    for slot in 0..24u8 {
        if slot != 4 && slot != 5 && slot != 17 {
            game.set_player_marker(slot, Some(slot % 2));
        }
    }

    // From 0 to 4 the arc 1..3 has no empty slot (5 lies outside it), so the
    // move is legal even though the other arc has two empty slots.
    game.move_player_marker(0, 4).unwrap();
    assert_eq!(game.player_marker(0), None);
    assert_eq!(game.player_marker(4), Some(0));
}

#[test]
fn marker_move_too_far() {
    // Empty slots at 5, 7 (between 0 and 10) and at 17, 20 (on the arc the
    // other way around), plus the destination 10: both arcs between 0 and 10
    // contain two empty slots, so the move is too far.
    let mut game = Game::new(2);
    for slot in 0..24u8 {
        if slot != 5 && slot != 7 && slot != 10 && slot != 17 && slot != 20 {
            game.set_player_marker(slot, Some(slot % 2));
        }
    }
    assert!(matches!(
        game.move_player_marker(0, 10).unwrap_err(),
        PasstallyError::TooFar,
    ));

    // Filling one gap of the short arc makes the same move legal.
    game.set_player_marker(7, Some(1));
    game.move_player_marker(0, 10).unwrap();
    assert_eq!(game.player_marker(0), None);
    assert_eq!(game.player_marker(10), Some(0));
}

fn board_cells(board: &Board) -> Vec<(u32, u32)> {
    let mut cells = Vec::new();
    for x in 0..6i8 {
        for y in 0..6i8 {
            let pos = BoardPosition::new(x, y);
            cells.push((board.height(pos), board.tile_id(pos)));
        }
    }
    cells
}

#[test]
fn failed_turn_rolls_everything_back() {
    let mut game = Game::new(2);
    game.set_player_marker(0, Some(0));
    game.set_player_marker(1, Some(1));

    let cells_before = board_cells(game.board());
    let markers_before: Vec<Option<u8>> = (0..24u8).map(|s| game.player_marker(s)).collect();
    let round_before = game.round();

    // The first action succeeds, the second fails: the destination slot is
    // occupied.
    let turn = Turn(
        Action::PlacePiece(PositionedPiece {
            piece: Piece::Cyan,
            position: BoardPosition::new(2, 2),
            rotation: 0,
        }),
        Action::MovePlayerMarker(0, 1),
    );
    assert!(matches!(
        game.play_turn(turn).unwrap_err(),
        PasstallyError::HasPlayerMarker,
    ));

    // Board, markers and round counter are exactly as before the turn.
    assert_eq!(board_cells(game.board()), cells_before);
    let markers_after: Vec<Option<u8>> = (0..24u8).map(|s| game.player_marker(s)).collect();
    assert_eq!(markers_after, markers_before);
    assert_eq!(game.round(), round_before);
}

#[test]
fn successful_turn_commits_both_actions() {
    let mut game = Game::new(4);
    game.set_player_marker(0, Some(0));

    let turn = Turn(
        Action::PlacePiece(PositionedPiece {
            piece: Piece::Yellow,
            position: BoardPosition::new(3, 3),
            rotation: 0,
        }),
        Action::MovePlayerMarker(0, 2),
    );
    game.play_turn(turn).unwrap();

    assert_eq!(game.round(), 1);
    assert_eq!(game.player_marker(0), None);
    assert_eq!(game.player_marker(2), Some(0));
    assert_eq!(game.board().height(BoardPosition::new(3, 3)), 1);
    assert_eq!(game.board().height(BoardPosition::new(4, 3)), 1);
    assert_eq!(game.board().tile_id(BoardPosition::new(3, 3)), 1);
}
