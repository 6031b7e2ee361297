// Collision, rotation and game-over invariants on known positions.

use tetris_silicon::bus::{Cell, InputPins, SystemBus, BOARD_COLS, BOARD_ROWS};
use tetris_silicon::chips::{LogicChip, SpawnControllerChip};
use tetris_silicon::chips::tetrominoes::collides;
use tetris_silicon::motherboard::SiliconMotherboard;

#[test]
fn collision_empty_board_no_collision() {
    let board = [[Cell(0); BOARD_COLS]; BOARD_ROWS];
    // I-piece at spawn position (x=3,y=0) should not collide
    assert!(!collides(3, 0, 0, 0, &board));
}

#[test]
fn collision_left_wall_detected() {
    let board = [[Cell(0); BOARD_COLS]; BOARD_ROWS];
    // I-piece at x=-1 should collide with left wall
    assert!(collides(-1, 0, 0, 0, &board));
}

#[test]
fn collision_floor_detected() {
    let board = [[Cell(0); BOARD_COLS]; BOARD_ROWS];
    // I-piece at bottom should collide with floor
    assert!(collides(3, 19, 0, 0, &board));
}

#[test]
fn collision_blocked_by_locked_cell() {
    let mut board = [[Cell(0); BOARD_COLS]; BOARD_ROWS];
    // Place a locked cell at (3, 1) where I-piece would occupy
    board[1][3] = Cell(1);
    assert!(collides(3, 0, 0, 0, &board));
}

#[test]
fn rotation_o_piece_never_moves() {
    let piece_type = tetris_silicon::bus::PieceType(3); // O piece
    let mut bus = SystemBus::new(1);
    bus.piece_type = piece_type;
    bus.piece_x = 3;
    bus.piece_y = 0;
    bus.piece_rotation = 0;
    bus.wires.rotate_cw = true;

    let pins = InputPins::default();
    let mut mb = SiliconMotherboard::new();
    mb.clock_tick(&pins, &mut bus);

    // O piece should still be at the same position, but rotation may change
    assert_eq!(bus.piece_x, 3, "O piece x should not change");
    assert_eq!(bus.piece_y, 0, "O piece y should not change");
    assert!(!bus.wires.wall_kick_applied, "O piece should not apply wall kicks");
}

#[test]
fn game_over_triggers_on_spawn_collision() {

    let mut bus = tetris_silicon::bus::SystemBus::new(1);
    // Fill the top rows to force a spawn collision
    for y in 0..4 {
        for x in 0..10 {
            bus.board[y][x] = Cell(1);
        }
    }
    // Set wire directly — chip.tick() does NOT reset wires (only clock_tick does)
    bus.wires.should_spawn_next = true;

    let pins = InputPins::default();
    SpawnControllerChip.tick(&pins, &mut bus);

    assert!(
        bus.wires.game_over_triggered,
        "Game over should trigger when spawn position is blocked"
    );
}
