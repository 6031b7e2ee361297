// Scenario tests of the library's chips, pipeline, backend, input sampling and view logic.

use tetris_silicon::backends::cpu::execute_layers_cpu;
use tetris_silicon::backends::routing::chip_mutates_board;
use tetris_silicon::backends::{chip_id, chip_name, BackendKind, BackendRuntime, ChipId};
use tetris_silicon::bus::{
    gravity_interval_ns, Cell, GamePhase, InputPins, PieceType, SystemBus, BOARD_COLS,
    BOARD_ROWS, DAS_DELAY_NS, DAS_REPEAT_NS, FRAME_NS, LOCK_DELAY_MAX_NS,
};
use tetris_silicon::chips::spawn_controller::next_rand;
use tetris_silicon::chips::tetrominoes::{collides, ghost_y, TETROMINOES};
use tetris_silicon::chips::{
    Chip, CollisionDetectorChip, DasTimerChip, GhostComputerChip, GravityTimerChip,
    HoldControllerChip, InputDecoderChip, LevelCalculatorChip, LineClearCommitterChip,
    LineClearDetectorChip, LockDelayTimerChip, LogicChip, MovementChip, PieceLockerChip,
    RotationChip, ScoreKeeperChip, SpawnControllerChip,
};
use tetris_silicon::laws::standard_tick_ready;
use tetris_silicon::motherboard::SiliconMotherboard;
use tetris_silicon::terminal::{apply_event, idle_sample, InputEvent, KeyInput, SampledInput};
use tetris_silicon::tui::{
    cell_view, dim, is_cell_active, is_cell_ghost, piece_color, preview_filled, CellView, Colour,
};

fn quiet_pins(delta: u64) -> InputPins {
    InputPins { frame_delta_ns: delta, ..InputPins::default() }
}

fn occupied_cells(bus: &SystemBus) -> usize {
    bus.board.iter().map(|row| row.iter().filter(|c| c.0 != 0).count()).sum()
}

#[test]
fn gravity_interval_follows_table() {
    assert_eq!(gravity_interval_ns(1), 48 * FRAME_NS);
    assert_eq!(gravity_interval_ns(0), 48 * FRAME_NS);
    assert_eq!(gravity_interval_ns(10), 6 * FRAME_NS);
    assert_eq!(gravity_interval_ns(20), 2 * FRAME_NS);
    assert_eq!(gravity_interval_ns(21), FRAME_NS);
    assert_eq!(gravity_interval_ns(255), FRAME_NS);
}

#[test]
fn new_bus_is_fresh_game() {
    let bus = SystemBus::new(7);
    assert_eq!(bus.level, 7);
    assert_eq!(bus.gravity_interval_ns, 18 * FRAME_NS);
    assert_eq!(bus.piece_type, PieceType(0));
    assert_eq!(bus.next_piece_type, PieceType(1));
    assert_eq!((bus.piece_x, bus.piece_y, bus.piece_rotation), (3, 0, 0));
    assert_eq!(bus.prng_state, 0xDEADBEEF);
    assert_eq!(bus.das_delay_ns, DAS_DELAY_NS);
    assert_eq!(bus.das_repeat_ns, DAS_REPEAT_NS);
    assert_eq!(bus.lock_delay_max_ns, LOCK_DELAY_MAX_NS);
    assert_eq!(occupied_cells(&bus), 0);
    assert_eq!(bus.game_phase, GamePhase::Playing);
    assert!(bus.hold_piece_type.is_none());
}

#[test]
fn gravity_timer_fires_and_keeps_remainder() {
    let mut bus = SystemBus::new(1);
    let interval = bus.gravity_interval_ns;
    bus.gravity_accumulator_ns = interval - 5;
    GravityTimerChip.tick(&quiet_pins(2 * interval + 10), &mut bus);
    assert!(bus.wires.gravity_tick);
    assert_eq!(bus.wires.dy, 1);
    assert_eq!(bus.gravity_accumulator_ns, 5);

    let mut quiet = SystemBus::new(1);
    GravityTimerChip.tick(&quiet_pins(10), &mut quiet);
    assert!(!quiet.wires.gravity_tick);
    assert_eq!(quiet.gravity_accumulator_ns, 10);

    let mut saturated = SystemBus::new(1);
    saturated.gravity_accumulator_ns = u64::MAX - 1;
    GravityTimerChip.tick(&quiet_pins(10), &mut saturated);
    assert_eq!(saturated.gravity_accumulator_ns, u64::MAX % interval);
}

#[test]
fn das_press_repeat_release() {
    let mut bus = SystemBus::new(1);
    let press = InputPins { key_left: true, ..quiet_pins(FRAME_NS) };
    DasTimerChip.tick(&press, &mut bus);
    assert!(bus.wires.das_tick);
    assert_eq!(bus.wires.dx, -1);
    assert!(bus.das_active);
    assert_eq!(bus.das_direction, -1);

    // Holding: no repeat before the delay, then one per repeat period.
    bus.prev_key_left = true;
    bus.wires.das_tick = false;
    bus.wires.dx = 0;
    let hold = InputPins { key_left: true, ..quiet_pins(DAS_DELAY_NS - 1) };
    DasTimerChip.tick(&hold, &mut bus);
    assert!(!bus.wires.das_tick);
    let hold_more = InputPins { key_left: true, ..quiet_pins(DAS_REPEAT_NS + 1) };
    DasTimerChip.tick(&hold_more, &mut bus);
    assert!(bus.wires.das_tick);
    assert_eq!(bus.wires.dx, -1);
    assert_eq!(bus.das_last_repeat_index, 1);

    // Releasing disarms.
    let release = quiet_pins(FRAME_NS);
    DasTimerChip.tick(&release, &mut bus);
    assert!(!bus.das_active);
    assert_eq!(bus.das_direction, 0);
    assert_eq!(bus.wires.dx, 0);

    // Left wins when both arrows are newly pressed.
    let mut both = SystemBus::new(1);
    let both_pins = InputPins { key_left: true, key_right: true, ..quiet_pins(FRAME_NS) };
    DasTimerChip.tick(&both_pins, &mut both);
    assert_eq!(both.wires.dx, -1);
}

#[test]
fn lock_delay_expires_when_resting() {
    let mut bus = SystemBus::new(1);
    bus.wires.collision_down = true;
    LockDelayTimerChip.tick(&quiet_pins(LOCK_DELAY_MAX_NS - 1), &mut bus);
    assert!(bus.wires.lock_delay_active);
    assert!(!bus.wires.lock_delay_expired);
    LockDelayTimerChip.tick(&quiet_pins(1), &mut bus);
    assert!(bus.wires.lock_delay_expired);
    assert_eq!(bus.lock_delay_accumulator_ns, LOCK_DELAY_MAX_NS);

    // A horizontal move while the piece can still fall resets the timer.
    bus.wires.collision_down = false;
    bus.wires.dx = 1;
    LockDelayTimerChip.tick(&quiet_pins(5), &mut bus);
    assert_eq!(bus.lock_delay_accumulator_ns, 0);
    assert!(!bus.wires.lock_delay_expired);
}

#[test]
fn collision_detector_reports_both_probes() {
    let mut bus = SystemBus::new(1);
    bus.piece_y = 18; // I piece, row offset 1: blocks on row 19
    CollisionDetectorChip.tick(&InputPins::default(), &mut bus);
    assert!(!bus.wires.collision_any);
    assert!(bus.wires.collision_down);
}

#[test]
fn movement_shifts_drops_and_hard_drops() {
    let mut bus = SystemBus::new(1);
    bus.wires.dx = 1;
    bus.wires.gravity_tick = true;
    MovementChip.tick(&InputPins::default(), &mut bus);
    assert_eq!((bus.piece_x, bus.piece_y), (4, 1));
    assert!(bus.wires.render_dirty);

    // Blocked to the left at the wall.
    let mut wall = SystemBus::new(1);
    wall.piece_x = 0;
    wall.wires.dx = -1;
    MovementChip.tick(&InputPins::default(), &mut wall);
    assert_eq!(wall.piece_x, 0);

    // Hard drop lands the I piece on the floor (anchor row 18) and locks.
    let mut drop = SystemBus::new(1);
    drop.wires.hard_drop_requested = true;
    MovementChip.tick(&InputPins::default(), &mut drop);
    assert_eq!(drop.piece_y, 18);
    assert!(drop.wires.piece_locked);
}

#[test]
fn rotation_kicks_off_the_wall() {
    // T piece in rotation 1 against the left wall: turning clockwise needs a kick.
    let mut bus = SystemBus::new(1);
    bus.piece_type = PieceType(5);
    bus.piece_rotation = 1;
    bus.piece_x = -1;
    bus.piece_y = 5;
    bus.wires.rotate_cw = true;
    RotationChip.tick(&InputPins::default(), &mut bus);
    assert_eq!(bus.piece_rotation, 2);
    assert_eq!(bus.piece_x, 0);
    assert!(bus.wires.wall_kick_applied);

    // Counter-clockwise from spawn in the open: no kick needed.
    let mut open = SystemBus::new(1);
    open.piece_type = PieceType(5);
    open.piece_y = 5;
    open.wires.rotate_ccw = true;
    RotationChip.tick(&InputPins::default(), &mut open);
    assert_eq!(open.piece_rotation, 3);
    assert_eq!((open.piece_x, open.piece_y), (3, 5));
    assert!(!open.wires.wall_kick_applied);
}

#[test]
fn piece_locker_paints_piece_and_requests_spawn() {
    let mut bus = SystemBus::new(1);
    bus.piece_type = PieceType(3); // O
    bus.piece_y = 18;
    bus.wires.lock_delay_expired = true;
    PieceLockerChip.tick(&InputPins::default(), &mut bus);
    assert_eq!(bus.board[18][4], Cell(4));
    assert_eq!(bus.board[18][5], Cell(4));
    assert_eq!(bus.board[19][4], Cell(4));
    assert_eq!(bus.board[19][5], Cell(4));
    assert_eq!(occupied_cells(&bus), 4);
    assert!(bus.wires.piece_locked && bus.wires.should_spawn_next);
    assert!(!bus.wires.game_over_triggered);
}

#[test]
fn piece_locker_off_board_raises_game_over() {
    // O piece whose top row sits above the playfield: the first block is off the board.
    let mut bus = SystemBus::new(1);
    bus.piece_type = PieceType(3);
    bus.piece_y = -1;
    bus.wires.piece_locked = true;
    PieceLockerChip.tick(&InputPins::default(), &mut bus);
    assert!(bus.wires.game_over_triggered);
    assert!(!bus.wires.should_spawn_next);
    assert_eq!(occupied_cells(&bus), 0);
}

#[test]
fn line_clear_removes_separated_rows() {
    let mut bus = SystemBus::new(3);
    for x in 0..BOARD_COLS {
        bus.board[19][x] = Cell(2);
        bus.board[17][x] = Cell(3);
    }
    bus.board[18][0] = Cell(5);
    bus.board[16][9] = Cell(6);
    let pins = InputPins::default();
    LineClearDetectorChip.tick(&pins, &mut bus);
    assert_eq!(bus.wires.full_row_mask, (1 << 19) | (1 << 17));
    assert_eq!(bus.wires.lines_cleared_this_tick, 2);
    LineClearCommitterChip.tick(&pins, &mut bus);
    assert_eq!(bus.board[19][0], Cell(5));
    assert_eq!(bus.board[18][9], Cell(6));
    assert_eq!(occupied_cells(&bus), 2);
    ScoreKeeperChip.tick(&pins, &mut bus);
    assert_eq!(bus.score, 100 * 4);
    assert_eq!(bus.lines_cleared, 2);
}

#[test]
fn score_caps_at_four_line_points() {
    let mut bus = SystemBus::new(2);
    bus.wires.lines_cleared_this_tick = 6;
    ScoreKeeperChip.tick(&InputPins::default(), &mut bus);
    assert_eq!(bus.score, 1200 * 3);
    assert_eq!(bus.lines_cleared, 6);
}

#[test]
fn level_follows_lines() {
    let mut bus = SystemBus::new(1);
    bus.lines_cleared = 25;
    LevelCalculatorChip.tick(&InputPins::default(), &mut bus);
    assert_eq!(bus.level, 3);
    assert_eq!(bus.gravity_interval_ns, gravity_interval_ns(3));
}

#[test]
fn hold_swaps_once_per_spawn() {
    let mut bus = SystemBus::new(1);
    bus.piece_type = PieceType(5);
    bus.piece_x = 6;
    bus.piece_y = 9;
    bus.wires.hold_requested = true;
    HoldControllerChip.tick(&InputPins::default(), &mut bus);
    assert_eq!(bus.hold_piece_type, Some(PieceType(5)));
    assert_eq!(bus.piece_type, PieceType(1));
    let state = 0xDEADBEEFu32;
    let drawn = (state.wrapping_mul(1664525).wrapping_add(1013904223) >> 16) as u8 % 7;
    assert_eq!(bus.next_piece_type, PieceType(drawn));
    assert_eq!(bus.prng_state, state);
    assert!(bus.hold_used);
    assert_eq!((bus.piece_x, bus.piece_y, bus.piece_rotation), (3, 0, 0));

    // A second hold in the same spawn does nothing.
    bus.piece_x = 7;
    HoldControllerChip.tick(&InputPins::default(), &mut bus);
    assert_eq!(bus.piece_x, 7);
    assert_eq!(bus.hold_piece_type, Some(PieceType(5)));

    // After the hold unlocks, the held piece comes back.
    bus.hold_used = false;
    HoldControllerChip.tick(&InputPins::default(), &mut bus);
    assert_eq!(bus.piece_type, PieceType(5));
    assert_eq!(bus.hold_piece_type, Some(PieceType(1)));
}

#[test]
fn spawn_draws_from_generator() {
    let mut state = 0xDEADBEEFu32;
    let r = next_rand(&mut state);
    let expected_state = 0xDEADBEEFu32.wrapping_mul(1664525).wrapping_add(1013904223);
    assert_eq!(state, expected_state);
    assert_eq!(r, ((expected_state >> 16) % 7) as u8);

    let mut bus = SystemBus::new(1);
    bus.piece_x = 5;
    bus.hold_used = true;
    bus.wires.should_spawn_next = true;
    SpawnControllerChip.tick(&InputPins::default(), &mut bus);
    assert_eq!(bus.piece_type, PieceType(1));
    assert_eq!(bus.next_piece_type, PieceType(r));
    assert_eq!(bus.prng_state, expected_state);
    assert!(!bus.hold_used);
    assert!(!bus.wires.should_spawn_next);
    assert!(!bus.wires.game_over_triggered);
}

#[test]
fn ghost_marks_landing_row() {
    let mut bus = SystemBus::new(1);
    bus.board[10][4] = Cell(7);
    GhostComputerChip.tick(&InputPins::default(), &mut bus);
    assert_eq!(bus.ghost_x, 3);
    assert_eq!(bus.ghost_y, 8);
    assert_eq!(ghost_y(3, 0, 0, 0, &bus.board), 8);
    assert!(collides(3, 9, 0, 0, &bus.board));
    // A piece already below the floor stays where it is.
    assert_eq!(ghost_y(3, 60, 0, 0, &bus.board), 60);
    assert_eq!(ghost_y(120, 100, 0, 0, &bus.board), 100);
}

#[test]
fn collides_handles_far_anchors() {
    let board = [[Cell(0); BOARD_COLS]; BOARD_ROWS];
    assert!(collides(127, 127, 0, 0, &board));
    assert!(collides(-128, -128, 6, 3, &board));
    assert!(!collides(-2, 0, 0, 1, &board)); // I vertical, column offset 2
}

#[test]
fn input_decoder_turns_press_edges_into_wires() {
    let mut bus = SystemBus::new(1);
    bus.score = 77;
    let before = bus;
    let pins = InputPins {
        key_space: true,
        key_x: true,
        key_z: true,
        key_c: true,
        key_enter: true,
        key_down: true,
        ..InputPins::default()
    };
    InputDecoderChip.tick(&pins, &mut bus);
    assert_eq!(bus.score, 77);
    assert_eq!(bus.board, before.board);
    assert!(bus.wires.hard_drop_requested);
    assert!(bus.wires.rotate_cw);
    assert!(bus.wires.rotate_ccw);
    assert!(bus.wires.hold_requested);
    assert!(bus.wires.pause_requested);
    assert_eq!(bus.wires.dy, 1);

    // Keys already held last tick raise nothing but the soft drop.
    let mut held = SystemBus::new(1);
    held.prev_key_space = true;
    held.prev_key_x = true;
    held.prev_key_up = true;
    held.prev_key_z = true;
    held.prev_key_c = true;
    held.prev_key_enter = true;
    held.prev_key_down = true;
    let pins = InputPins { key_up: true, ..pins };
    InputDecoderChip.tick(&pins, &mut held);
    assert!(!held.wires.hard_drop_requested && !held.wires.rotate_cw && !held.wires.rotate_ccw);
    assert!(!held.wires.hold_requested && !held.wires.pause_requested);
    assert_eq!(held.wires.dy, 1);

    // Up alone also rotates clockwise.
    let mut up = SystemBus::new(1);
    InputDecoderChip.tick(&InputPins { key_up: true, ..InputPins::default() }, &mut up);
    assert!(up.wires.rotate_cw && !up.wires.rotate_ccw);
    assert_eq!(up.wires.dy, 0);
}

#[test]
fn lock_above_the_board_ends_the_game() {
    let mut bus = SystemBus::new(1);
    bus.piece_y = -1;
    bus.wires.piece_locked = true;
    PieceLockerChip.tick(&InputPins::default(), &mut bus);
    assert!(bus.wires.game_over_triggered);
    assert!(!bus.wires.should_spawn_next);
    assert_eq!(occupied_cells(&bus), 0);
}

#[test]
fn blocked_spawn_drops_the_request() {
    let mut mb = SiliconMotherboard::new();
    let mut bus = SystemBus::new(1);
    bus.piece_y = 18;
    bus.lock_delay_accumulator_ns = LOCK_DELAY_MAX_NS;
    bus.board[0][3] = Cell(1);
    mb.clock_tick(&InputPins::default(), &mut bus);
    for x in 3..7 {
        assert_eq!(bus.board[19][x], Cell(1));
    }
    assert_eq!(bus.game_phase, GamePhase::GameOver);
    assert!(!bus.wires.should_spawn_next);
}

#[test]
fn motherboard_layers_and_install() {
    let mut mb = SiliconMotherboard::new();
    assert_eq!(mb.layers.len(), 4);
    assert_eq!(mb.chip_count(), 15);
    let names: Vec<&str> = mb.layers[2].iter().map(chip_name).collect();
    assert_eq!(
        names,
        vec!["PieceLocker", "HoldController", "LineClearDetector", "LineClearCommitter", "ScoreKeeper", "LevelCalculator", "SpawnController"]
    );
    mb.install_chip(3, Chip::GhostComputer(GhostComputerChip));
    assert_eq!(mb.chip_count(), 16);
    assert_eq!(mb.layers[3].len(), 2);
    mb.install_chip(9, Chip::ScoreKeeper(ScoreKeeperChip));
    assert_eq!(mb.chip_count(), 16);
}

#[test]
fn clock_tick_latches_and_counts() {
    let mut bus = SystemBus::new(1);
    let mut mb = SiliconMotherboard::new();
    let pins = InputPins { key_left: true, key_z: true, ..quiet_pins(FRAME_NS) };
    mb.clock_tick(&pins, &mut bus);
    assert!(bus.prev_key_left && bus.prev_key_z && !bus.prev_key_right);
    assert_eq!(bus.tick_count, 1);
    assert_eq!(bus.piece_x, 2); // moved left by the DAS press
    assert!(bus.ghost_y >= bus.piece_y);

    bus.tick_count = u64::MAX;
    mb.clock_tick(&quiet_pins(FRAME_NS), &mut bus);
    assert_eq!(bus.tick_count, 0);
}

#[test]
fn game_over_latches_and_stays() {
    let mut bus = SystemBus::new(1);
    bus.game_phase = GamePhase::GameOver;
    let mut mb = SiliconMotherboard::new();
    for _ in 0..50 {
        mb.clock_tick(&quiet_pins(FRAME_NS), &mut bus);
        assert_eq!(bus.game_phase, GamePhase::GameOver);
    }

    // Blocked spawn through the full pipeline ends the game.
    let mut blocked = SystemBus::new(1);
    for y in 0..4 {
        for x in 0..BOARD_COLS - 1 {
            blocked.board[y][x] = Cell(2);
        }
    }
    blocked.piece_y = 18;
    blocked.piece_type = PieceType(3);
    blocked.lock_delay_accumulator_ns = LOCK_DELAY_MAX_NS;
    mb.clock_tick(&quiet_pins(FRAME_NS), &mut blocked);
    assert_eq!(blocked.game_phase, GamePhase::GameOver);
}

#[test]
fn score_and_cells_stay_sane_over_long_play() {
    let mut bus = SystemBus::new(1);
    let mut mb = SiliconMotherboard::new();
    let mut rng: u64 = 99;
    for _ in 0..5000 {
        rng = rng.wrapping_mul(6364136223846793005).wrapping_add(1442695040888963407);
        let pins = InputPins {
            frame_delta_ns: FRAME_NS * ((rng >> 60) + 1),
            key_left: (rng >> 10) & 1 == 1,
            key_right: (rng >> 11) & 1 == 1,
            ..InputPins::default()
        };
        let before = bus.clone();
        mb.clock_tick(&pins, &mut bus);
        assert!(bus.score >= before.score);
        assert!(bus.lines_cleared >= before.lines_cleared);
        assert!(bus.board.iter().all(|row| row.iter().all(|c| c.0 <= 7)));
        assert!(bus.piece_x >= -3 && bus.piece_x <= 10 && bus.piece_y >= -4 && bus.piece_y <= 20);
        assert_eq!(bus.ghost_x, bus.piece_x);
        assert!(bus.ghost_y >= bus.piece_y);
        if !before.hold_used && bus.hold_used {
            assert!(bus.hold_piece_type.is_some());
        }
    }
}

#[test]
fn backend_records_cpu_routes() {
    let mut backend = BackendRuntime::cpu();
    assert_eq!(backend.backend_name(), "cpu");
    assert_eq!(backend.gpu_tick_count(), 0);
    assert!(backend.chip_backend_routes().is_empty());
    let mb = SiliconMotherboard::new();
    let mut bus = SystemBus::new(1);
    backend.execute_layers(&mb.layers, &quiet_pins(FRAME_NS), &mut bus);
    let routes = backend.chip_backend_routes();
    assert_eq!(routes.len(), 15);
    assert_eq!(routes[0].layer, 0);
    assert_eq!(routes[0].chip, "InputDecoder");
    assert_eq!(routes[14].layer, 3);
    assert_eq!(routes[14].chip, "GhostComputer");
    assert!(routes.iter().all(|r| r.backend == "cpu"));
    assert_eq!(routes[3].chip, "CollisionDetector");
    assert_eq!(routes[3].layer, 1);
    let default_backend = BackendRuntime::default();
    assert_eq!(default_backend.backend_name(), "cpu");
    assert_eq!(BackendKind::Cpu, BackendKind::Cpu);
}

#[test]
fn cpu_execution_matches_clock_pipeline() {
    let mb = SiliconMotherboard::new();
    let mut a = SystemBus::new(1);
    let mut b = SystemBus::new(1);
    a.gravity_accumulator_ns = a.gravity_interval_ns;
    b.gravity_accumulator_ns = b.gravity_interval_ns;
    execute_layers_cpu(&mb.layers, &quiet_pins(0), &mut a);
    let mut backend = BackendRuntime::cpu();
    backend.execute_layers(&mb.layers, &quiet_pins(0), &mut b);
    assert_eq!(a.piece_y, 1);
    assert_eq!(b.piece_y, 1);
    assert_eq!(a.ghost_y, b.ghost_y);
}

#[test]
fn chip_ids_and_names() {
    assert_eq!(ChipId::COUNT, 15);
    assert_eq!(ChipId::InputDecoder.index(), 0);
    assert_eq!(ChipId::GhostComputer.index(), 14);
    assert_eq!(ChipId::ScoreKeeper.index(), 10);
    let chip = Chip::Rotation(RotationChip);
    assert_eq!(chip_id(&chip), ChipId::Rotation);
    assert_eq!(chip_name(&chip), "Rotation");
    assert_eq!(chip_name(&Chip::LockDelayTimer(LockDelayTimerChip)), "LockDelayTimer");
}

#[test]
fn input_events_map_to_pins() {
    let mut sample: SampledInput = idle_sample(123);
    assert_eq!(sample.pins.frame_delta_ns, 123);
    apply_event(&mut sample, InputEvent::Key(KeyInput::Char('h')));
    apply_event(&mut sample, InputEvent::Key(KeyInput::Up));
    apply_event(&mut sample, InputEvent::Key(KeyInput::Char(' ')));
    apply_event(&mut sample, InputEvent::Key(KeyInput::Char('Z')));
    apply_event(&mut sample, InputEvent::Key(KeyInput::Char('q')));
    apply_event(&mut sample, InputEvent::ScrollDown);
    apply_event(&mut sample, InputEvent::ScrollDown);
    apply_event(&mut sample, InputEvent::ScrollUp);
    assert!(sample.pins.key_left && sample.pins.key_up && sample.pins.key_space && sample.pins.key_z);
    assert!(!sample.pins.key_right && !sample.pins.key_x && !sample.pins.key_escape);
    assert_eq!(sample.chip_routing_scroll_delta, 3);
    apply_event(&mut sample, InputEvent::Key(KeyInput::Esc));
    apply_event(&mut sample, InputEvent::Key(KeyInput::Enter));
    apply_event(&mut sample, InputEvent::Key(KeyInput::Char('C')));
    assert!(sample.pins.key_escape && sample.pins.key_enter && sample.pins.key_c);
}

#[test]
fn playfield_cells_show_locked_active_and_ghost() {
    let mut bus = SystemBus::new(1);
    bus.board[19][0] = Cell(6);
    GhostComputerChip.tick(&InputPins::default(), &mut bus);
    assert_eq!(cell_view(&bus, 0, 19), CellView::Locked(6));
    assert_eq!(cell_view(&bus, 3, 1), CellView::Active(1));
    assert_eq!(cell_view(&bus, 4, 19), CellView::Shadow(1));
    assert_eq!(cell_view(&bus, 4, 10), CellView::Empty);
    assert!(is_cell_active(&bus, 6, 1));
    assert!(!is_cell_active(&bus, 7, 1));
    assert!(is_cell_ghost(&bus, 6, 19));
    // T preview: top middle and the whole second row.
    assert!(preview_filled(5, 0, 1));
    assert!(!preview_filled(5, 0, 0));
    assert!(preview_filled(5, 1, 0) && preview_filled(5, 1, 2));
    assert_eq!(TETROMINOES[5][0][0], (1, 0));
}

#[test]
fn piece_palette_and_shades() {
    assert_eq!(piece_color(1), Colour::Cyan);
    assert_eq!(piece_color(2), Colour::Blue);
    assert_eq!(piece_color(3), Colour::Rgb(255, 165, 0));
    assert_eq!(piece_color(4), Colour::Yellow);
    assert_eq!(piece_color(5), Colour::Green);
    assert_eq!(piece_color(6), Colour::Magenta);
    assert_eq!(piece_color(7), Colour::Red);
    assert_eq!(piece_color(0), Colour::White);
    assert_eq!(piece_color(8), Colour::White);

    assert_eq!(dim(Colour::Cyan), Colour::Rgb(0, 128, 128));
    assert_eq!(dim(Colour::Blue), Colour::Rgb(0, 0, 128));
    assert_eq!(dim(Colour::Rgb(255, 165, 0)), Colour::Rgb(127, 82, 0));
    assert_eq!(dim(Colour::Red), Colour::Rgb(128, 0, 0));
    assert_eq!(dim(Colour::White), Colour::DarkGray);
}

#[test]
fn tick_ignores_stale_wires() {
    let mut mb = SiliconMotherboard::new();
    let mut clean = SystemBus::new(1);
    let mut stale = SystemBus::new(1);
    stale.wires.dx = 1;
    stale.wires.hard_drop_requested = true;
    stale.wires.full_row_mask = 0b1111;
    stale.wires.game_over_triggered = true;
    let pins = InputPins { key_right: true, ..quiet_pins(FRAME_NS) };
    mb.clock_tick(&pins, &mut clean);
    mb.clock_tick(&pins, &mut stale);
    assert_eq!(format!("{:?}", clean), format!("{:?}", stale));
    assert_eq!(stale.game_phase, GamePhase::Playing);
}

#[test]
fn only_board_writers_touch_board() {
    let chips = [
        Chip::InputDecoder(InputDecoderChip),
        Chip::GravityTimer(GravityTimerChip),
        Chip::DasTimer(DasTimerChip),
        Chip::LockDelayTimer(LockDelayTimerChip),
        Chip::CollisionDetector(CollisionDetectorChip),
        Chip::Rotation(RotationChip),
        Chip::Movement(MovementChip),
        Chip::PieceLocker(PieceLockerChip),
        Chip::LineClearDetector(LineClearDetectorChip),
        Chip::LineClearCommitter(LineClearCommitterChip),
        Chip::ScoreKeeper(ScoreKeeperChip),
        Chip::LevelCalculator(LevelCalculatorChip),
        Chip::HoldController(HoldControllerChip),
        Chip::SpawnController(SpawnControllerChip),
        Chip::GhostComputer(GhostComputerChip),
    ];
    for chip in chips.iter() {
        let mut bus = SystemBus::new(1);
        for x in 0..BOARD_COLS {
            bus.board[BOARD_ROWS - 1][x] = Cell(5);
        }
        bus.board[BOARD_ROWS - 2][0] = Cell(1);
        bus.wires.piece_locked = true;
        bus.wires.full_row_mask = 1 << (BOARD_ROWS - 1);
        bus.wires.lines_cleared_this_tick = 1;
        bus.wires.hold_requested = true;
        bus.wires.should_spawn_next = true;
        bus.wires.rotate_cw = true;
        bus.wires.dx = 1;
        let before = bus.board;
        chip.tick(&quiet_pins(FRAME_NS), &mut bus);
        if chip_mutates_board(chip_id(chip)) {
            assert_ne!(bus.board, before, "{} should write the board here", chip_name(chip));
        } else {
            assert_eq!(bus.board, before, "{} wrote the board", chip_name(chip));
        }
    }
}

#[test]
fn standard_layers_hold_each_kind_once() {
    let mb = SiliconMotherboard::new();
    let mut seen: Vec<usize> = Vec::new();
    for layer in mb.layers.iter() {
        for chip in layer {
            let idx = chip_id(chip).index();
            assert!(!seen.contains(&idx));
            seen.push(idx);
        }
    }
    assert_eq!(seen.len(), 15);
}

#[test]
fn recorded_pins_replay_to_the_same_bus() {
    let mut rng: u64 = 7;
    let mut recording: Vec<InputPins> = Vec::new();
    for _ in 0..400 {
        rng = rng.wrapping_mul(6364136223846793005).wrapping_add(1442695040888963407);
        recording.push(InputPins {
            frame_delta_ns: FRAME_NS * ((rng >> 61) + 1),
            key_left: (rng >> 20) & 3 == 0,
            key_right: (rng >> 22) & 3 == 0,
            key_up: (rng >> 24) & 7 == 0,
            key_space: (rng >> 27) & 15 == 0,
            key_c: (rng >> 31) & 31 == 0,
            ..InputPins::default()
        });
    }
    let mut mb = SiliconMotherboard::new();
    let mut a = SystemBus::new(1);
    let mut b = SystemBus::new(1);
    b.wires.dx = -1;
    b.wires.piece_locked = true;
    for pins in recording.iter() {
        mb.clock_tick(pins, &mut a);
        mb.clock_tick(pins, &mut b);
    }
    assert_eq!(format!("{:?}", a), format!("{:?}", b));
    assert_eq!(a.tick_count, 400);
}

#[test]
fn standard_tick_ready_tests_form_and_pending_room() {
    let idle = InputPins::default();
    let bus = SystemBus::new(1);
    assert!(standard_tick_ready(&idle, &bus));

    // Nothing is cleared this tick, so even a nearly full score is fine.
    let mut full = SystemBus::new(1);
    full.score = u32::MAX;
    assert!(standard_tick_ready(&idle, &full));

    // A single line is about to be cleared: 40 * (level + 1) points must fit.
    let mut clearing = SystemBus::new(1);
    for x in 0..BOARD_COLS {
        clearing.board[BOARD_ROWS - 1][x] = Cell(3);
    }
    clearing.score = u32::MAX - 80;
    assert!(standard_tick_ready(&idle, &clearing));
    clearing.score = u32::MAX - 79;
    assert!(!standard_tick_ready(&idle, &clearing));

    let mut lines = SystemBus::new(1);
    lines.lines_cleared = 655_350;
    assert!(!standard_tick_ready(&idle, &lines));
    lines.lines_cleared = 655_349;
    assert!(standard_tick_ready(&idle, &lines));

    let mut bad_piece = SystemBus::new(1);
    bad_piece.piece_type = PieceType(7);
    assert!(!standard_tick_ready(&idle, &bad_piece));

    let mut bad_hold = SystemBus::new(1);
    bad_hold.hold_piece_type = Some(PieceType(9));
    assert!(!standard_tick_ready(&idle, &bad_hold));

    let mut bad_rotation = SystemBus::new(1);
    bad_rotation.piece_rotation = 4;
    assert!(!standard_tick_ready(&idle, &bad_rotation));
}

#[test]
fn playing_piece_never_overlaps() {
    let mut bus = SystemBus::new(1);
    let mut mb = SiliconMotherboard::new();
    let mut rng: u64 = 1234;
    for _ in 0..6000 {
        rng = rng.wrapping_mul(6364136223846793005).wrapping_add(1442695040888963407);
        let pins = InputPins {
            frame_delta_ns: FRAME_NS * ((rng >> 60) + 1),
            key_left: (rng >> 10) & 3 == 0,
            key_right: (rng >> 12) & 3 == 0,
            key_up: (rng >> 14) & 7 == 0,
            key_z: (rng >> 17) & 7 == 0,
            key_down: (rng >> 20) & 3 == 0,
            key_space: (rng >> 22) & 15 == 0,
            ..InputPins::default()
        };
        mb.clock_tick(&pins, &mut bus);
        assert!(bus.board.iter().all(|row| row.iter().any(|c| c.0 == 0)));
        if bus.game_phase == GamePhase::Playing {
            assert!(!collides(bus.piece_x, bus.piece_y, bus.piece_type.0, bus.piece_rotation, &bus.board));
            assert!(!bus.wires.should_spawn_next);
        } else {
            assert!(!bus.wires.should_spawn_next);
            break;
        }
    }
}

#[test]
fn gravity_speeds_up_with_level() {
    let mut prev = gravity_interval_ns(0);
    for level in 0..=255u8 {
        let g = gravity_interval_ns(level);
        assert!(g <= prev);
        assert!(g >= FRAME_NS && g <= 48 * FRAME_NS);
        assert_eq!(g % FRAME_NS, 0);
        prev = g;
    }
    assert_eq!(gravity_interval_ns(1), 48 * FRAME_NS);
    assert_eq!(gravity_interval_ns(20), 2 * FRAME_NS);
    assert_eq!(gravity_interval_ns(21), FRAME_NS);
}

#[test]
fn backend_setting_falls_back_to_cpu() {
    let (rt, notice) = BackendRuntime::from_setting(Some("cuda"));
    assert!(notice);
    assert_eq!(rt.backend_name(), "cpu");
    let (rt, notice) = BackendRuntime::from_setting(Some("cpu"));
    assert!(!notice);
    assert_eq!(rt.backend_name(), "cpu");
    let (_, notice) = BackendRuntime::from_setting(Some("CUDA"));
    assert!(!notice);
    let (rt, notice) = BackendRuntime::from_setting(None);
    assert!(!notice);
    assert_eq!(rt.gpu_tick_count(), 0);
    assert!(rt.chip_backend_routes().is_empty());
}

#[test]
fn ccw_turn_undoes_cw_turn_on_open_ground() {
    for pt in 0..7u8 {
        for rot in 0..4u8 {
            for x in 2..=4i8 {
                for y in [2i8, 8, 14] {
                    let mut bus = SystemBus::new(1);
                    bus.piece_type = PieceType(pt);
                    bus.piece_rotation = rot;
                    bus.piece_x = x;
                    bus.piece_y = y;
                    bus.wires.rotate_cw = true;
                    RotationChip.tick(&InputPins::default(), &mut bus);
                    assert_eq!(bus.piece_rotation, (rot + 1) % 4);
                    bus.wires.rotate_cw = false;
                    bus.wires.rotate_ccw = true;
                    RotationChip.tick(&InputPins::default(), &mut bus);
                    assert_eq!((bus.piece_x, bus.piece_y, bus.piece_rotation), (x, y, rot));
                }
            }
        }
    }
}

#[test]
fn chip_enum_dispatches_to_its_chip() {
    let pins = InputPins { key_left: true, frame_delta_ns: FRAME_NS, ..InputPins::default() };
    let mut a = SystemBus::new(1);
    a.wires.rotate_cw = true;
    a.wires.dx = -1;
    let mut b = a;
    Chip::Rotation(RotationChip).tick(&pins, &mut a);
    RotationChip.tick(&pins, &mut b);
    assert_eq!(format!("{:?}", a), format!("{:?}", b));
    Chip::DasTimer(DasTimerChip).tick(&pins, &mut a);
    DasTimerChip.tick(&pins, &mut b);
    Chip::Movement(MovementChip).tick(&pins, &mut a);
    MovementChip.tick(&pins, &mut b);
    assert_eq!(format!("{:?}", a), format!("{:?}", b));
}

#[test]
fn tick_leaves_no_full_row() {
    let mut mb = SiliconMotherboard::new();
    let mut bus = SystemBus::new(1);
    for y in [17, 19] {
        for x in 0..BOARD_COLS {
            bus.board[y][x] = Cell(4);
        }
    }
    bus.board[18][0] = Cell(2);
    mb.clock_tick(&InputPins::default(), &mut bus);
    assert!(bus.board.iter().all(|row| row.iter().any(|c| c.0 == 0)));
    assert_eq!(bus.lines_cleared, 2);
    assert_eq!(bus.board[19][0], Cell(2));
    assert_eq!(occupied_cells(&bus), 1);
}
