//! The system bus: input pins, per-tick wires and the persistent register file.
use vstd::prelude::*;

verus! {

pub const BOARD_COLS: usize = 10;

pub const BOARD_ROWS: usize = 20;

pub const BOARD_SIZE: usize = 200;

pub const FRAME_NS: u64 = 16_666_667;

pub const DAS_DELAY_NS: u64 = 266_666_672;

pub const DAS_REPEAT_NS: u64 = 100_000_002;

pub const LOCK_DELAY_MAX_NS: u64 = 500_000_010;

pub const MAX_FRAME_DELTA_NS: u64 = 1_000_000_000;

/// NES-style gravity table: frames per grid cell at 60 Hz, indexed by `level - 1`.
pub const GRAVITY_FRAMES: [u64; 20] = [
    48, 43, 38, 33, 28, 23, 18, 13, 8, 6,
    5, 5, 5, 4, 4, 4, 3, 3, 3, 2,
];

/// Frames per grid cell at a 1-based level; levels past the table fall one row per frame,
/// and level 0 is treated as level 1.
pub open spec fn spec_gravity_frames(level: u8) -> u64 {
    let idx = if level == 0 { 0int } else { level - 1 };
    if idx < 20 { GRAVITY_FRAMES@[idx] } else { 1 }
}

/// Gravity interval in nanoseconds for a 1-based level.
pub open spec fn spec_gravity_interval_ns(level: u8) -> u64 {
    (spec_gravity_frames(level) * FRAME_NS) as u64
}

/// Convert a 1-based level number to the gravity interval in nanoseconds.
pub fn gravity_interval_ns(level: u8) -> (r: u64)
    ensures
        r == spec_gravity_interval_ns(level),
        r >= FRAME_NS,
{
    let idx = level.saturating_sub(1) as usize;
    let frames: u64 = if idx < 20 { GRAVITY_FRAMES[idx] } else { 1 };
    assert(1 <= frames <= 48);
    frames * FRAME_NS
}

/// A board cell: 0 is empty, 1..=7 hold the colour of the piece that locked there.
#[derive(Clone, Copy, Debug, Default, PartialEq, Eq, Structural)]
pub struct Cell(pub u8);

/// A tetromino kind: 0=I, 1=J, 2=L, 3=O, 4=S, 5=T, 6=Z.
#[derive(Clone, Copy, Debug, Default, PartialEq, Eq, Structural)]
pub struct PieceType(pub u8);

/// The playfield: `board[row][col]`, row 0 at the top.
pub type Board = [[Cell; BOARD_COLS]; BOARD_ROWS];


/// The phase of the game lifecycle.
#[derive(Clone, Copy, Debug, PartialEq, Eq, Structural)]
pub enum GamePhase {
    Playing,
    Paused,
    GameOver,
}

/// External input pins, sampled once per clock tick and frozen for the tick's duration.
#[derive(Clone, Copy, Debug)]
pub struct InputPins {
    /// Wall-clock nanoseconds elapsed since the previous tick.
    pub frame_delta_ns: u64,
    pub key_left: bool,
    pub key_right: bool,
    /// Soft drop.
    pub key_down: bool,
    /// Rotate clockwise (alternate mapping).
    pub key_up: bool,
    /// Rotate counter-clockwise.
    pub key_z: bool,
    /// Rotate clockwise.
    pub key_x: bool,
    /// Hard drop.
    pub key_space: bool,
    /// Hold.
    pub key_c: bool,
    pub key_escape: bool,
    pub key_enter: bool,
}

/// Pins with no elapsed time and no key held.
pub open spec fn idle_pins() -> InputPins {
    InputPins {
        frame_delta_ns: 0,
        key_left: false,
        key_right: false,
        key_down: false,
        key_up: false,
        key_z: false,
        key_x: false,
        key_space: false,
        key_c: false,
        key_escape: false,
        key_enter: false,
    }
}

impl Default for InputPins {
    fn default() -> (r: Self)
        ensures
            r == idle_pins(),
    {
        InputPins {
            frame_delta_ns: 0,
            key_left: false,
            key_right: false,
            key_down: false,
            key_up: false,
            key_z: false,
            key_x: false,
            key_space: false,
            key_c: false,
            key_escape: false,
            key_enter: false,
        }
    }
}

/// Ephemeral signal lines, valid within a single clock tick and pulled to ground at the
/// start of every tick.
#[derive(Clone, Copy, Debug)]
pub struct Wires {
    /// -1 left, 0 none, +1 right.
    pub dx: i8,
    /// 0 none, +1 soft drop or gravity.
    pub dy: i8,
    pub rotate_cw: bool,
    pub rotate_ccw: bool,
    pub hard_drop_requested: bool,
    pub hold_requested: bool,
    pub pause_requested: bool,
    pub gravity_tick: bool,
    pub das_tick: bool,
    pub lock_delay_expired: bool,
    pub lock_delay_active: bool,
    pub collision_down: bool,
    pub collision_any: bool,
    pub wall_kick_applied: bool,
    pub piece_locked: bool,
    pub should_spawn_next: bool,
    pub full_row_mask: u32,
    pub lines_cleared_this_tick: u8,
    pub game_over_triggered: bool,
    pub render_dirty: bool,
}

/// All wires at ground level.
pub open spec fn grounded_wires() -> Wires {
    Wires {
        dx: 0,
        dy: 0,
        rotate_cw: false,
        rotate_ccw: false,
        hard_drop_requested: false,
        hold_requested: false,
        pause_requested: false,
        gravity_tick: false,
        das_tick: false,
        lock_delay_expired: false,
        lock_delay_active: false,
        collision_down: false,
        collision_any: false,
        wall_kick_applied: false,
        piece_locked: false,
        should_spawn_next: false,
        full_row_mask: 0,
        lines_cleared_this_tick: 0,
        game_over_triggered: false,
        render_dirty: false,
    }
}

impl Default for Wires {
    fn default() -> (r: Self)
        ensures
            r == grounded_wires(),
    {
        Wires {
            dx: 0,
            dy: 0,
            rotate_cw: false,
            rotate_ccw: false,
            hard_drop_requested: false,
            hold_requested: false,
            pause_requested: false,
            gravity_tick: false,
            das_tick: false,
            lock_delay_expired: false,
            lock_delay_active: false,
            collision_down: false,
            collision_any: false,
            wall_kick_applied: false,
            piece_locked: false,
            should_spawn_next: false,
            full_row_mask: 0,
            lines_cleared_this_tick: 0,
            game_over_triggered: false,
            render_dirty: false,
        }
    }
}

/// The register file: all state that persists across ticks, plus the wires of the
/// current tick.
#[derive(Clone, Copy, Debug)]
pub struct SystemBus {
    pub board: Board,
    pub piece_type: PieceType,
    pub piece_x: i8,
    pub piece_y: i8,
    /// 0=spawn, 1=CW, 2=180, 3=CCW.
    pub piece_rotation: u8,
    pub next_piece_type: PieceType,
    pub hold_piece_type: Option<PieceType>,
    pub hold_used: bool,
    pub score: u32,
    pub level: u16,
    pub lines_cleared: u32,
    pub game_phase: GamePhase,
    pub tick_count: u64,
    pub ghost_x: i8,
    pub ghost_y: i8,
    pub gravity_accumulator_ns: u64,
    pub gravity_interval_ns: u64,
    pub das_accumulator_ns: u64,
    pub das_delay_ns: u64,
    pub das_repeat_ns: u64,
    pub das_active: bool,
    pub das_direction: i8,
    pub das_last_repeat_index: u32,
    pub prng_state: u32,
    pub lock_delay_accumulator_ns: u64,
    pub lock_delay_max_ns: u64,
    pub prev_key_left: bool,
    pub prev_key_right: bool,
    pub prev_key_down: bool,
    pub prev_key_up: bool,
    pub prev_key_z: bool,
    pub prev_key_x: bool,
    pub prev_key_c: bool,
    pub prev_key_space: bool,
    pub prev_key_escape: bool,
    pub prev_key_enter: bool,
    pub wires: Wires,
}

/// Whether a board cell holds an encodable value (empty or one of the seven colours).
pub open spec fn cells_valid(board: Board) -> bool {
    forall|r: int, c: int| 0 <= r < BOARD_ROWS && 0 <= c < BOARD_COLS ==> #[trigger] board@[r]@[c].0 <= 7
}

impl SystemBus {
    /// The structural invariant that every chip relies on and preserves: piece kinds index
    /// the shape table, the rotation is one of four, and both timer periods are positive.
    pub open spec fn wf(&self) -> bool {
        &&& self.piece_type.0 < 7
        &&& self.next_piece_type.0 < 7
        &&& (self.hold_piece_type matches Some(h) ==> h.0 < 7)
        &&& self.piece_rotation < 4
        &&& self.gravity_interval_ns > 0
        &&& self.das_repeat_ns > 0
    }

    /// Create a bus for a new game at the given level: an empty board, an I piece at the
    /// spawn position with a J piece next, and all timers and latches cleared.
    pub fn new(level: u16) -> (r: Self)
        ensures
            r.wf(),
            forall|row: int, col: int|
                0 <= row < BOARD_ROWS && 0 <= col < BOARD_COLS ==> #[trigger] r.board@[row]@[col] == Cell(0),
            r.piece_type == PieceType(0),
            r.piece_x == 3,
            r.piece_y == 0,
            r.piece_rotation == 0,
            r.next_piece_type == PieceType(1),
            r.hold_piece_type.is_none(),
            !r.hold_used,
            r.score == 0,
            r.level == level,
            r.lines_cleared == 0,
            r.game_phase == GamePhase::Playing,
            r.tick_count == 0,
            r.ghost_x == 0,
            r.ghost_y == 0,
            r.gravity_accumulator_ns == 0,
            r.gravity_interval_ns == spec_gravity_interval_ns(level as u8),
            r.das_accumulator_ns == 0,
            r.das_delay_ns == DAS_DELAY_NS,
            r.das_repeat_ns == DAS_REPEAT_NS,
            !r.das_active,
            r.das_direction == 0,
            r.das_last_repeat_index == 0,
            r.prng_state == 0xDEADBEEF,
            r.lock_delay_accumulator_ns == 0,
            r.lock_delay_max_ns == LOCK_DELAY_MAX_NS,
            !r.prev_key_left,
            !r.prev_key_right,
            !r.prev_key_down,
            !r.prev_key_up,
            !r.prev_key_z,
            !r.prev_key_x,
            !r.prev_key_c,
            !r.prev_key_space,
            !r.prev_key_escape,
            !r.prev_key_enter,
            r.wires == grounded_wires(),
    {
        SystemBus {
            board: [[Cell(0); BOARD_COLS]; BOARD_ROWS],
            piece_type: PieceType(0),
            piece_x: 3,
            piece_y: 0,
            piece_rotation: 0,
            next_piece_type: PieceType(1),
            hold_piece_type: None,
            hold_used: false,
            score: 0,
            level,
            lines_cleared: 0,
            game_phase: GamePhase::Playing,
            tick_count: 0,
            ghost_x: 0,
            ghost_y: 0,
            gravity_accumulator_ns: 0,
            gravity_interval_ns: gravity_interval_ns(level as u8),
            das_accumulator_ns: 0,
            das_delay_ns: DAS_DELAY_NS,
            das_repeat_ns: DAS_REPEAT_NS,
            das_active: false,
            das_direction: 0,
            das_last_repeat_index: 0,
            prng_state: 0xDEADBEEF,
            lock_delay_accumulator_ns: 0,
            lock_delay_max_ns: LOCK_DELAY_MAX_NS,
            prev_key_left: false,
            prev_key_right: false,
            prev_key_down: false,
            prev_key_up: false,
            prev_key_z: false,
            prev_key_x: false,
            prev_key_c: false,
            prev_key_space: false,
            prev_key_escape: false,
            prev_key_enter: false,
            wires: Wires::default(),
        }
    }
}

} // verus!
