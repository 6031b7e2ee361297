use vstd::prelude::*;
use vstd::array::spec_array_update;
use super::{LogicChip, PieceLockerChip};
use super::tetrominoes::{block, lemma_block_bounds, TETROMINOES};
use crate::bus::{Board, Cell, InputPins, SystemBus, Wires, BOARD_COLS, BOARD_ROWS};

verus! {

/// The board with the cell at column `x`, row `y` replaced.
pub open spec fn set_cell(board: Board, x: int, y: int, c: Cell) -> Board {
    spec_array_update(board, y, spec_array_update(board@[y], x, c))
}

/// Whether block `i` of a piece anchored at `(x, y)` lies on the playfield.
pub open spec fn block_on_board(x: int, y: int, piece_type: u8, rotation: u8, i: int) -> bool {
    let bx = x + block(piece_type, rotation, i).0;
    let by = y + block(piece_type, rotation, i).1;
    0 <= bx < BOARD_COLS && 0 <= by < BOARD_ROWS
}

/// The first block, from `i` on, that lies off the playfield (4 when there is none).
pub open spec fn first_off_board(x: int, y: int, piece_type: u8, rotation: u8, i: int) -> int
    decreases 4 - i,
{
    if i >= 4 || i < 0 {
        4
    } else if !block_on_board(x, y, piece_type, rotation, i) {
        i
    } else {
        first_off_board(x, y, piece_type, rotation, i + 1)
    }
}

/// The board with the first `n` blocks of the piece painted in colour `c`.
pub open spec fn stamp(board: Board, x: int, y: int, piece_type: u8, rotation: u8, c: Cell, n: int) -> Board
    decreases n,
{
    if n <= 0 {
        board
    } else {
        set_cell(
            stamp(board, x, y, piece_type, rotation, c, n - 1),
            x + block(piece_type, rotation, n - 1).0,
            y + block(piece_type, rotation, n - 1).1,
            c,
        )
    }
}

/// The colour a piece leaves on the board: its kind plus one.
pub open spec fn piece_colour(piece_type: u8) -> Cell {
    Cell((piece_type + 1) as u8)
}

/// The wires after the piece locked in place.
pub open spec fn locked_wires(w: Wires) -> Wires {
    Wires { piece_locked: true, should_spawn_next: true, render_dirty: true, ..w }
}

/// The wires after a piece tried to lock above or partly off the playfield.
pub open spec fn lock_out_wires(w: Wires) -> Wires {
    Wires { game_over_triggered: true, ..w }
}

fn set_locked_wires(w: Wires) -> (r: Wires)
    ensures
        r == locked_wires(w),
{
    let mut r = w;
    r.piece_locked = true;
    r.should_spawn_next = true;
    r.render_dirty = true;
    r
}

fn set_lock_out_wires(w: Wires) -> (r: Wires)
    ensures
        r == lock_out_wires(w),
{
    let mut r = w;
    r.game_over_triggered = true;
    r
}

fn write_cell(board: Board, x: usize, y: usize, c: Cell) -> (r: Board)
    requires
        x < BOARD_COLS,
        y < BOARD_ROWS,
    ensures
        r == set_cell(board, x as int, y as int, c),
{
    let mut row = board[y];
    row[x] = c;
    let mut b = board;
    b[y] = row;
    b
}

/// Paint the piece's blocks in order, stopping at the first block off the playfield.
/// Returns the board and whether some block was off the playfield.
fn stamp_piece(board: Board, x: i8, y: i8, piece_type: u8, rotation: u8) -> (r: (Board, bool))
    requires
        piece_type < 7,
        rotation < 4,
    ensures
        r.0 == stamp(
            board,
            x as int,
            y as int,
            piece_type,
            rotation,
            piece_colour(piece_type),
            first_off_board(x as int, y as int, piece_type, rotation, 0),
        ),
        r.1 == (first_off_board(x as int, y as int, piece_type, rotation, 0) < 4),
{
    let cells = TETROMINOES[piece_type as usize][rotation as usize];
    let colour = Cell(piece_type + 1);
    let mut b = board;
    let mut i: usize = 0;
    while i < 4
        invariant
            0 <= i <= 4,
            piece_type < 7,
            rotation < 4,
            colour == piece_colour(piece_type),
            cells == TETROMINOES@[piece_type as int]@[rotation as int],
            first_off_board(x as int, y as int, piece_type, rotation, 0)
                == first_off_board(x as int, y as int, piece_type, rotation, i as int),
            b == stamp(board, x as int, y as int, piece_type, rotation, colour, i as int),
        decreases 4 - i,
    {
        let (dx, dy) = cells[i];
        assert((dx, dy) == block(piece_type, rotation, i as int));
        proof {
            lemma_block_bounds(piece_type, rotation, i as int);
        }
        let bx: i16 = x as i16 + dx as i16;
        let by: i16 = y as i16 + dy as i16;
        if by < 0 || by >= BOARD_ROWS as i16 || bx < 0 || bx >= BOARD_COLS as i16 {
            return (b, true);
        }
        b = write_cell(b, bx as usize, by as usize, colour);
        i = i + 1;
    }
    (b, false)
}

impl LogicChip for PieceLockerChip {
    /// A lock on the playfield needs the active piece to index the shape table.
    open spec fn can_tick(&self, pins: InputPins, bus: SystemBus) -> bool {
        (bus.wires.piece_locked || bus.wires.lock_delay_expired) && bus.piece_y >= 0
            ==> bus.piece_type.0 < 7 && bus.piece_rotation < 4
    }

    /// When the piece is to lock (hard drop or expired lock delay): a piece anchored above
    /// the playfield (`piece_y < 0`) is locked out, raising `game_over_triggered` with
    /// nothing painted. Otherwise its blocks are painted onto the board in the piece's
    /// colour, in block order; a block off the playfield stops the painting and raises
    /// `game_over_triggered`, and else the lock completes and a spawn is requested.
    open spec fn ticked(&self, pins: InputPins, bus: SystemBus) -> SystemBus {
        let n = first_off_board(bus.piece_x as int, bus.piece_y as int, bus.piece_type.0, bus.piece_rotation, 0);
        let board = stamp(
            bus.board,
            bus.piece_x as int,
            bus.piece_y as int,
            bus.piece_type.0,
            bus.piece_rotation,
            piece_colour(bus.piece_type.0),
            n,
        );
        if !(bus.wires.piece_locked || bus.wires.lock_delay_expired) {
            bus
        } else if bus.piece_y < 0 {
            SystemBus { wires: lock_out_wires(bus.wires), ..bus }
        } else if n < 4 {
            SystemBus { board: board, wires: lock_out_wires(bus.wires), ..bus }
        } else {
            SystemBus { board: board, wires: locked_wires(bus.wires), ..bus }
        }
    }

    fn tick(&self, _pins: &InputPins, bus: &mut SystemBus) {
        let should_lock = bus.wires.piece_locked || bus.wires.lock_delay_expired;
        if !should_lock {
            return;
        }
        if bus.piece_y < 0 {
            let w = set_lock_out_wires(bus.wires);
            *bus = SystemBus { wires: w, ..*bus };
            return;
        }
        let (board, off) = stamp_piece(bus.board, bus.piece_x, bus.piece_y, bus.piece_type.0, bus.piece_rotation);
        if off {
            let w = set_lock_out_wires(bus.wires);
            *bus = SystemBus { board: board, wires: w, ..*bus };
        } else {
            let w = set_locked_wires(bus.wires);
            *bus = SystemBus { board: board, wires: w, ..*bus };
        }
    }
}

} // verus!
