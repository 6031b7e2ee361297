//! What the playfield and the piece previews show, cell by cell.
use vstd::prelude::*;
use crate::bus::{SystemBus, BOARD_COLS, BOARD_ROWS};
use crate::chips::tetrominoes::{block, TETROMINOES};

verus! {

/// Some block of a piece of kind `piece_type` in `rotation`, anchored at `(ax, ay)`,
/// covers cell `(cx, cy)`.
pub open spec fn piece_covers(ax: int, ay: int, piece_type: u8, rotation: u8, cx: int, cy: int) -> bool {
    exists|i: int|
        0 <= i < 4 && ax + (#[trigger] block(piece_type, rotation, i)).0 == cx && ay + block(piece_type, rotation, i).1 == cy
}

fn covers(ax: i8, ay: i8, piece_type: u8, rotation: u8, cx: i8, cy: i8) -> (r: bool)
    requires
        piece_type < 7,
        rotation < 4,
    ensures
        r == piece_covers(ax as int, ay as int, piece_type, rotation, cx as int, cy as int),
{
    let cells = TETROMINOES[piece_type as usize][rotation as usize];
    let mut i: usize = 0;
    while i < 4
        invariant
            0 <= i <= 4,
            piece_type < 7,
            rotation < 4,
            cells == TETROMINOES@[piece_type as int]@[rotation as int],
            forall|j: int|
                0 <= j < i ==> !(ax + (#[trigger] block(piece_type, rotation, j)).0 == cx && ay + block(
                    piece_type,
                    rotation,
                    j,
                ).1 == cy),
        decreases 4 - i,
    {
        let (dx, dy) = cells[i];
        assert((dx, dy) == block(piece_type, rotation, i as int));
        if ax as i16 + dx as i16 == cx as i16 && ay as i16 + dy as i16 == cy as i16 {
            return true;
        }
        i = i + 1;
    }
    false
}

/// Whether the active piece covers cell `(cx, cy)`.
pub fn is_cell_active(bus: &SystemBus, cx: i8, cy: i8) -> (r: bool)
    requires
        bus.piece_type.0 < 7,
        bus.piece_rotation < 4,
    ensures
        r == piece_covers(bus.piece_x as int, bus.piece_y as int, bus.piece_type.0, bus.piece_rotation, cx as int, cy as int),
{
    covers(bus.piece_x, bus.piece_y, bus.piece_type.0, bus.piece_rotation, cx, cy)
}

/// Whether the ghost piece covers cell `(cx, cy)`.
pub fn is_cell_ghost(bus: &SystemBus, cx: i8, cy: i8) -> (r: bool)
    requires
        bus.piece_type.0 < 7,
        bus.piece_rotation < 4,
    ensures
        r == piece_covers(bus.ghost_x as int, bus.ghost_y as int, bus.piece_type.0, bus.piece_rotation, cx as int, cy as int),
{
    covers(bus.ghost_x, bus.ghost_y, bus.piece_type.0, bus.piece_rotation, cx, cy)
}

/// What one playfield cell shows. Colours are piece kinds plus one (1=I .. 7=Z).
#[derive(Clone, Copy, Debug, PartialEq, Eq, Structural)]
pub enum CellView {
    /// A locked block of the given colour.
    Locked(u8),
    /// A block of the active piece.
    Active(u8),
    /// A block of the ghost piece (hard-drop preview).
    Shadow(u8),
    Empty,
}

/// What cell `(x, y)` shows: a locked block over the active piece, the active piece over
/// its ghost, and otherwise nothing.
pub open spec fn spec_cell_view(bus: SystemBus, x: int, y: int) -> CellView {
    let cell = bus.board@[y]@[x].0;
    let colour = (bus.piece_type.0 + 1) as u8;
    if cell != 0 {
        CellView::Locked(cell)
    } else if piece_covers(bus.piece_x as int, bus.piece_y as int, bus.piece_type.0, bus.piece_rotation, x, y) {
        CellView::Active(colour)
    } else if piece_covers(bus.ghost_x as int, bus.ghost_y as int, bus.piece_type.0, bus.piece_rotation, x, y) {
        CellView::Shadow(colour)
    } else {
        CellView::Empty
    }
}

/// What playfield cell `(x, y)` shows.
pub fn cell_view(bus: &SystemBus, x: usize, y: usize) -> (r: CellView)
    requires
        bus.piece_type.0 < 7,
        bus.piece_rotation < 4,
        x < BOARD_COLS,
        y < BOARD_ROWS,
    ensures
        r == spec_cell_view(*bus, x as int, y as int),
{
    let cell = bus.board[y][x].0;
    let active = is_cell_active(bus, x as i8, y as i8);
    let shadow = !active && is_cell_ghost(bus, x as i8, y as i8);
    let colour = bus.piece_type.0 + 1;
    if cell != 0 {
        CellView::Locked(cell)
    } else if active {
        CellView::Active(colour)
    } else if shadow {
        CellView::Shadow(colour)
    } else {
        CellView::Empty
    }
}

/// Whether cell `(col, row)` of the 4x4 preview of a piece kind in spawn rotation is filled.
pub fn preview_filled(piece_type: u8, row: i8, col: i8) -> (r: bool)
    requires
        piece_type < 7,
    ensures
        r == piece_covers(0, 0, piece_type, 0, col as int, row as int),
{
    covers(0, 0, piece_type, 0, col, row)
}

/// The display colours the playfield uses.
#[derive(Clone, Copy, Debug, PartialEq, Eq, Structural)]
pub enum Colour {
    Cyan,
    Blue,
    Yellow,
    Green,
    Magenta,
    Red,
    White,
    DarkGray,
    Rgb(u8, u8, u8),
}

/// The colour of a cell value: 1..=7 are the seven pieces (I, J, L, O, S, T, Z).
pub open spec fn spec_piece_color(piece_id: u8) -> Colour {
    if piece_id == 1 {
        Colour::Cyan
    } else if piece_id == 2 {
        Colour::Blue
    } else if piece_id == 3 {
        Colour::Rgb(255, 165, 0)
    } else if piece_id == 4 {
        Colour::Yellow
    } else if piece_id == 5 {
        Colour::Green
    } else if piece_id == 6 {
        Colour::Magenta
    } else if piece_id == 7 {
        Colour::Red
    } else {
        Colour::White
    }
}

/// The darker shade of a colour used for a block's background.
pub open spec fn spec_dim(c: Colour) -> Colour {
    match c {
        Colour::Cyan => Colour::Rgb(0, 128, 128),
        Colour::Blue => Colour::Rgb(0, 0, 128),
        Colour::Yellow => Colour::Rgb(128, 128, 0),
        Colour::Green => Colour::Rgb(0, 128, 0),
        Colour::Magenta => Colour::Rgb(128, 0, 128),
        Colour::Red => Colour::Rgb(128, 0, 0),
        Colour::Rgb(r, g, b) => Colour::Rgb(r / 2, g / 2, b / 2),
        _ => Colour::DarkGray,
    }
}

/// The colour of a cell value.
pub fn piece_color(piece_id: u8) -> (r: Colour)
    ensures
        r == spec_piece_color(piece_id),
{
    match piece_id {
        1 => Colour::Cyan,
        2 => Colour::Blue,
        3 => Colour::Rgb(255, 165, 0),
        4 => Colour::Yellow,
        5 => Colour::Green,
        6 => Colour::Magenta,
        7 => Colour::Red,
        _ => Colour::White,
    }
}

/// The darker shade of a colour.
pub fn dim(c: Colour) -> (r: Colour)
    ensures
        r == spec_dim(c),
{
    match c {
        Colour::Cyan => Colour::Rgb(0, 128, 128),
        Colour::Blue => Colour::Rgb(0, 0, 128),
        Colour::Yellow => Colour::Rgb(128, 128, 0),
        Colour::Green => Colour::Rgb(0, 128, 0),
        Colour::Magenta => Colour::Rgb(128, 0, 128),
        Colour::Red => Colour::Rgb(128, 0, 0),
        Colour::Rgb(r, g, b) => Colour::Rgb(r / 2, g / 2, b / 2),
        _ => Colour::DarkGray,
    }
}

} // verus!
