//! Static tetromino shape and wall-kick tables, and the pure collision test.
use vstd::prelude::*;
use crate::bus::{Board, Cell, BOARD_COLS, BOARD_ROWS};

verus! {

/// `TETROMINOES[piece_type][rotation][block]` is the `(dx, dy)` offset of a block from the
/// piece anchor (top-left of its bounding box); y grows downwards.
pub const TETROMINOES: [[[(i8, i8); 4]; 4]; 7] = [
    [
        [(0, 1), (1, 1), (2, 1), (3, 1)],
        [(2, 0), (2, 1), (2, 2), (2, 3)],
        [(0, 2), (1, 2), (2, 2), (3, 2)],
        [(1, 0), (1, 1), (1, 2), (1, 3)],
    ],
    [
        [(0, 0), (0, 1), (1, 1), (2, 1)],
        [(1, 0), (2, 0), (1, 1), (1, 2)],
        [(0, 1), (1, 1), (2, 1), (2, 2)],
        [(1, 0), (1, 1), (0, 2), (1, 2)],
    ],
    [
        [(2, 0), (0, 1), (1, 1), (2, 1)],
        [(1, 0), (1, 1), (1, 2), (2, 2)],
        [(0, 1), (1, 1), (2, 1), (0, 2)],
        [(0, 0), (1, 0), (1, 1), (1, 2)],
    ],
    [
        [(1, 0), (2, 0), (1, 1), (2, 1)],
        [(1, 0), (2, 0), (1, 1), (2, 1)],
        [(1, 0), (2, 0), (1, 1), (2, 1)],
        [(1, 0), (2, 0), (1, 1), (2, 1)],
    ],
    [
        [(1, 0), (2, 0), (0, 1), (1, 1)],
        [(1, 0), (1, 1), (2, 1), (2, 2)],
        [(1, 1), (2, 1), (0, 2), (1, 2)],
        [(0, 0), (0, 1), (1, 1), (1, 2)],
    ],
    [
        [(1, 0), (0, 1), (1, 1), (2, 1)],
        [(1, 0), (1, 1), (2, 1), (1, 2)],
        [(0, 1), (1, 1), (2, 1), (1, 2)],
        [(1, 0), (0, 1), (1, 1), (1, 2)],
    ],
    [
        [(0, 0), (1, 0), (1, 1), (2, 1)],
        [(2, 0), (1, 1), (2, 1), (1, 2)],
        [(0, 1), (1, 1), (1, 2), (2, 2)],
        [(1, 0), (0, 1), (1, 1), (0, 2)],
    ],
];

/// `JLSTZ_KICKS[from][to][test]` is the `(dx, dy)` of each SRS wall-kick test for the J, L,
/// S, T and Z pieces; y grows downwards and unused transitions are all zero.
pub const JLSTZ_KICKS: [[[(i8, i8); 5]; 4]; 4] = [
    [
        [(0, 0), (0, 0), (0, 0), (0, 0), (0, 0)],
        [(0, 0), (-1, 0), (-1, 1), (0, -2), (-1, -2)],
        [(0, 0), (0, 0), (0, 0), (0, 0), (0, 0)],
        [(0, 0), (1, 0), (1, 1), (0, -2), (1, -2)],
    ],
    [
        [(0, 0), (1, 0), (1, -1), (0, 2), (1, 2)],
        [(0, 0), (0, 0), (0, 0), (0, 0), (0, 0)],
        [(0, 0), (1, 0), (1, -1), (0, 2), (1, 2)],
        [(0, 0), (0, 0), (0, 0), (0, 0), (0, 0)],
    ],
    [
        [(0, 0), (0, 0), (0, 0), (0, 0), (0, 0)],
        [(0, 0), (-1, 0), (-1, 1), (0, -2), (-1, -2)],
        [(0, 0), (0, 0), (0, 0), (0, 0), (0, 0)],
        [(0, 0), (1, 0), (1, 1), (0, -2), (1, -2)],
    ],
    [
        [(0, 0), (-1, 0), (-1, -1), (0, 2), (-1, 2)],
        [(0, 0), (0, 0), (0, 0), (0, 0), (0, 0)],
        [(0, 0), (-1, 0), (-1, -1), (0, 2), (-1, 2)],
        [(0, 0), (0, 0), (0, 0), (0, 0), (0, 0)],
    ],
];

/// `I_KICKS[from][to][test]` is the `(dx, dy)` of each SRS wall-kick test for the I piece.
pub const I_KICKS: [[[(i8, i8); 5]; 4]; 4] = [
    [
        [(0, 0), (0, 0), (0, 0), (0, 0), (0, 0)],
        [(1, 0), (-1, 0), (2, 0), (-1, 1), (2, -2)],
        [(0, 0), (0, 0), (0, 0), (0, 0), (0, 0)],
        [(0, 1), (-1, 1), (2, 1), (-1, -1), (2, 2)],
    ],
    [
        [(-1, 0), (1, 0), (-2, 0), (1, -1), (-2, 2)],
        [(0, 0), (0, 0), (0, 0), (0, 0), (0, 0)],
        [(0, 1), (-1, 1), (2, 1), (-1, -1), (2, 2)],
        [(0, 0), (0, 0), (0, 0), (0, 0), (0, 0)],
    ],
    [
        [(0, 0), (0, 0), (0, 0), (0, 0), (0, 0)],
        [(0, -1), (1, -1), (-2, -1), (1, 1), (-2, -2)],
        [(0, 0), (0, 0), (0, 0), (0, 0), (0, 0)],
        [(-1, 0), (1, 0), (-2, 0), (1, -1), (-2, 2)],
    ],
    [
        [(0, -1), (1, -1), (-2, -1), (1, 1), (-2, -2)],
        [(0, 0), (0, 0), (0, 0), (0, 0), (0, 0)],
        [(1, 0), (-1, 0), (2, 0), (-1, 1), (2, -2)],
        [(0, 0), (0, 0), (0, 0), (0, 0), (0, 0)],
    ],
];

/// The wall-kick offset tried at position `test` when a piece rotates from `from` to `to`.
pub open spec fn kick(piece_type: u8, from: u8, to: u8, test: int) -> (i8, i8) {
    if piece_type == 0 {
        I_KICKS@[from as int]@[to as int]@[test]
    } else {
        JLSTZ_KICKS@[from as int]@[to as int]@[test]
    }
}

/// Every wall-kick offset moves a piece at most two cells along each axis.
pub proof fn lemma_kick_bounds(piece_type: u8, from: u8, to: u8, test: int)
    requires
        from < 4,
        to < 4,
        0 <= test < 5,
    ensures
        -2 <= kick(piece_type, from, to, test).0 <= 2,
        -2 <= kick(piece_type, from, to, test).1 <= 2,
{
}

/// The offset of block `i` of a piece in a rotation.
pub open spec fn block(piece_type: u8, rotation: u8, i: int) -> (i8, i8) {
    TETROMINOES@[piece_type as int]@[rotation as int]@[i]
}

/// Every block offset lies within the 4x4 bounding box.
pub proof fn lemma_block_bounds(piece_type: u8, rotation: u8, i: int)
    requires
        piece_type < 7,
        rotation < 4,
        0 <= i < 4,
    ensures
        0 <= block(piece_type, rotation, i).0 <= 3,
        0 <= block(piece_type, rotation, i).1 <= 3,
{
}

/// Whether board coordinate `(x, y)` is a wall, the floor, or a locked cell.
pub open spec fn cell_blocked(board: Board, x: int, y: int) -> bool {
    x < 0 || x >= BOARD_COLS || y < 0 || y >= BOARD_ROWS || board@[y]@[x].0 != 0
}

/// Whether a piece placed with its anchor at `(x, y)` overlaps a wall, the floor, or a
/// locked cell.
#[verifier::opaque]
pub open spec fn spec_collides(x: int, y: int, piece_type: u8, rotation: u8, board: Board) -> bool {
    exists|i: int|
        0 <= i < 4 && #[trigger] cell_blocked(
            board,
            x + block(piece_type, rotation, i).0,
            y + block(piece_type, rotation, i).1,
        )
}

/// Collision test on widened coordinates, so that anchors near the edge of the `i8`
/// range are handled without overflow.
pub fn collides_at(x: i16, y: i16, piece_type: u8, rotation: u8, board: &Board) -> (r: bool)
    requires
        piece_type < 7,
        rotation < 4,
        -1000 <= x <= 1000,
        -1000 <= y <= 1000,
    ensures
        r == spec_collides(x as int, y as int, piece_type, rotation, *board),
{
    reveal(spec_collides);
    let cells = TETROMINOES[piece_type as usize][rotation as usize];
    let mut i: usize = 0;
    while i < 4
        invariant
            0 <= i <= 4,
            piece_type < 7,
            rotation < 4,
            -1000 <= x <= 1000,
            -1000 <= y <= 1000,
            cells == TETROMINOES@[piece_type as int]@[rotation as int],
            forall|j: int|
                0 <= j < i ==> !#[trigger] cell_blocked(
                    *board,
                    x + block(piece_type, rotation, j).0,
                    y + block(piece_type, rotation, j).1,
                ),
        decreases 4 - i,
    {
        let (dx, dy) = cells[i];
        let cx: i16 = x + dx as i16;
        let cy: i16 = y + dy as i16;
        assert((dx, dy) == block(piece_type, rotation, i as int));
        let blocked = cx < 0 || cx >= BOARD_COLS as i16 || cy < 0 || cy >= BOARD_ROWS as i16
            || board[cy as usize][cx as usize].0 != 0;
        if blocked {
            reveal(spec_collides);
            assert(cell_blocked(
                *board,
                x + block(piece_type, rotation, i as int).0,
                y + block(piece_type, rotation, i as int).1,
            ));
            return true;
        }
        i = i + 1;
    }
    false
}

/// Returns true if the piece at `(test_x, test_y)` with the given rotation collides with
/// the walls, the floor, or locked blocks.
pub fn collides(test_x: i8, test_y: i8, piece_type: u8, rotation: u8, board: &Board) -> (r: bool)
    requires
        piece_type < 7,
        rotation < 4,
    ensures
        r == spec_collides(test_x as int, test_y as int, piece_type, rotation, *board),
{
    collides_at(test_x as i16, test_y as i16, piece_type, rotation, board)
}

/// A piece that collides with nothing has its anchor within three cells of the playfield.
pub proof fn lemma_free_anchor_bounds(x: int, y: int, piece_type: u8, rotation: u8, board: Board)
    requires
        piece_type < 7,
        rotation < 4,
        !spec_collides(x, y, piece_type, rotation, board),
    ensures
        -3 <= x <= 9,
        -3 <= y <= 19,
{
    reveal(spec_collides);
    lemma_block_bounds(piece_type, rotation, 0);
    assert(!cell_blocked(board, x + block(piece_type, rotation, 0).0, y + block(piece_type, rotation, 0).1));
}

/// Every cell of the board is empty.
pub open spec fn board_empty(board: Board) -> bool {
    forall|r: int, c: int| 0 <= r < BOARD_ROWS && 0 <= c < BOARD_COLS ==> #[trigger] board@[r]@[c].0 == 0
}

/// Every block of a piece anchored at `(x, y)` lies on the playfield.
pub open spec fn piece_on_board(x: int, y: int, piece_type: u8, rotation: u8) -> bool {
    forall|i: int|
        0 <= i < 4 ==> 0 <= x + (#[trigger] block(piece_type, rotation, i)).0 < BOARD_COLS && 0 <= y
            + block(piece_type, rotation, i).1 < BOARD_ROWS
}

/// On an empty board a piece collides exactly when some block leaves the playfield.
pub proof fn lemma_collides_on_empty_board(x: int, y: int, piece_type: u8, rotation: u8, board: Board)
    requires
        board_empty(board),
    ensures
        spec_collides(x, y, piece_type, rotation, board) <==> !piece_on_board(x, y, piece_type, rotation),
{
    reveal(spec_collides);
    if !piece_on_board(x, y, piece_type, rotation) {
        let i = choose|i: int|
            0 <= i < 4 && !(0 <= x + (#[trigger] block(piece_type, rotation, i)).0 < BOARD_COLS && 0 <= y
                + block(piece_type, rotation, i).1 < BOARD_ROWS);
        assert(cell_blocked(board, x + block(piece_type, rotation, i).0, y + block(piece_type, rotation, i).1));
    }
}

/// The O piece has the same blocks in all four rotations, so turning it never moves it.
pub proof fn lemma_o_piece_rotation_invariant(rotation: u8, i: int)
    requires
        rotation < 4,
        0 <= i < 4,
    ensures
        block(3, rotation, i) == block(3, 0, i),
{
}

/// Whether a piece at `(x, y)` cannot descend another row.
pub open spec fn lands(x: int, y: int, piece_type: u8, rotation: u8, board: Board) -> bool {
    spec_collides(x, y + 1, piece_type, rotation, board)
}

/// `g` is the row a piece dropped straight down from `(x, y)` comes to rest on: the first
/// row at or below `y` from which it cannot descend further.
pub open spec fn is_ghost_row(x: int, y: int, piece_type: u8, rotation: u8, board: Board, g: int) -> bool {
    &&& y <= g
    &&& lands(x, g, piece_type, rotation, board)
    &&& forall|k: int| y <= k < g ==> !#[trigger] lands(x, k, piece_type, rotation, board)
}

/// The row a hard drop from `(x, y)` ends on.
pub open spec fn spec_ghost_y(x: int, y: int, piece_type: u8, rotation: u8, board: Board) -> int {
    choose|g: int| is_ghost_row(x, y, piece_type, rotation, board, g)
}

/// At most one row satisfies `is_ghost_row`.
pub proof fn lemma_ghost_row_unique(x: int, y: int, piece_type: u8, rotation: u8, board: Board, g1: int, g2: int)
    requires
        is_ghost_row(x, y, piece_type, rotation, board, g1),
        is_ghost_row(x, y, piece_type, rotation, board, g2),
    ensures
        g1 == g2,
{
    if g1 < g2 {
        assert(!lands(x, g1, piece_type, rotation, board));
    } else if g2 < g1 {
        assert(!lands(x, g2, piece_type, rotation, board));
    }
}

/// A hard drop from any row ends on a row: never above the start, and never below row 19
/// unless the piece already stands lower.
pub proof fn lemma_ghost_row_exists(x: int, y: int, piece_type: u8, rotation: u8, board: Board)
    requires
        piece_type < 7,
        rotation < 4,
    ensures
        is_ghost_row(x, y, piece_type, rotation, board, spec_ghost_y(x, y, piece_type, rotation, board)),
        y <= spec_ghost_y(x, y, piece_type, rotation, board),
        spec_ghost_y(x, y, piece_type, rotation, board) <= y || spec_ghost_y(x, y, piece_type, rotation, board) <= 19,
    decreases 20 - y,
{
    let g = spec_ghost_y(x, y, piece_type, rotation, board);
    if lands(x, y, piece_type, rotation, board) {
        assert(is_ghost_row(x, y, piece_type, rotation, board, y));
        lemma_ghost_row_unique(x, y, piece_type, rotation, board, g, y);
    } else {
        lemma_free_anchor_bounds(x, y + 1, piece_type, rotation, board);
        lemma_ghost_row_exists(x, y + 1, piece_type, rotation, board);
        let g1 = spec_ghost_y(x, y + 1, piece_type, rotation, board);
        assert(is_ghost_row(x, y, piece_type, rotation, board, g1));
        lemma_ghost_row_unique(x, y, piece_type, rotation, board, g, g1);
    }
}

/// Compute the ghost piece row (hard-drop preview) by dropping the piece from `piece_y`
/// until one more row down would collide. The result is never above `piece_y`, and never
/// below row 19 unless the piece already stands there.
pub fn ghost_y(piece_x: i8, piece_y: i8, piece_type: u8, rotation: u8, board: &Board) -> (r: i8)
    requires
        piece_type < 7,
        rotation < 4,
    ensures
        is_ghost_row(piece_x as int, piece_y as int, piece_type, rotation, *board, r as int),
        r as int == spec_ghost_y(piece_x as int, piece_y as int, piece_type, rotation, *board),
        piece_y <= r,
        r <= piece_y || r <= 19,
{
    let x: i16 = piece_x as i16;
    let mut gy: i16 = piece_y as i16;
    while !collides_at(x, gy + 1, piece_type, rotation, board)
        invariant
            piece_type < 7,
            rotation < 4,
            x == piece_x,
            piece_y <= gy,
            gy <= piece_y || gy <= 19,
            forall|k: int| piece_y <= k < gy ==> !#[trigger] lands(x as int, k, piece_type, rotation, *board),
        decreases 200 - gy,
    {
        proof {
            lemma_free_anchor_bounds(x as int, gy + 1, piece_type, rotation, *board);
            assert(!lands(x as int, gy as int, piece_type, rotation, *board));
        }
        gy = gy + 1;
    }
    proof {
        assert(is_ghost_row(x as int, piece_y as int, piece_type, rotation, *board, gy as int));
        let g = spec_ghost_y(x as int, piece_y as int, piece_type, rotation, *board);
        lemma_ghost_row_unique(x as int, piece_y as int, piece_type, rotation, *board, g, gy as int);
    }
    gy as i8
}

} // verus!

