use vstd::prelude::*;
use super::{LogicChip, RotationChip};
use super::tetrominoes::{
    block, board_empty, collides, collides_at, kick, lemma_block_bounds,
    lemma_collides_on_empty_board, lemma_free_anchor_bounds, lemma_kick_bounds, piece_on_board,
    spec_collides, I_KICKS, JLSTZ_KICKS,
};
use crate::bus::{Board, InputPins, SystemBus, Wires};

verus! {

/// The rotation state a requested turn leads to: one step clockwise when `rotate_cw` is
/// set, otherwise one step counter-clockwise.
pub open spec fn turn_target(bus: SystemBus) -> u8 {
    if bus.wires.rotate_cw {
        ((bus.piece_rotation + 1) % 4) as u8
    } else {
        ((bus.piece_rotation + 3) % 4) as u8
    }
}

/// The index of the first wall-kick test, at or after `test`, that places the turned
/// piece without collision.
pub open spec fn first_fit(
    x: int,
    y: int,
    piece_type: u8,
    from: u8,
    to: u8,
    board: Board,
    test: int,
) -> Option<int>
    decreases 5 - test,
{
    if test >= 5 || test < 0 {
        None
    } else if !spec_collides(
        x + kick(piece_type, from, to, test).0,
        y + kick(piece_type, from, to, test).1,
        piece_type,
        to,
        board,
    ) {
        Some(test)
    } else {
        first_fit(x, y, piece_type, from, to, board, test + 1)
    }
}

/// The kick that `first_fit` picks is one of the five tests and places the piece
/// without collision.
pub proof fn lemma_first_fit_fits(x: int, y: int, piece_type: u8, from: u8, to: u8, board: Board, test: int)
    requires
        first_fit(x, y, piece_type, from, to, board, test) is Some,
    ensures
        ({
            let k = first_fit(x, y, piece_type, from, to, board, test)->0;
            &&& 0 <= k < 5
            &&& !spec_collides(
                x + kick(piece_type, from, to, k).0,
                y + kick(piece_type, from, to, k).1,
                piece_type,
                to,
                board,
            )
        }),
    decreases 5 - test,
{
    if 0 <= test < 5 && spec_collides(
        x + kick(piece_type, from, to, test).0,
        y + kick(piece_type, from, to, test).1,
        piece_type,
        to,
        board,
    ) {
        lemma_first_fit_fits(x, y, piece_type, from, to, board, test + 1);
    }
}

/// The wires after a successful turn.
pub open spec fn turn_wires(w: Wires, kicked: bool) -> Wires {
    Wires { collision_any: false, wall_kick_applied: kicked, render_dirty: true, ..w }
}

/// The wires after a successful turn of the O piece, which never kicks.
pub open spec fn o_turn_wires(w: Wires) -> Wires {
    Wires { collision_any: false, render_dirty: true, ..w }
}

fn set_turn_wires(w: Wires, kicked: bool) -> (r: Wires)
    ensures
        r == turn_wires(w, kicked),
{
    let mut r = w;
    r.collision_any = false;
    r.wall_kick_applied = kicked;
    r.render_dirty = true;
    r
}

fn set_o_turn_wires(w: Wires) -> (r: Wires)
    ensures
        r == o_turn_wires(w),
{
    let mut r = w;
    r.collision_any = false;
    r.render_dirty = true;
    r
}

/// Try the five wall-kick tests in order and return the first that fits.
fn find_kick(x: i8, y: i8, piece_type: u8, from: u8, to: u8, board: &Board) -> (r: Option<usize>)
    requires
        piece_type < 7,
        from < 4,
        to < 4,
    ensures
        r matches Some(k) ==> k < 5 && !spec_collides(
            x + kick(piece_type, from, to, k as int).0,
            y + kick(piece_type, from, to, k as int).1,
            piece_type,
            to,
            *board,
        ),
        r matches Some(k) ==> first_fit(x as int, y as int, piece_type, from, to, *board, 0) == Some(k as int),
        r is None ==> first_fit(x as int, y as int, piece_type, from, to, *board, 0) is None,
{
    let kicks = if piece_type == 0 {
        I_KICKS[from as usize][to as usize]
    } else {
        JLSTZ_KICKS[from as usize][to as usize]
    };
    let mut i: usize = 0;
    while i < 5
        invariant
            0 <= i <= 5,
            piece_type < 7,
            from < 4,
            to < 4,
            forall|j: int| 0 <= j < 5 ==> #[trigger] kicks@[j] == kick(piece_type, from, to, j),
            first_fit(x as int, y as int, piece_type, from, to, *board, 0)
                == first_fit(x as int, y as int, piece_type, from, to, *board, i as int),
        decreases 5 - i,
    {
        let (dx, dy) = kicks[i];
        assert((dx, dy) == kick(piece_type, from, to, i as int));
        proof {
            lemma_kick_bounds(piece_type, from, to, i as int);
        }
        let tx: i16 = x as i16 + dx as i16;
        let ty: i16 = y as i16 + dy as i16;
        if !collides_at(tx, ty, piece_type, to, board) {
            return Some(i);
        }
        i = i + 1;
    }
    None
}

impl LogicChip for RotationChip {
    /// On a turn request the active piece must index the shape table.
    open spec fn can_tick(&self, pins: InputPins, bus: SystemBus) -> bool {
        (bus.wires.rotate_cw || bus.wires.rotate_ccw) ==> bus.piece_type.0 < 7 && bus.piece_rotation < 4
    }

    /// On a turn request: the O piece turns in place when it fits; any other piece takes
    /// the first SRS wall-kick offset that fits. When nothing fits the piece stays as is.
    open spec fn ticked(&self, pins: InputPins, bus: SystemBus) -> SystemBus {
        let to = turn_target(bus);
        let pt = bus.piece_type.0;
        if !bus.wires.rotate_cw && !bus.wires.rotate_ccw {
            bus
        } else if pt == 3 {
            if !spec_collides(bus.piece_x as int, bus.piece_y as int, pt, to, bus.board) {
                SystemBus { piece_rotation: to, wires: o_turn_wires(bus.wires), ..bus }
            } else {
                bus
            }
        } else {
            match first_fit(bus.piece_x as int, bus.piece_y as int, pt, bus.piece_rotation, to, bus.board, 0) {
                Some(k) => {
                    let (dx, dy) = kick(pt, bus.piece_rotation, to, k);
                    SystemBus {
                        piece_x: (bus.piece_x + dx) as i8,
                        piece_y: (bus.piece_y + dy) as i8,
                        piece_rotation: to,
                        wires: turn_wires(bus.wires, dx != 0 || dy != 0),
                        ..bus
                    }
                },
                None => bus,
            }
        }
    }

    #[verifier::spinoff_prover]
    #[verifier::rlimit(40)]
    fn tick(&self, _pins: &InputPins, bus: &mut SystemBus) {
        if !bus.wires.rotate_cw && !bus.wires.rotate_ccw {
            return;
        }
        let from_rot = bus.piece_rotation as usize;
        let cw_next: usize = from_rot + 1;
        let ccw_next: usize = from_rot + 3;
        assert(cw_next & 3 == cw_next % 4) by (bit_vector)
            requires
                cw_next < 8,
        ;
        assert(ccw_next & 3 == ccw_next % 4) by (bit_vector)
            requires
                ccw_next < 8,
        ;
        let to_rot = if bus.wires.rotate_cw {
            cw_next & 3
        } else {
            ccw_next & 3
        };
        let pt = bus.piece_type.0 as usize;

        if pt == 3 {
            if !collides(bus.piece_x, bus.piece_y, pt as u8, to_rot as u8, &bus.board) {
                let w = set_o_turn_wires(bus.wires);
                *bus = SystemBus { piece_rotation: to_rot as u8, wires: w, ..*bus };
            }
            return;
        }

        match find_kick(bus.piece_x, bus.piece_y, pt as u8, from_rot as u8, to_rot as u8, &bus.board) {
            Some(k) => {
                let (dx, dy) = if pt == 0 {
                    I_KICKS[from_rot][to_rot][k]
                } else {
                    JLSTZ_KICKS[from_rot][to_rot][k]
                };
                let test_x: i16 = bus.piece_x as i16 + dx as i16;
                let test_y: i16 = bus.piece_y as i16 + dy as i16;
                proof {
                    lemma_free_anchor_bounds(test_x as int, test_y as int, pt as u8, to_rot as u8, bus.board);
                }
                let w = set_turn_wires(bus.wires, dx != 0 || dy != 0);
                *bus = SystemBus {
                    piece_x: test_x as i8,
                    piece_y: test_y as i8,
                    piece_rotation: to_rot as u8,
                    wires: w,
                    ..*bus
                };
            },
            None => {},
        }
    }
}

/// The first wall-kick test of a quarter turn moves the piece at most one cell along each
/// axis, and the first test of the opposite turn moves it back.
proof fn lemma_first_kicks_cancel(piece_type: u8, from: u8, to: u8)
    requires
        from < 4,
        to == (from + 1) % 4,
    ensures
        kick(piece_type, from, to, 0).0 == -kick(piece_type, to, from, 0).0,
        kick(piece_type, from, to, 0).1 == -kick(piece_type, to, from, 0).1,
        -1 <= kick(piece_type, from, to, 0).0 <= 1,
        -1 <= kick(piece_type, from, to, 0).1 <= 1,
{
    if from == 0 {
        assert(to == 1);
    } else if from == 1 {
        assert(to == 2);
    } else if from == 2 {
        assert(to == 3);
    } else {
        assert(to == 0);
    }
}

/// On open ground a counter-clockwise turn undoes a clockwise one: with nothing on the
/// board and the piece clear of the walls and the floor, turning clockwise and then
/// counter-clockwise returns the piece to its position and rotation.
pub proof fn lemma_ccw_undoes_cw(pins: InputPins, bus: SystemBus)
    requires
        board_empty(bus.board),
        bus.piece_type.0 < 7,
        bus.piece_rotation < 4,
        2 <= bus.piece_x <= 4,
        2 <= bus.piece_y <= 14,
        bus.wires.rotate_cw,
    ensures
        ({
            let a = RotationChip.ticked(pins, bus);
            let turned_back = SystemBus {
                wires: Wires { rotate_cw: false, rotate_ccw: true, ..a.wires },
                ..a
            };
            let b = RotationChip.ticked(pins, turned_back);
            &&& a.piece_rotation == (bus.piece_rotation + 1) % 4
            &&& (b.piece_x, b.piece_y, b.piece_rotation) == (bus.piece_x, bus.piece_y, bus.piece_rotation)
        }),
{
    let pt = bus.piece_type.0;
    let x = bus.piece_x as int;
    let y = bus.piece_y as int;
    let r0 = bus.piece_rotation;
    let r1 = ((r0 + 1) % 4) as u8;
    assert forall|rot: u8| rot < 4 implies piece_on_board(x, y, pt, rot) by {
        assert forall|i: int| 0 <= i < 4 implies 0 <= x + (#[trigger] block(pt, rot, i)).0 < 10 && 0 <= y
            + block(pt, rot, i).1 < 20 by {
            lemma_block_bounds(pt, rot, i);
        }
    }
    lemma_collides_on_empty_board(x, y, pt, r1, bus.board);
    lemma_collides_on_empty_board(x, y, pt, r0, bus.board);
    lemma_first_kicks_cancel(pt, r0, r1);
    let k = kick(pt, r0, r1, 0);
    let x1 = x + k.0;
    let y1 = y + k.1;
    assert forall|rot: u8| rot < 4 implies piece_on_board(x1, y1, pt, rot) by {
        assert forall|i: int| 0 <= i < 4 implies 0 <= x1 + (#[trigger] block(pt, rot, i)).0 < 10 && 0 <= y1
            + block(pt, rot, i).1 < 20 by {
            lemma_block_bounds(pt, rot, i);
        }
    }
    lemma_collides_on_empty_board(x1, y1, pt, r0, bus.board);
    lemma_collides_on_empty_board(x1, y1, pt, r1, bus.board);
    let a = RotationChip.ticked(pins, bus);
    if pt == 3 {
        assert(a.piece_x == bus.piece_x && a.piece_y == bus.piece_y && a.piece_rotation == r1);
    } else {
        assert(first_fit(x, y, pt, r0, r1, bus.board, 0) == Some(0int));
        assert(a.piece_x == x1 && a.piece_y == y1 && a.piece_rotation == r1);
        assert(turn_target(SystemBus { wires: Wires { rotate_cw: false, rotate_ccw: true, ..a.wires }, ..a }) == r0);
        assert(first_fit(x1, y1, pt, r1, r0, bus.board, 0) == Some(0int));
    }
}

} // verus!
