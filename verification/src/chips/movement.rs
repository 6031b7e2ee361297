use vstd::prelude::*;
use super::{LogicChip, MovementChip};
use super::tetrominoes::{collides_at, ghost_y, lemma_free_anchor_bounds, spec_collides, spec_ghost_y};
use crate::bus::{InputPins, SystemBus, Wires};

verus! {

/// The wires after the piece moved by one step.
pub open spec fn moved_wires(w: Wires) -> Wires {
    Wires { collision_any: false, render_dirty: true, ..w }
}

/// The wires after a hard drop: the piece locks this tick.
pub open spec fn hard_drop_wires(w: Wires) -> Wires {
    Wires { piece_locked: true, render_dirty: true, ..w }
}

/// The wires with the resting probe set.
pub open spec fn down_wires(w: Wires, down: bool) -> Wires {
    Wires { collision_down: down, ..w }
}

fn set_moved_wires(w: Wires) -> (r: Wires)
    ensures
        r == moved_wires(w),
{
    let mut r = w;
    r.collision_any = false;
    r.render_dirty = true;
    r
}

fn set_hard_drop_wires(w: Wires) -> (r: Wires)
    ensures
        r == hard_drop_wires(w),
{
    let mut r = w;
    r.piece_locked = true;
    r.render_dirty = true;
    r
}

fn set_down_wires(w: Wires, down: bool) -> (r: Wires)
    ensures
        r == down_wires(w, down),
{
    let mut r = w;
    r.collision_down = down;
    r
}

/// Horizontal step: move by `dx` when requested and the target is free.
pub open spec fn shift_stage(bus: SystemBus) -> SystemBus {
    let nx = bus.piece_x + bus.wires.dx;
    if bus.wires.dx != 0 && !spec_collides(nx, bus.piece_y as int, bus.piece_type.0, bus.piece_rotation, bus.board) {
        SystemBus { piece_x: nx as i8, wires: moved_wires(bus.wires), ..bus }
    } else {
        bus
    }
}

/// Vertical step: drop one row on a soft drop or gravity tick when the row below is free.
pub open spec fn drop_stage(bus: SystemBus) -> SystemBus {
    let ny = bus.piece_y + 1;
    if (bus.wires.dy != 0 || bus.wires.gravity_tick) && !spec_collides(
        bus.piece_x as int,
        ny,
        bus.piece_type.0,
        bus.piece_rotation,
        bus.board,
    ) {
        SystemBus { piece_y: ny as i8, wires: moved_wires(bus.wires), ..bus }
    } else {
        bus
    }
}

/// Re-probe whether the piece rests on something at its final position.
pub open spec fn settle_stage(bus: SystemBus) -> SystemBus {
    SystemBus {
        wires: down_wires(
            bus.wires,
            spec_collides(bus.piece_x as int, bus.piece_y + 1, bus.piece_type.0, bus.piece_rotation, bus.board),
        ),
        ..bus
    }
}

fn shift(bus: SystemBus) -> (r: SystemBus)
    requires
        bus.piece_type.0 < 7,
        bus.piece_rotation < 4,
    ensures
        r == shift_stage(bus),
{
    let dx = bus.wires.dx;
    if dx != 0 {
        let new_x: i16 = bus.piece_x as i16 + dx as i16;
        if !collides_at(new_x, bus.piece_y as i16, bus.piece_type.0, bus.piece_rotation, &bus.board) {
            proof {
                lemma_free_anchor_bounds(new_x as int, bus.piece_y as int, bus.piece_type.0, bus.piece_rotation, bus.board);
            }
            let w = set_moved_wires(bus.wires);
            return SystemBus { piece_x: new_x as i8, wires: w, ..bus };
        }
    }
    bus
}

fn drop_row(bus: SystemBus) -> (r: SystemBus)
    requires
        bus.piece_type.0 < 7,
        bus.piece_rotation < 4,
    ensures
        r == drop_stage(bus),
{
    let should_drop = bus.wires.dy != 0 || bus.wires.gravity_tick;
    if should_drop {
        let new_y: i16 = bus.piece_y as i16 + 1;
        if !collides_at(bus.piece_x as i16, new_y, bus.piece_type.0, bus.piece_rotation, &bus.board) {
            proof {
                lemma_free_anchor_bounds(bus.piece_x as int, new_y as int, bus.piece_type.0, bus.piece_rotation, bus.board);
            }
            let w = set_moved_wires(bus.wires);
            return SystemBus { piece_y: new_y as i8, wires: w, ..bus };
        }
    }
    bus
}

fn settle(bus: SystemBus) -> (r: SystemBus)
    requires
        bus.piece_type.0 < 7,
        bus.piece_rotation < 4,
    ensures
        r == settle_stage(bus),
{
    let down = collides_at(bus.piece_x as i16, bus.piece_y as i16 + 1, bus.piece_type.0, bus.piece_rotation, &bus.board);
    let w = set_down_wires(bus.wires, down);
    SystemBus { wires: w, ..bus }
}

impl LogicChip for MovementChip {
    /// Runs whenever the active piece indexes the shape table.
    open spec fn can_tick(&self, pins: InputPins, bus: SystemBus) -> bool {
        bus.piece_type.0 < 7 && bus.piece_rotation < 4
    }

    /// A hard drop moves the piece to its ghost row and locks it. Otherwise the piece
    /// shifts horizontally, then drops a row, each only when the target is free, and the
    /// resting probe is refreshed.
    open spec fn ticked(&self, pins: InputPins, bus: SystemBus) -> SystemBus {
        if bus.wires.hard_drop_requested {
            SystemBus {
                piece_y: spec_ghost_y(bus.piece_x as int, bus.piece_y as int, bus.piece_type.0, bus.piece_rotation, bus.board) as i8,
                wires: hard_drop_wires(bus.wires),
                ..bus
            }
        } else {
            settle_stage(drop_stage(shift_stage(bus)))
        }
    }

    fn tick(&self, _pins: &InputPins, bus: &mut SystemBus) {
        let pt = bus.piece_type.0;
        let pr = bus.piece_rotation;

        if bus.wires.hard_drop_requested {
            let gy = ghost_y(bus.piece_x, bus.piece_y, pt, pr, &bus.board);
            let w = set_hard_drop_wires(bus.wires);
            *bus = SystemBus { piece_y: gy, wires: w, ..*bus };
            return;
        }

        let shifted = shift(*bus);
        let dropped = drop_row(shifted);
        *bus = settle(dropped);
    }
}

} // verus!
