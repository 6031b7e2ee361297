use vstd::prelude::*;
use super::{CollisionDetectorChip, LogicChip};
use super::tetrominoes::{collides, collides_at, spec_collides};
use crate::bus::{InputPins, SystemBus, Wires};

verus! {

/// The wires with both collision probes set.
pub open spec fn collision_wires(w: Wires, any: bool, down: bool) -> Wires {
    Wires { collision_any: any, collision_down: down, ..w }
}

fn set_collision_wires(w: Wires, any: bool, down: bool) -> (r: Wires)
    ensures
        r == collision_wires(w, any, down),
{
    let mut r = w;
    r.collision_any = any;
    r.collision_down = down;
    r
}

impl LogicChip for CollisionDetectorChip {
    /// Runs whenever the active piece indexes the shape table.
    open spec fn can_tick(&self, pins: InputPins, bus: SystemBus) -> bool {
        bus.piece_type.0 < 7 && bus.piece_rotation < 4
    }

    /// Reports whether the active piece overlaps anything where it stands
    /// (`collision_any`) and one row below (`collision_down`).
    open spec fn ticked(&self, pins: InputPins, bus: SystemBus) -> SystemBus {
        SystemBus {
            wires: collision_wires(
                bus.wires,
                spec_collides(bus.piece_x as int, bus.piece_y as int, bus.piece_type.0, bus.piece_rotation, bus.board),
                spec_collides(bus.piece_x as int, bus.piece_y + 1, bus.piece_type.0, bus.piece_rotation, bus.board),
            ),
            ..bus
        }
    }

    fn tick(&self, _pins: &InputPins, bus: &mut SystemBus) {
        let px = bus.piece_x;
        let py = bus.piece_y;
        let pt = bus.piece_type.0;
        let pr = bus.piece_rotation;
        let any = collides(px, py, pt, pr, &bus.board);
        let down = collides_at(px as i16, py as i16 + 1, pt, pr, &bus.board);
        let w = set_collision_wires(bus.wires, any, down);
        bus.wires = w;
    }
}

} // verus!
