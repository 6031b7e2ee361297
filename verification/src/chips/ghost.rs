use vstd::prelude::*;
use super::{GhostComputerChip, LogicChip};
use super::tetrominoes::{ghost_y, spec_ghost_y};
use crate::bus::{InputPins, SystemBus};

verus! {

impl LogicChip for GhostComputerChip {
    /// Runs whenever the active piece indexes the shape table.
    open spec fn can_tick(&self, pins: InputPins, bus: SystemBus) -> bool {
        bus.piece_type.0 < 7 && bus.piece_rotation < 4
    }

    /// Places the ghost piece in the active piece's column, on the row a hard drop
    /// would end on.
    open spec fn ticked(&self, pins: InputPins, bus: SystemBus) -> SystemBus {
        SystemBus {
            ghost_x: bus.piece_x,
            ghost_y: spec_ghost_y(bus.piece_x as int, bus.piece_y as int, bus.piece_type.0, bus.piece_rotation, bus.board) as i8,
            ..bus
        }
    }

    fn tick(&self, _pins: &InputPins, bus: &mut SystemBus) {
        let gy = ghost_y(bus.piece_x, bus.piece_y, bus.piece_type.0, bus.piece_rotation, &bus.board);
        *bus = SystemBus { ghost_x: bus.piece_x, ghost_y: gy, ..*bus };
    }
}

} // verus!
