use vstd::prelude::*;
use super::{InputDecoderChip, LogicChip};
use crate::bus::{InputPins, SystemBus, Wires};

verus! {

/// The wires the decoder drives from the pins and the key states latched last tick:
/// a fresh press of Up or x rotates clockwise, of z counter-clockwise, of Space hard
/// drops, of c holds and of Enter pauses; holding Down asks for a one-row drop.
pub open spec fn decoded_wires(pins: InputPins, bus: SystemBus) -> Wires {
    let w = bus.wires;
    Wires {
        dy: if pins.key_down { 1 } else { w.dy },
        rotate_cw: (pins.key_up && !bus.prev_key_up) || (pins.key_x && !bus.prev_key_x),
        rotate_ccw: pins.key_z && !bus.prev_key_z,
        hard_drop_requested: pins.key_space && !bus.prev_key_space,
        hold_requested: pins.key_c && !bus.prev_key_c,
        pause_requested: pins.key_enter && !bus.prev_key_enter,
        ..w
    }
}

fn decode(pins: &InputPins, bus: &SystemBus) -> (r: Wires)
    ensures
        r == decoded_wires(*pins, *bus),
{
    let mut w = bus.wires;
    if pins.key_down {
        w.dy = 1;
    }
    w.rotate_cw = (pins.key_up && !bus.prev_key_up) || (pins.key_x && !bus.prev_key_x);
    w.rotate_ccw = pins.key_z && !bus.prev_key_z;
    w.hard_drop_requested = pins.key_space && !bus.prev_key_space;
    w.hold_requested = pins.key_c && !bus.prev_key_c;
    w.pause_requested = pins.key_enter && !bus.prev_key_enter;
    w
}

impl LogicChip for InputDecoderChip {
    open spec fn can_tick(&self, pins: InputPins, bus: SystemBus) -> bool {
        true
    }

    /// Turns key press edges into request wires; no register changes.
    open spec fn ticked(&self, pins: InputPins, bus: SystemBus) -> SystemBus {
        SystemBus { wires: decoded_wires(pins, bus), ..bus }
    }

    fn tick(&self, pins: &InputPins, bus: &mut SystemBus) {
        let w = decode(pins, bus);
        *bus = SystemBus { wires: w, ..*bus };
    }
}

} // verus!
