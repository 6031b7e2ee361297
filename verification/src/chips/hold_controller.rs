use vstd::prelude::*;
use super::{HoldControllerChip, LogicChip};
use crate::bus::{InputPins, PieceType, SystemBus, Wires};

verus! {

/// The piece kind a hold draws when the hold slot was empty: one step of the generator
/// applied to the current state, taken without advancing it.
pub open spec fn hold_draw(state: u32) -> u8 {
    ((state.wrapping_mul(1664525).wrapping_add(1013904223) >> 16u32) as u8 % 7) as u8
}

/// The wires asking for a redraw.
pub open spec fn hold_wires(w: Wires) -> Wires {
    Wires { render_dirty: true, ..w }
}

fn set_hold_wires(w: Wires) -> (r: Wires)
    ensures
        r == hold_wires(w),
{
    let mut r = w;
    r.render_dirty = true;
    r
}

impl LogicChip for HoldControllerChip {
    open spec fn can_tick(&self, pins: InputPins, bus: SystemBus) -> bool {
        true
    }

    /// On a hold request, once per spawn: the active piece goes to the hold slot and the
    /// held piece (or, with an empty slot, the next piece, whose place a fresh draw takes)
    /// becomes active at the spawn position.
    open spec fn ticked(&self, pins: InputPins, bus: SystemBus) -> SystemBus {
        if !bus.wires.hold_requested || bus.hold_used {
            bus
        } else {
            match bus.hold_piece_type {
                Some(held) => SystemBus {
                    piece_type: held,
                    hold_piece_type: Some(bus.piece_type),
                    hold_used: true,
                    piece_x: 3,
                    piece_y: 0,
                    piece_rotation: 0,
                    wires: hold_wires(bus.wires),
                    ..bus
                },
                None => SystemBus {
                    piece_type: bus.next_piece_type,
                    next_piece_type: PieceType(hold_draw(bus.prng_state)),
                    hold_piece_type: Some(bus.piece_type),
                    hold_used: true,
                    piece_x: 3,
                    piece_y: 0,
                    piece_rotation: 0,
                    wires: hold_wires(bus.wires),
                    ..bus
                },
            }
        }
    }

    fn tick(&self, _pins: &InputPins, bus: &mut SystemBus) {
        if !bus.wires.hold_requested || bus.hold_used {
            return;
        }
        let old_type = bus.piece_type;
        let w = set_hold_wires(bus.wires);
        match bus.hold_piece_type {
            Some(held) => {
                *bus = SystemBus {
                    piece_type: held,
                    hold_piece_type: Some(old_type),
                    hold_used: true,
                    piece_x: 3,
                    piece_y: 0,
                    piece_rotation: 0,
                    wires: w,
                    ..*bus
                };
            },
            None => {
                let drawn = ((bus.prng_state.wrapping_mul(1664525).wrapping_add(1013904223)) >> 16) as u8 % 7;
                *bus = SystemBus {
                    piece_type: bus.next_piece_type,
                    next_piece_type: PieceType(drawn),
                    hold_piece_type: Some(old_type),
                    hold_used: true,
                    piece_x: 3,
                    piece_y: 0,
                    piece_rotation: 0,
                    wires: w,
                    ..*bus
                };
            },
        }
    }
}

/// A hold is allowed once per spawned piece. An honoured request (a request while the
/// hold is unused) puts the active piece in the slot, brings in the held piece (or, with
/// an empty slot, the next one) at the spawn position, and marks the hold as used; so
/// a second request before the next spawn leaves the bus exactly as it is. A request
/// while the hold is used, or no request, changes nothing.
pub proof fn lemma_hold_once_per_piece(pins: InputPins, bus: SystemBus)
    ensures
        ({
            let r = HoldControllerChip.ticked(pins, bus);
            &&& (bus.wires.hold_requested && !bus.hold_used) ==> {
                &&& r.hold_used
                &&& r.hold_piece_type == Some(bus.piece_type)
                &&& r.piece_type == match bus.hold_piece_type {
                    Some(h) => h,
                    None => bus.next_piece_type,
                }
                &&& r.piece_x == 3 && r.piece_y == 0 && r.piece_rotation == 0
                &&& r.board == bus.board
            }
            &&& !(bus.wires.hold_requested && !bus.hold_used) ==> r == bus
            &&& HoldControllerChip.ticked(pins, r).piece_type == r.piece_type
            &&& bus.wires.hold_requested ==> HoldControllerChip.ticked(pins, r) == r
        }),
{
}

} // verus!
