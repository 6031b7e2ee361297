use vstd::prelude::*;
use super::{LockDelayTimerChip, LogicChip};
use crate::bus::{InputPins, SystemBus, Wires};

verus! {

/// The piece rests on something and nothing pulls it down this tick.
pub open spec fn cannot_fall(w: Wires) -> bool {
    w.collision_down && w.dy == 0
}

/// A move, drop or rotation was requested this tick.
pub open spec fn moved(w: Wires) -> bool {
    w.dx != 0 || w.dy != 0 || w.rotate_cw || w.rotate_ccw
}

/// The lock-delay wires with the given state.
pub open spec fn lock_delay_wires(w: Wires, active: bool, expired: bool) -> Wires {
    Wires { lock_delay_active: active, lock_delay_expired: expired, ..w }
}

fn set_lock_delay_wires(w: Wires, active: bool, expired: bool) -> (r: Wires)
    ensures
        r == lock_delay_wires(w, active, expired),
{
    let mut r = w;
    r.lock_delay_active = active;
    r.lock_delay_expired = expired;
    r
}

impl LogicChip for LockDelayTimerChip {
    open spec fn can_tick(&self, pins: InputPins, bus: SystemBus) -> bool {
        true
    }

    /// A requested move while the piece can still fall resets the timer; a resting piece
    /// that is not yet locked accumulates time (saturating) and marks the delay expired
    /// once it reaches `lock_delay_max_ns`; otherwise the timer resets.
    open spec fn ticked(&self, pins: InputPins, bus: SystemBus) -> SystemBus {
        let w = bus.wires;
        if moved(w) && !cannot_fall(w) {
            SystemBus { lock_delay_accumulator_ns: 0, wires: lock_delay_wires(w, false, false), ..bus }
        } else if cannot_fall(w) && !w.piece_locked {
            let acc = bus.lock_delay_accumulator_ns.saturating_add(pins.frame_delta_ns);
            SystemBus {
                lock_delay_accumulator_ns: acc,
                wires: lock_delay_wires(w, true, acc >= bus.lock_delay_max_ns || w.lock_delay_expired),
                ..bus
            }
        } else {
            SystemBus { lock_delay_accumulator_ns: 0, wires: lock_delay_wires(w, false, false), ..bus }
        }
    }

    fn tick(&self, pins: &InputPins, bus: &mut SystemBus) {
        let cannot_fall = bus.wires.collision_down && bus.wires.dy == 0;
        let moved = bus.wires.dx != 0 || bus.wires.dy != 0 || bus.wires.rotate_cw
            || bus.wires.rotate_ccw;
        if moved && !cannot_fall {
            let w = set_lock_delay_wires(bus.wires, false, false);
            *bus = SystemBus { lock_delay_accumulator_ns: 0, wires: w, ..*bus };
        } else if cannot_fall && !bus.wires.piece_locked {
            let acc = bus.lock_delay_accumulator_ns.saturating_add(pins.frame_delta_ns);
            let expired = if acc >= bus.lock_delay_max_ns {
                true
            } else {
                bus.wires.lock_delay_expired
            };
            let w = set_lock_delay_wires(bus.wires, true, expired);
            *bus = SystemBus { lock_delay_accumulator_ns: acc, wires: w, ..*bus };
        } else {
            let w = set_lock_delay_wires(bus.wires, false, false);
            *bus = SystemBus { lock_delay_accumulator_ns: 0, wires: w, ..*bus };
        }
    }
}

} // verus!
