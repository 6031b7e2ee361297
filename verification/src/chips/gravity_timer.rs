use vstd::prelude::*;
use super::{GravityTimerChip, LogicChip};
use crate::bus::{InputPins, SystemBus, Wires};

verus! {

/// The wires raised when gravity pulls the piece down a row.
pub open spec fn gravity_wires(w: Wires) -> Wires {
    Wires { gravity_tick: true, dy: 1, ..w }
}

fn set_gravity_wires(w: Wires) -> (r: Wires)
    ensures
        r == gravity_wires(w),
{
    let mut r = w;
    r.gravity_tick = true;
    r.dy = 1;
    r
}

impl LogicChip for GravityTimerChip {
    /// Needs a positive gravity period.
    open spec fn can_tick(&self, pins: InputPins, bus: SystemBus) -> bool {
        bus.gravity_interval_ns > 0
    }

    /// Adds the elapsed time to the accumulator (saturating); when at least one whole
    /// period has accumulated, raises `gravity_tick` and `dy = 1` and keeps only the
    /// remainder.
    open spec fn ticked(&self, pins: InputPins, bus: SystemBus) -> SystemBus {
        let acc = bus.gravity_accumulator_ns.saturating_add(pins.frame_delta_ns);
        if acc >= bus.gravity_interval_ns {
            SystemBus {
                gravity_accumulator_ns: (acc % bus.gravity_interval_ns) as u64,
                wires: gravity_wires(bus.wires),
                ..bus
            }
        } else {
            SystemBus { gravity_accumulator_ns: acc, ..bus }
        }
    }

    fn tick(&self, pins: &InputPins, bus: &mut SystemBus) {
        let acc0 = bus.gravity_accumulator_ns.saturating_add(pins.frame_delta_ns);
        let interval = bus.gravity_interval_ns;
        let mut acc = acc0;
        let mut fired = false;
        while acc >= interval
            invariant
                interval > 0,
                acc <= acc0,
                acc % interval == acc0 % interval,
                fired ==> acc0 >= interval,
                !fired ==> acc == acc0,
            decreases acc,
        {
            proof {
                vstd::arithmetic::div_mod::lemma_mod_sub_multiples_vanish(acc as int, interval as int);
            }
            fired = true;
            acc = acc - interval;
        }
        proof {
            vstd::arithmetic::div_mod::lemma_small_mod(acc as nat, interval as nat);
        }
        if fired {
            let w = set_gravity_wires(bus.wires);
            *bus = SystemBus { gravity_accumulator_ns: acc, wires: w, ..*bus };
        } else {
            *bus = SystemBus { gravity_accumulator_ns: acc, ..*bus };
        }
    }
}

} // verus!
