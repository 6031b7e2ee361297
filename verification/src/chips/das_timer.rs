use vstd::prelude::*;
use super::{DasTimerChip, LogicChip};
use crate::bus::{InputPins, SystemBus, Wires};

verus! {

/// The wires of a (delayed) auto-shift step in direction `dx`.
pub open spec fn shift_wires(w: Wires, dx: i8) -> Wires {
    Wires { das_tick: true, dx: dx, ..w }
}

fn set_shift_wires(w: Wires, dx: i8) -> (r: Wires)
    ensures
        r == shift_wires(w, dx),
{
    let mut r = w;
    r.das_tick = true;
    r.dx = dx;
    r
}

/// The wires with no horizontal request.
pub open spec fn still_wires(w: Wires) -> Wires {
    Wires { dx: 0, ..w }
}

fn set_still_wires(w: Wires) -> (r: Wires)
    ensures
        r == still_wires(w),
{
    let mut r = w;
    r.dx = 0;
    r
}

/// A fresh press towards `dir`: shift once immediately and arm auto-repeat.
pub open spec fn das_press(bus: SystemBus, dir: i8) -> SystemBus {
    SystemBus {
        das_accumulator_ns: 0,
        das_active: true,
        das_direction: dir,
        das_last_repeat_index: 0,
        wires: shift_wires(bus.wires, dir),
        ..bus
    }
}

/// A release of either arrow: disarm auto-repeat.
pub open spec fn das_release(bus: SystemBus) -> SystemBus {
    SystemBus {
        das_accumulator_ns: 0,
        das_active: false,
        das_direction: 0,
        das_last_repeat_index: 0,
        wires: still_wires(bus.wires),
        ..bus
    }
}

/// Holding an arrow: accumulate time (saturating); after the initial delay, shift once
/// each time a new repeat period has been completed.
pub open spec fn das_hold(pins: InputPins, bus: SystemBus) -> SystemBus {
    let acc = bus.das_accumulator_ns.saturating_add(pins.frame_delta_ns);
    let repeat_idx = ((acc - bus.das_delay_ns) / (bus.das_repeat_ns as int)) as u32;
    if acc >= bus.das_delay_ns && repeat_idx > bus.das_last_repeat_index {
        SystemBus {
            das_accumulator_ns: acc,
            das_last_repeat_index: repeat_idx,
            wires: shift_wires(bus.wires, bus.das_direction),
            ..bus
        }
    } else {
        SystemBus { das_accumulator_ns: acc, ..bus }
    }
}

/// Whether the tick holds an armed direction past the initial delay, where the number of
/// completed repeat periods is computed.
pub open spec fn das_repeats(pins: InputPins, bus: SystemBus) -> bool {
    let left_pressed = pins.key_left && !bus.prev_key_left;
    let right_pressed = pins.key_right && !bus.prev_key_right;
    let released = (!pins.key_left && bus.prev_key_left) || (!pins.key_right && bus.prev_key_right);
    &&& !left_pressed
    &&& !right_pressed
    &&& !released
    &&& bus.das_active
    &&& bus.das_direction != 0
    &&& bus.das_accumulator_ns.saturating_add(pins.frame_delta_ns) >= bus.das_delay_ns
}

impl LogicChip for DasTimerChip {
    /// Needs a positive repeat period when an armed direction is held past the delay.
    open spec fn can_tick(&self, pins: InputPins, bus: SystemBus) -> bool {
        das_repeats(pins, bus) ==> bus.das_repeat_ns > 0
    }

    /// A new press of left wins over a new press of right; otherwise a new press of right,
    /// a release of either arrow, or holding an armed direction.
    open spec fn ticked(&self, pins: InputPins, bus: SystemBus) -> SystemBus {
        let left_pressed = pins.key_left && !bus.prev_key_left;
        let right_pressed = pins.key_right && !bus.prev_key_right;
        let released = (!pins.key_left && bus.prev_key_left) || (!pins.key_right && bus.prev_key_right);
        if left_pressed {
            das_press(bus, -1i8)
        } else if right_pressed {
            das_press(bus, 1i8)
        } else if released {
            das_release(bus)
        } else if bus.das_active && bus.das_direction != 0 {
            das_hold(pins, bus)
        } else {
            bus
        }
    }

    fn tick(&self, pins: &InputPins, bus: &mut SystemBus) {
        let left = pins.key_left;
        let right = pins.key_right;
        let prev_left = bus.prev_key_left;
        let prev_right = bus.prev_key_right;

        let left_just_pressed = left && !prev_left;
        let right_just_pressed = right && !prev_right;
        let any_released = (!left && prev_left) || (!right && prev_right);

        if left_just_pressed && !right {
            let w = set_shift_wires(bus.wires, -1);
            *bus = SystemBus {
                das_accumulator_ns: 0,
                das_active: true,
                das_direction: -1,
                das_last_repeat_index: 0,
                wires: w,
                ..*bus
            };
        } else if right_just_pressed && !left {
            let w = set_shift_wires(bus.wires, 1);
            *bus = SystemBus {
                das_accumulator_ns: 0,
                das_active: true,
                das_direction: 1,
                das_last_repeat_index: 0,
                wires: w,
                ..*bus
            };
        } else if left_just_pressed && right {
            let w = set_shift_wires(bus.wires, -1);
            *bus = SystemBus {
                das_accumulator_ns: 0,
                das_active: true,
                das_direction: -1,
                das_last_repeat_index: 0,
                wires: w,
                ..*bus
            };
        } else if right_just_pressed && left {
            let w = set_shift_wires(bus.wires, 1);
            *bus = SystemBus {
                das_accumulator_ns: 0,
                das_active: true,
                das_direction: 1,
                das_last_repeat_index: 0,
                wires: w,
                ..*bus
            };
        } else if any_released {
            let w = set_still_wires(bus.wires);
            *bus = SystemBus {
                das_accumulator_ns: 0,
                das_active: false,
                das_direction: 0,
                das_last_repeat_index: 0,
                wires: w,
                ..*bus
            };
        } else if bus.das_active && bus.das_direction != 0 {
            let acc = bus.das_accumulator_ns.saturating_add(pins.frame_delta_ns);
            if acc >= bus.das_delay_ns {
                let elapsed = acc - bus.das_delay_ns;
                let repeat_idx = (elapsed / bus.das_repeat_ns) as u32;
                if repeat_idx > bus.das_last_repeat_index {
                    let w = set_shift_wires(bus.wires, bus.das_direction);
                    *bus = SystemBus {
                        das_accumulator_ns: acc,
                        das_last_repeat_index: repeat_idx,
                        wires: w,
                        ..*bus
                    };
                } else {
                    *bus = SystemBus { das_accumulator_ns: acc, ..*bus };
                }
            } else {
                *bus = SystemBus { das_accumulator_ns: acc, ..*bus };
            }
        }
    }
}

/// Auto-repeat fires once per completed repeat period. While an armed direction is held
/// (no new press, no release), the accumulator grows by the frame time (saturating), and
/// a shift toward the armed direction fires exactly when the number of whole repeat
/// periods completed past the delay, `(acc - delay) / repeat`, exceeds the number already
/// fired; then that number is recorded. Otherwise no shift fires: the wires and the
/// fired count are left as they were.
pub proof fn lemma_das_repeat_fires_on_new_period(pins: InputPins, bus: SystemBus)
    requires
        !(pins.key_left && !bus.prev_key_left),
        !(pins.key_right && !bus.prev_key_right),
        !(!pins.key_left && bus.prev_key_left),
        !(!pins.key_right && bus.prev_key_right),
        bus.das_active,
        bus.das_direction != 0,
        bus.das_repeat_ns > 0,
    ensures
        ({
            let r = DasTimerChip.ticked(pins, bus);
            let sum = bus.das_accumulator_ns + pins.frame_delta_ns;
            let acc: int = if sum > u64::MAX { u64::MAX as int } else { sum };
            let completed = (acc - bus.das_delay_ns) / (bus.das_repeat_ns as int);
            let fires = acc >= bus.das_delay_ns && (completed as u32) > bus.das_last_repeat_index;
            &&& r.das_accumulator_ns == acc
            &&& r.das_active
            &&& r.das_direction == bus.das_direction
            &&& fires ==> r.wires.das_tick && r.wires.dx == bus.das_direction
                && r.das_last_repeat_index == completed as u32
            &&& !fires ==> r.wires == bus.wires && r.das_last_repeat_index == bus.das_last_repeat_index
        }),
{
}

/// A held direction fires at most once per tick: right after a tick that fired, a tick
/// with no time elapsed fires nothing.
pub proof fn lemma_das_no_repeat_without_time(pins: InputPins, bus: SystemBus)
    requires
        !(pins.key_left && !bus.prev_key_left),
        !(pins.key_right && !bus.prev_key_right),
        !(!pins.key_left && bus.prev_key_left),
        !(!pins.key_right && bus.prev_key_right),
        bus.das_active,
        bus.das_direction != 0,
        bus.das_repeat_ns > 0,
    ensures
        ({
            let r = DasTimerChip.ticked(pins, bus);
            let still = InputPins { frame_delta_ns: 0, ..pins };
            let again = SystemBus { wires: Wires { das_tick: false, dx: 0, ..r.wires }, ..r };
            let r2 = DasTimerChip.ticked(still, again);
            &&& !r2.wires.das_tick
            &&& r2.wires.dx == 0
            &&& r2.das_last_repeat_index == r.das_last_repeat_index
        }),
{
    lemma_das_repeat_fires_on_new_period(pins, bus);
    let r = DasTimerChip.ticked(pins, bus);
    let still = InputPins { frame_delta_ns: 0, ..pins };
    let again = SystemBus { wires: Wires { das_tick: false, dx: 0, ..r.wires }, ..r };
    lemma_das_repeat_fires_on_new_period(still, again);
}

} // verus!
