use vstd::prelude::*;
use super::{LevelCalculatorChip, LogicChip};
use crate::bus::{gravity_interval_ns, spec_gravity_interval_ns, InputPins, SystemBus};

verus! {

/// The level earned by a line total: one more than the completed tens, as a `u16`.
pub open spec fn level_for(lines_cleared: u32) -> u16 {
    (1 + ((lines_cleared / 10) as u16)) as u16
}

impl LogicChip for LevelCalculatorChip {
    /// Needs the level to fit in `u16`.
    open spec fn can_tick(&self, pins: InputPins, bus: SystemBus) -> bool {
        ((bus.lines_cleared / 10) as u16) < u16::MAX
    }

    /// Sets the level from the line total and, when it changes, the gravity period of the
    /// new level.
    open spec fn ticked(&self, pins: InputPins, bus: SystemBus) -> SystemBus {
        let level = level_for(bus.lines_cleared);
        if level != bus.level {
            SystemBus {
                level: level,
                gravity_interval_ns: spec_gravity_interval_ns(level as u8),
                ..bus
            }
        } else {
            bus
        }
    }

    fn tick(&self, _pins: &InputPins, bus: &mut SystemBus) {
        let new_level = 1 + (bus.lines_cleared / 10) as u16;
        if new_level != bus.level {
            let interval = gravity_interval_ns(new_level as u8);
            *bus = SystemBus { level: new_level, gravity_interval_ns: interval, ..*bus };
        }
    }
}

} // verus!
