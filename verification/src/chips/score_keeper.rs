use vstd::prelude::*;
use super::{LogicChip, ScoreKeeperChip};
use crate::bus::{InputPins, SystemBus};

verus! {

/// Base points for clearing 0, 1, 2, 3 and 4 (or more) lines at once.
pub const LINE_CLEAR_POINTS: [u32; 5] = [0, 40, 100, 300, 1200];

/// The points a clear of `lines` rows earns at `level`: the base for that many lines
/// (capped at four) times `level + 1`.
pub open spec fn clear_points(lines: u8, level: u16) -> int {
    LINE_CLEAR_POINTS@[if lines > 4 { 4int } else { lines as int }] * (level + 1)
}

impl LogicChip for ScoreKeeperChip {
    /// Needs the new score and line total to fit in `u32` when lines were cleared.
    open spec fn can_tick(&self, pins: InputPins, bus: SystemBus) -> bool {
        let lines = bus.wires.lines_cleared_this_tick;
        lines == 0 || (bus.score + clear_points(lines, bus.level) <= u32::MAX
            && bus.lines_cleared + lines <= u32::MAX)
    }

    /// Credits the lines cleared this tick to the score and the line total.
    open spec fn ticked(&self, pins: InputPins, bus: SystemBus) -> SystemBus {
        let lines = bus.wires.lines_cleared_this_tick;
        if lines == 0 {
            bus
        } else {
            SystemBus {
                score: (bus.score + clear_points(lines, bus.level)) as u32,
                lines_cleared: (bus.lines_cleared + lines) as u32,
                ..bus
            }
        }
    }

    fn tick(&self, _pins: &InputPins, bus: &mut SystemBus) {
        let lines = bus.wires.lines_cleared_this_tick;
        if lines == 0 {
            return;
        }
        let idx: usize = if lines > 4 { 4 } else { lines as usize };
        let base = LINE_CLEAR_POINTS[idx];
        assert(base <= 1200);
        let added = base * (bus.level as u32 + 1);
        *bus = SystemBus {
            score: bus.score + added,
            lines_cleared: bus.lines_cleared + lines as u32,
            ..*bus
        };
    }
}

} // verus!
