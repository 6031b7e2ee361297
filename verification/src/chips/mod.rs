//! Logic chips: stateless transition units that read the input pins and read and write
//! the system bus, one deduction per clock tick.
use vstd::prelude::*;
use crate::bus::{InputPins, SystemBus};

pub mod collision;
pub mod das_timer;
pub mod ghost;
pub mod gravity_timer;
pub mod hold_controller;
pub mod input_decoder;
pub mod level_calc;
pub mod line_clear;
pub mod lock_delay_timer;
pub mod movement;
pub mod piece_locker;
pub mod rotation;
pub mod score_keeper;
pub mod spawn_controller;
pub mod tetrominoes;

verus! {

pub struct InputDecoderChip;

pub struct GravityTimerChip;

pub struct DasTimerChip;

pub struct LockDelayTimerChip;

pub struct CollisionDetectorChip;

pub struct RotationChip;

pub struct MovementChip;

pub struct PieceLockerChip;

pub struct LineClearDetectorChip;

pub struct LineClearCommitterChip;

pub struct ScoreKeeperChip;

pub struct LevelCalculatorChip;

pub struct HoldControllerChip;

pub struct SpawnControllerChip;

pub struct GhostComputerChip;

/// A stateless logic gate that performs one deterministic deduction per clock tick.
///
/// Each chip describes its transition as a function of the pins and the bus before the
/// tick (`ticked`), and the inputs on which it can run without fault (`can_tick`).
pub trait LogicChip {
    /// The bus states and pins on which `tick` runs to completion.
    spec fn can_tick(&self, pins: InputPins, bus: SystemBus) -> bool;

    /// The bus after one tick of this chip.
    spec fn ticked(&self, pins: InputPins, bus: SystemBus) -> SystemBus;

    fn tick(&self, pins: &InputPins, bus: &mut SystemBus)
        requires
            self.can_tick(*pins, *old(bus)),
        ensures
            *final(bus) == self.ticked(*pins, *old(bus)),
    ;
}

/// The closed set of chip kinds, so that a pipeline can be stored as `Vec<Chip>`.
pub enum Chip {
    InputDecoder(InputDecoderChip),
    GravityTimer(GravityTimerChip),
    DasTimer(DasTimerChip),
    LockDelayTimer(LockDelayTimerChip),
    CollisionDetector(CollisionDetectorChip),
    Rotation(RotationChip),
    Movement(MovementChip),
    PieceLocker(PieceLockerChip),
    LineClearDetector(LineClearDetectorChip),
    LineClearCommitter(LineClearCommitterChip),
    ScoreKeeper(ScoreKeeperChip),
    LevelCalculator(LevelCalculatorChip),
    HoldController(HoldControllerChip),
    SpawnController(SpawnControllerChip),
    GhostComputer(GhostComputerChip),
}

impl LogicChip for Chip {
    open spec fn can_tick(&self, pins: InputPins, bus: SystemBus) -> bool {
        match self {
            Chip::InputDecoder(c) => c.can_tick(pins, bus),
            Chip::GravityTimer(c) => c.can_tick(pins, bus),
            Chip::DasTimer(c) => c.can_tick(pins, bus),
            Chip::LockDelayTimer(c) => c.can_tick(pins, bus),
            Chip::CollisionDetector(c) => c.can_tick(pins, bus),
            Chip::Rotation(c) => c.can_tick(pins, bus),
            Chip::Movement(c) => c.can_tick(pins, bus),
            Chip::PieceLocker(c) => c.can_tick(pins, bus),
            Chip::LineClearDetector(c) => c.can_tick(pins, bus),
            Chip::LineClearCommitter(c) => c.can_tick(pins, bus),
            Chip::ScoreKeeper(c) => c.can_tick(pins, bus),
            Chip::LevelCalculator(c) => c.can_tick(pins, bus),
            Chip::HoldController(c) => c.can_tick(pins, bus),
            Chip::SpawnController(c) => c.can_tick(pins, bus),
            Chip::GhostComputer(c) => c.can_tick(pins, bus),
        }
    }

    open spec fn ticked(&self, pins: InputPins, bus: SystemBus) -> SystemBus {
        match self {
            Chip::InputDecoder(c) => c.ticked(pins, bus),
            Chip::GravityTimer(c) => c.ticked(pins, bus),
            Chip::DasTimer(c) => c.ticked(pins, bus),
            Chip::LockDelayTimer(c) => c.ticked(pins, bus),
            Chip::CollisionDetector(c) => c.ticked(pins, bus),
            Chip::Rotation(c) => c.ticked(pins, bus),
            Chip::Movement(c) => c.ticked(pins, bus),
            Chip::PieceLocker(c) => c.ticked(pins, bus),
            Chip::LineClearDetector(c) => c.ticked(pins, bus),
            Chip::LineClearCommitter(c) => c.ticked(pins, bus),
            Chip::ScoreKeeper(c) => c.ticked(pins, bus),
            Chip::LevelCalculator(c) => c.ticked(pins, bus),
            Chip::HoldController(c) => c.ticked(pins, bus),
            Chip::SpawnController(c) => c.ticked(pins, bus),
            Chip::GhostComputer(c) => c.ticked(pins, bus),
        }
    }

    fn tick(&self, pins: &InputPins, bus: &mut SystemBus) {
        match self {
            Chip::InputDecoder(c) => c.tick(pins, bus),
            Chip::GravityTimer(c) => c.tick(pins, bus),
            Chip::DasTimer(c) => c.tick(pins, bus),
            Chip::LockDelayTimer(c) => c.tick(pins, bus),
            Chip::CollisionDetector(c) => c.tick(pins, bus),
            Chip::Rotation(c) => c.tick(pins, bus),
            Chip::Movement(c) => c.tick(pins, bus),
            Chip::PieceLocker(c) => c.tick(pins, bus),
            Chip::LineClearDetector(c) => c.tick(pins, bus),
            Chip::LineClearCommitter(c) => c.tick(pins, bus),
            Chip::ScoreKeeper(c) => c.tick(pins, bus),
            Chip::LevelCalculator(c) => c.tick(pins, bus),
            Chip::HoldController(c) => c.tick(pins, bus),
            Chip::SpawnController(c) => c.tick(pins, bus),
            Chip::GhostComputer(c) => c.tick(pins, bus),
        }
    }
}

/// The enum dispatches to the chip it wraps: each variant ticks, and can tick, exactly as
/// its chip does.
pub proof fn lemma_chip_dispatches(pins: InputPins, bus: SystemBus)
    ensures
        Chip::InputDecoder(InputDecoderChip).ticked(pins, bus) == InputDecoderChip.ticked(pins, bus),
        Chip::InputDecoder(InputDecoderChip).can_tick(pins, bus) == InputDecoderChip.can_tick(pins, bus),
        Chip::GravityTimer(GravityTimerChip).ticked(pins, bus) == GravityTimerChip.ticked(pins, bus),
        Chip::GravityTimer(GravityTimerChip).can_tick(pins, bus) == GravityTimerChip.can_tick(pins, bus),
        Chip::DasTimer(DasTimerChip).ticked(pins, bus) == DasTimerChip.ticked(pins, bus),
        Chip::DasTimer(DasTimerChip).can_tick(pins, bus) == DasTimerChip.can_tick(pins, bus),
        Chip::LockDelayTimer(LockDelayTimerChip).ticked(pins, bus) == LockDelayTimerChip.ticked(pins, bus),
        Chip::LockDelayTimer(LockDelayTimerChip).can_tick(pins, bus) == LockDelayTimerChip.can_tick(pins, bus),
        Chip::CollisionDetector(CollisionDetectorChip).ticked(pins, bus) == CollisionDetectorChip.ticked(pins, bus),
        Chip::CollisionDetector(CollisionDetectorChip).can_tick(pins, bus) == CollisionDetectorChip.can_tick(pins, bus),
        Chip::Rotation(RotationChip).ticked(pins, bus) == RotationChip.ticked(pins, bus),
        Chip::Rotation(RotationChip).can_tick(pins, bus) == RotationChip.can_tick(pins, bus),
        Chip::Movement(MovementChip).ticked(pins, bus) == MovementChip.ticked(pins, bus),
        Chip::Movement(MovementChip).can_tick(pins, bus) == MovementChip.can_tick(pins, bus),
        Chip::PieceLocker(PieceLockerChip).ticked(pins, bus) == PieceLockerChip.ticked(pins, bus),
        Chip::PieceLocker(PieceLockerChip).can_tick(pins, bus) == PieceLockerChip.can_tick(pins, bus),
        Chip::LineClearDetector(LineClearDetectorChip).ticked(pins, bus) == LineClearDetectorChip.ticked(pins, bus),
        Chip::LineClearDetector(LineClearDetectorChip).can_tick(pins, bus) == LineClearDetectorChip.can_tick(pins, bus),
        Chip::LineClearCommitter(LineClearCommitterChip).ticked(pins, bus) == LineClearCommitterChip.ticked(pins, bus),
        Chip::LineClearCommitter(LineClearCommitterChip).can_tick(pins, bus) == LineClearCommitterChip.can_tick(pins, bus),
        Chip::ScoreKeeper(ScoreKeeperChip).ticked(pins, bus) == ScoreKeeperChip.ticked(pins, bus),
        Chip::ScoreKeeper(ScoreKeeperChip).can_tick(pins, bus) == ScoreKeeperChip.can_tick(pins, bus),
        Chip::LevelCalculator(LevelCalculatorChip).ticked(pins, bus) == LevelCalculatorChip.ticked(pins, bus),
        Chip::LevelCalculator(LevelCalculatorChip).can_tick(pins, bus) == LevelCalculatorChip.can_tick(pins, bus),
        Chip::HoldController(HoldControllerChip).ticked(pins, bus) == HoldControllerChip.ticked(pins, bus),
        Chip::HoldController(HoldControllerChip).can_tick(pins, bus) == HoldControllerChip.can_tick(pins, bus),
        Chip::SpawnController(SpawnControllerChip).ticked(pins, bus) == SpawnControllerChip.ticked(pins, bus),
        Chip::SpawnController(SpawnControllerChip).can_tick(pins, bus) == SpawnControllerChip.can_tick(pins, bus),
        Chip::GhostComputer(GhostComputerChip).ticked(pins, bus) == GhostComputerChip.ticked(pins, bus),
        Chip::GhostComputer(GhostComputerChip).can_tick(pins, bus) == GhostComputerChip.can_tick(pins, bus),
{
}

} // verus!
