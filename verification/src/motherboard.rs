//! The motherboard: the chip pipeline and the clock-tick driver.
use vstd::prelude::*;
use crate::backends::cpu::execute_layers_cpu;
use crate::bus::{grounded_wires, GamePhase, InputPins, SystemBus, Wires};
use crate::chips::{
    Chip, CollisionDetectorChip, DasTimerChip, GhostComputerChip, GravityTimerChip,
    HoldControllerChip, InputDecoderChip, LevelCalculatorChip, LineClearCommitterChip,
    LineClearDetectorChip, LockDelayTimerChip, LogicChip, MovementChip, PieceLockerChip,
    RotationChip, ScoreKeeperChip, SpawnControllerChip,
};

verus! {

/// The bus after running `chips` in order, each on the bus the previous one left.
pub open spec fn run_chips(chips: Seq<Chip>, pins: InputPins, bus: SystemBus) -> SystemBus
    decreases chips.len(),
{
    if chips.len() == 0 {
        bus
    } else {
        chips.last().ticked(pins, run_chips(chips.drop_last(), pins, bus))
    }
}

/// Every chip of `chips` can run on the bus its predecessors leave.
pub open spec fn chips_ok(chips: Seq<Chip>, pins: InputPins, bus: SystemBus) -> bool
    decreases chips.len(),
{
    if chips.len() == 0 {
        true
    } else {
        chips_ok(chips.drop_last(), pins, bus) && chips.last().can_tick(
            pins,
            run_chips(chips.drop_last(), pins, bus),
        )
    }
}

/// The layers concatenated in order.
pub open spec fn flatten_layers(layers: Seq<Seq<Chip>>) -> Seq<Chip>
    decreases layers.len(),
{
    if layers.len() == 0 {
        Seq::empty()
    } else {
        flatten_layers(layers.drop_last()) + layers.last()
    }
}

/// The bus with every wire pulled to ground (phase 0 of a tick).
pub open spec fn grounded(bus: SystemBus) -> SystemBus {
    SystemBus { wires: grounded_wires(), ..bus }
}

/// Sequential latching (phase 2 of a tick): the key states become the edge-detection
/// latches, a raised game-over wire ends the game, and the tick counter advances
/// (wrapping).
pub open spec fn latched(pins: InputPins, bus: SystemBus) -> SystemBus {
    SystemBus {
        prev_key_left: pins.key_left,
        prev_key_right: pins.key_right,
        prev_key_down: pins.key_down,
        prev_key_up: pins.key_up,
        prev_key_z: pins.key_z,
        prev_key_x: pins.key_x,
        prev_key_c: pins.key_c,
        prev_key_space: pins.key_space,
        prev_key_escape: pins.key_escape,
        prev_key_enter: pins.key_enter,
        game_phase: if bus.wires.game_over_triggered { GamePhase::GameOver } else { bus.game_phase },
        tick_count: bus.tick_count.wrapping_add(1),
        ..bus
    }
}

/// One full clock cycle of a pipeline: ground the wires, run every chip in order, latch.
pub open spec fn clock_cycle(chips: Seq<Chip>, pins: InputPins, bus: SystemBus) -> SystemBus {
    latched(pins, run_chips(chips, pins, grounded(bus)))
}

/// The chips of the four standard layers, in pipeline order: the input decoder; the
/// timers, collision, rotation, movement and lock delay; locking, hold, line clearing,
/// scoring, levels and spawning; and the ghost piece.
pub open spec fn standard_layers() -> Seq<Seq<Chip>> {
    seq![
        seq![Chip::InputDecoder(InputDecoderChip)],
        seq![
            Chip::GravityTimer(GravityTimerChip),
            Chip::DasTimer(DasTimerChip),
            Chip::CollisionDetector(CollisionDetectorChip),
            Chip::Rotation(RotationChip),
            Chip::Movement(MovementChip),
            Chip::LockDelayTimer(LockDelayTimerChip),
        ],
        seq![
            Chip::PieceLocker(PieceLockerChip),
            Chip::HoldController(HoldControllerChip),
            Chip::LineClearDetector(LineClearDetectorChip),
            Chip::LineClearCommitter(LineClearCommitterChip),
            Chip::ScoreKeeper(ScoreKeeperChip),
            Chip::LevelCalculator(LevelCalculatorChip),
            Chip::SpawnController(SpawnControllerChip),
        ],
        seq![Chip::GhostComputer(GhostComputerChip)],
    ]
}

/// The chips arranged in pipeline layers, with the clock-tick driver.
pub struct SiliconMotherboard {
    /// `layers[i]` holds the chips of pipeline stage `i`, run in order; the layers run
    /// in order too.
    pub layers: Vec<Vec<Chip>>,
}

impl SiliconMotherboard {
    /// The layers as sequences of chips.
    pub open spec fn layer_seqs(&self) -> Seq<Seq<Chip>> {
        self.layers@.map_values(|l: Vec<Chip>| l@)
    }

    /// All chips in execution order.
    pub open spec fn pipeline(&self) -> Seq<Chip> {
        flatten_layers(self.layer_seqs())
    }
}

/// Every prefix of a runnable pipeline is runnable.
pub proof fn lemma_chips_ok_prefix(chips: Seq<Chip>, pins: InputPins, bus: SystemBus, k: int)
    requires
        chips_ok(chips, pins, bus),
        0 <= k <= chips.len(),
    ensures
        chips_ok(chips.take(k), pins, bus),
    decreases chips.len(),
{
    if k == chips.len() {
        assert(chips.take(k) =~= chips);
    } else {
        assert(chips.drop_last().take(k) =~= chips.take(k));
        lemma_chips_ok_prefix(chips.drop_last(), pins, bus, k);
    }
}

/// A chip that extends a prefix of a runnable pipeline can run on the bus that prefix
/// leaves.
pub proof fn lemma_next_chip_ok(all: Seq<Chip>, pre: Seq<Chip>, c: Chip, pins: InputPins, bus: SystemBus)
    requires
        chips_ok(all, pins, bus),
        pre.len() < all.len(),
        all.take(pre.len() + 1int) == pre.push(c),
    ensures
        c.can_tick(pins, run_chips(pre, pins, bus)),
{
    lemma_chips_ok_prefix(all, pins, bus, pre.len() + 1int);
    assert(pre.push(c).drop_last() =~= pre);
}

/// The chips of the first `i` layers come first in the pipeline.
pub proof fn lemma_flatten_prefix(layers: Seq<Seq<Chip>>, i: int)
    requires
        0 <= i <= layers.len(),
    ensures
        flatten_layers(layers.take(i)).len() <= flatten_layers(layers).len(),
        flatten_layers(layers).take(flatten_layers(layers.take(i)).len() as int) == flatten_layers(layers.take(i)),
    decreases layers.len(),
{
    if i == layers.len() {
        assert(layers.take(i) =~= layers);
        assert(flatten_layers(layers).take(flatten_layers(layers).len() as int) =~= flatten_layers(layers));
    } else {
        let d = layers.drop_last();
        assert(d.take(i) =~= layers.take(i));
        lemma_flatten_prefix(d, i);
        let m = flatten_layers(layers.take(i)).len() as int;
        assert(flatten_layers(layers).take(m) =~= flatten_layers(d).take(m));
    }
}

/// Running one more chip extends the run by that chip's tick.
pub proof fn lemma_run_push(chips: Seq<Chip>, c: Chip, pins: InputPins, bus: SystemBus)
    ensures
        run_chips(chips.push(c), pins, bus) == c.ticked(pins, run_chips(chips, pins, bus)),
{
    assert(chips.push(c).drop_last() =~= chips);
}

/// The total number of chips over the layers.
pub open spec fn chips_in(layers: Seq<Seq<Chip>>) -> nat
    decreases layers.len(),
{
    if layers.len() == 0 {
        0
    } else {
        chips_in(layers.drop_last()) + layers.last().len()
    }
}

/// The pipeline holds exactly the chips of all layers.
pub proof fn lemma_flatten_len(layers: Seq<Seq<Chip>>)
    ensures
        flatten_layers(layers).len() == chips_in(layers),
    decreases layers.len(),
{
    if layers.len() > 0 {
        lemma_flatten_len(layers.drop_last());
    }
}

/// Installing a chip into an existing layer adds exactly one chip to the total; an
/// index past the last layer adds none.
pub proof fn lemma_install_adds_one(layers: Seq<Seq<Chip>>, i: int, chip: Chip)
    ensures
        0 <= i < layers.len() ==> chips_in(layers.update(i, layers[i].push(chip))) == chips_in(layers) + 1,
    decreases layers.len(),
{
    if 0 <= i < layers.len() {
        let after = layers.update(i, layers[i].push(chip));
        if i == layers.len() - 1 {
            assert(after.drop_last() =~= layers.drop_last());
        } else {
            assert(after.drop_last() =~= layers.drop_last().update(i, layers.drop_last()[i].push(chip)));
            lemma_install_adds_one(layers.drop_last(), i, chip);
        }
    }
}

/// The chip count of a motherboard is the sum of its layer lengths, and installing a
/// chip raises it by one exactly when the layer exists.
pub proof fn lemma_install_counts(before: SiliconMotherboard, after: SiliconMotherboard, layer: usize, chip: Chip)
    requires
        after.layer_seqs() == if layer < before.layers@.len() {
            before.layer_seqs().update(layer as int, before.layer_seqs()[layer as int].push(chip))
        } else {
            before.layer_seqs()
        },
    ensures
        before.pipeline().len() == chips_in(before.layer_seqs()),
        after.pipeline().len() == before.pipeline().len() + if layer < before.layers@.len() { 1int } else { 0int },
{
    lemma_flatten_len(before.layer_seqs());
    lemma_flatten_len(after.layer_seqs());
    lemma_install_adds_one(before.layer_seqs(), layer as int, chip);
}

impl SiliconMotherboard {
    /// A motherboard with the four standard layers.
    pub fn new() -> (r: Self)
        ensures
            r.layer_seqs() == standard_layers(),
    {
        let mut decoder: Vec<Chip> = Vec::new();
        decoder.push(Chip::InputDecoder(InputDecoderChip));

        let mut rules: Vec<Chip> = Vec::new();
        rules.push(Chip::GravityTimer(GravityTimerChip));
        rules.push(Chip::DasTimer(DasTimerChip));
        rules.push(Chip::CollisionDetector(CollisionDetectorChip));
        rules.push(Chip::Rotation(RotationChip));
        rules.push(Chip::Movement(MovementChip));
        rules.push(Chip::LockDelayTimer(LockDelayTimerChip));

        let mut mutation: Vec<Chip> = Vec::new();
        mutation.push(Chip::PieceLocker(PieceLockerChip));
        mutation.push(Chip::HoldController(HoldControllerChip));
        mutation.push(Chip::LineClearDetector(LineClearDetectorChip));
        mutation.push(Chip::LineClearCommitter(LineClearCommitterChip));
        mutation.push(Chip::ScoreKeeper(ScoreKeeperChip));
        mutation.push(Chip::LevelCalculator(LevelCalculatorChip));
        mutation.push(Chip::SpawnController(SpawnControllerChip));

        let mut ui: Vec<Chip> = Vec::new();
        ui.push(Chip::GhostComputer(GhostComputerChip));

        let ghost s0 = decoder@;
        let ghost s1 = rules@;
        let ghost s2 = mutation@;
        let ghost s3 = ui@;
        let mut layers: Vec<Vec<Chip>> = Vec::new();
        layers.push(decoder);
        layers.push(rules);
        layers.push(mutation);
        layers.push(ui);
        let r = SiliconMotherboard { layers };
        proof {
            let std = standard_layers();
            assert(s0 =~= std[0]);
            assert(s1 =~= std[1]);
            assert(s2 =~= std[2]);
            assert(s3 =~= std[3]);
            assert(r.layer_seqs() =~= std);
        }
        r
    }

    /// Execute one full clock cycle: pull all wires to ground, propagate the signals
    /// through the layers chip by chip, then latch the key states, the game-over
    /// transition and the tick counter.
    pub fn clock_tick(&mut self, pins: &InputPins, bus: &mut SystemBus)
        requires
            chips_ok(old(self).pipeline(), *pins, grounded(*old(bus))),
        ensures
            final(self).layers@ == old(self).layers@,
            *final(bus) == clock_cycle(old(self).pipeline(), *pins, *old(bus)),
    {
        let w = Wires::default();
        *bus = SystemBus { wires: w, ..*bus };
        let ghost g = *bus;
        execute_layers_cpu(self.layers.as_slice(), pins, bus);
        *bus = SystemBus {
            prev_key_left: pins.key_left,
            prev_key_right: pins.key_right,
            prev_key_down: pins.key_down,
            prev_key_up: pins.key_up,
            prev_key_z: pins.key_z,
            prev_key_x: pins.key_x,
            prev_key_c: pins.key_c,
            prev_key_space: pins.key_space,
            prev_key_escape: pins.key_escape,
            prev_key_enter: pins.key_enter,
            game_phase: if bus.wires.game_over_triggered { GamePhase::GameOver } else { bus.game_phase },
            tick_count: bus.tick_count.wrapping_add(1),
            ..*bus
        };
    }

    /// Install a chip at the end of a layer; an index past the last layer is ignored.
    pub fn install_chip(&mut self, layer: usize, chip: Chip)
        ensures
            final(self).layer_seqs() == if layer < old(self).layers@.len() {
                old(self).layer_seqs().update(layer as int, old(self).layer_seqs()[layer as int].push(chip))
            } else {
                old(self).layer_seqs()
            },
    {
        if layer < self.layers.len() {
            self.layers[layer].push(chip);
            proof {
                assert(self.layer_seqs() =~= old(self).layer_seqs().update(
                    layer as int,
                    old(self).layer_seqs()[layer as int].push(chip),
                ));
            }
        }
    }

    /// The total number of chips across all layers.
    pub fn chip_count(&self) -> (r: usize)
        requires
            self.pipeline().len() <= usize::MAX,
        ensures
            r == self.pipeline().len(),
    {
        let ghost seqs = self.layer_seqs();
        let n = self.layers.len();
        let mut total: usize = 0;
        let mut i: usize = 0;
        while i < n
            invariant
                0 <= i <= n,
                n == self.layers@.len(),
                seqs == self.layer_seqs(),
                flatten_layers(seqs).len() <= usize::MAX,
                total == flatten_layers(seqs.take(i as int)).len(),
            decreases n - i,
        {
            proof {
                lemma_flatten_prefix(seqs, i + 1);
                assert(seqs.take(i + 1).drop_last() =~= seqs.take(i as int));
            }
            total = total + self.layers[i].len();
            i = i + 1;
        }
        proof {
            assert(seqs.take(n as int) =~= seqs);
        }
        total
    }
}

/// After a clock tick every edge-detection latch holds that tick's key pin, whatever the
/// pipeline; so in the next tick a key still held is no fresh press, and the decoder
/// raises no request for it.
pub proof fn lemma_tick_latches_keys(chips: Seq<Chip>, pins: InputPins, bus: SystemBus)
    ensures
        ({
            let r = clock_cycle(chips, pins, bus);
            &&& r.prev_key_left == pins.key_left
            &&& r.prev_key_right == pins.key_right
            &&& r.prev_key_down == pins.key_down
            &&& r.prev_key_up == pins.key_up
            &&& r.prev_key_z == pins.key_z
            &&& r.prev_key_x == pins.key_x
            &&& r.prev_key_c == pins.key_c
            &&& r.prev_key_space == pins.key_space
            &&& r.prev_key_escape == pins.key_escape
            &&& r.prev_key_enter == pins.key_enter
            &&& ({
                let d = InputDecoderChip.ticked(pins, grounded(r)).wires;
                &&& !d.rotate_cw
                &&& !d.rotate_ccw
                &&& !d.hard_drop_requested
                &&& !d.hold_requested
                &&& !d.pause_requested
            })
        }),
{
}

} // verus!
