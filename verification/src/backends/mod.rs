//! Execution backends for the chip pipeline and the record of where each chip ran.
use vstd::prelude::*;
use crate::bus::{InputPins, SystemBus};
use crate::chips::Chip;
use crate::motherboard::{chips_ok, flatten_layers, run_chips};

pub mod cpu;
pub mod routing;

verus! {

/// The kind of backend that executes the pipeline.
#[derive(Clone, Copy, Debug, PartialEq, Eq, Structural)]
pub enum BackendKind {
    Cpu,
}

/// Where one chip of one layer ran during the last tick.
#[derive(Clone, Copy, Debug, PartialEq, Eq)]
pub struct ChipBackendRoute {
    pub layer: usize,
    pub chip: &'static str,
    pub backend: &'static str,
}

/// The identity of each chip kind.
#[derive(Clone, Copy, Debug, PartialEq, Eq, Structural)]
pub enum ChipId {
    InputDecoder,
    GravityTimer,
    DasTimer,
    LockDelayTimer,
    CollisionDetector,
    Rotation,
    Movement,
    PieceLocker,
    LineClearDetector,
    LineClearCommitter,
    ScoreKeeper,
    LevelCalculator,
    HoldController,
    SpawnController,
    GhostComputer,
}

impl ChipId {
    /// The number of chip kinds.
    pub const COUNT: usize = 15;

    /// The position of the kind in declaration order.
    pub open spec fn spec_index(self) -> int {
        match self {
            ChipId::InputDecoder => 0,
            ChipId::GravityTimer => 1,
            ChipId::DasTimer => 2,
            ChipId::LockDelayTimer => 3,
            ChipId::CollisionDetector => 4,
            ChipId::Rotation => 5,
            ChipId::Movement => 6,
            ChipId::PieceLocker => 7,
            ChipId::LineClearDetector => 8,
            ChipId::LineClearCommitter => 9,
            ChipId::ScoreKeeper => 10,
            ChipId::LevelCalculator => 11,
            ChipId::HoldController => 12,
            ChipId::SpawnController => 13,
            ChipId::GhostComputer => 14,
        }
    }

    /// The position of the kind in declaration order (0..15).
    pub fn index(self) -> (r: usize)
        ensures
            r == self.spec_index(),
            r < Self::COUNT,
    {
        match self {
            ChipId::InputDecoder => 0,
            ChipId::GravityTimer => 1,
            ChipId::DasTimer => 2,
            ChipId::LockDelayTimer => 3,
            ChipId::CollisionDetector => 4,
            ChipId::Rotation => 5,
            ChipId::Movement => 6,
            ChipId::PieceLocker => 7,
            ChipId::LineClearDetector => 8,
            ChipId::LineClearCommitter => 9,
            ChipId::ScoreKeeper => 10,
            ChipId::LevelCalculator => 11,
            ChipId::HoldController => 12,
            ChipId::SpawnController => 13,
            ChipId::GhostComputer => 14,
        }
    }
}

/// The display name of a chip's kind.
pub open spec fn spec_chip_name(chip: Chip) -> Seq<char> {
    match chip {
        Chip::InputDecoder(_) => "InputDecoder"@,
        Chip::GravityTimer(_) => "GravityTimer"@,
        Chip::DasTimer(_) => "DasTimer"@,
        Chip::LockDelayTimer(_) => "LockDelayTimer"@,
        Chip::CollisionDetector(_) => "CollisionDetector"@,
        Chip::Rotation(_) => "Rotation"@,
        Chip::Movement(_) => "Movement"@,
        Chip::PieceLocker(_) => "PieceLocker"@,
        Chip::LineClearDetector(_) => "LineClearDetector"@,
        Chip::LineClearCommitter(_) => "LineClearCommitter"@,
        Chip::ScoreKeeper(_) => "ScoreKeeper"@,
        Chip::LevelCalculator(_) => "LevelCalculator"@,
        Chip::HoldController(_) => "HoldController"@,
        Chip::SpawnController(_) => "SpawnController"@,
        Chip::GhostComputer(_) => "GhostComputer"@,
    }
}

/// The display name of a chip's kind.
pub fn chip_name(chip: &Chip) -> (r: &'static str)
    ensures
        r@ == spec_chip_name(*chip),
{
    match chip {
        Chip::InputDecoder(_) => "InputDecoder",
        Chip::GravityTimer(_) => "GravityTimer",
        Chip::DasTimer(_) => "DasTimer",
        Chip::LockDelayTimer(_) => "LockDelayTimer",
        Chip::CollisionDetector(_) => "CollisionDetector",
        Chip::Rotation(_) => "Rotation",
        Chip::Movement(_) => "Movement",
        Chip::PieceLocker(_) => "PieceLocker",
        Chip::LineClearDetector(_) => "LineClearDetector",
        Chip::LineClearCommitter(_) => "LineClearCommitter",
        Chip::ScoreKeeper(_) => "ScoreKeeper",
        Chip::LevelCalculator(_) => "LevelCalculator",
        Chip::HoldController(_) => "HoldController",
        Chip::SpawnController(_) => "SpawnController",
        Chip::GhostComputer(_) => "GhostComputer",
    }
}

/// The kind of a chip.
pub open spec fn spec_chip_id(chip: Chip) -> ChipId {
    match chip {
        Chip::InputDecoder(_) => ChipId::InputDecoder,
        Chip::GravityTimer(_) => ChipId::GravityTimer,
        Chip::DasTimer(_) => ChipId::DasTimer,
        Chip::LockDelayTimer(_) => ChipId::LockDelayTimer,
        Chip::CollisionDetector(_) => ChipId::CollisionDetector,
        Chip::Rotation(_) => ChipId::Rotation,
        Chip::Movement(_) => ChipId::Movement,
        Chip::PieceLocker(_) => ChipId::PieceLocker,
        Chip::LineClearDetector(_) => ChipId::LineClearDetector,
        Chip::LineClearCommitter(_) => ChipId::LineClearCommitter,
        Chip::ScoreKeeper(_) => ChipId::ScoreKeeper,
        Chip::LevelCalculator(_) => ChipId::LevelCalculator,
        Chip::HoldController(_) => ChipId::HoldController,
        Chip::SpawnController(_) => ChipId::SpawnController,
        Chip::GhostComputer(_) => ChipId::GhostComputer,
    }
}

/// The kind of a chip.
pub fn chip_id(chip: &Chip) -> (r: ChipId)
    ensures
        r == spec_chip_id(*chip),
{
    match chip {
        Chip::InputDecoder(_) => ChipId::InputDecoder,
        Chip::GravityTimer(_) => ChipId::GravityTimer,
        Chip::DasTimer(_) => ChipId::DasTimer,
        Chip::LockDelayTimer(_) => ChipId::LockDelayTimer,
        Chip::CollisionDetector(_) => ChipId::CollisionDetector,
        Chip::Rotation(_) => ChipId::Rotation,
        Chip::Movement(_) => ChipId::Movement,
        Chip::PieceLocker(_) => ChipId::PieceLocker,
        Chip::LineClearDetector(_) => ChipId::LineClearDetector,
        Chip::LineClearCommitter(_) => ChipId::LineClearCommitter,
        Chip::ScoreKeeper(_) => ChipId::ScoreKeeper,
        Chip::LevelCalculator(_) => ChipId::LevelCalculator,
        Chip::HoldController(_) => ChipId::HoldController,
        Chip::SpawnController(_) => ChipId::SpawnController,
        Chip::GhostComputer(_) => ChipId::GhostComputer,
    }
}

/// The chips of `layers` in execution order, each with the index of its layer.
pub open spec fn indexed_chips(layers: Seq<Seq<Chip>>) -> Seq<(int, Chip)>
    decreases layers.len(),
{
    if layers.len() == 0 {
        Seq::empty()
    } else {
        indexed_chips(layers.drop_last()) + layers.last().map_values(|c: Chip| ((layers.len() - 1) as int, c))
    }
}

/// `routes` records, for every chip of `layers` in execution order, its layer, its name
/// and the backend `backend`.
pub open spec fn routes_record(routes: Seq<ChipBackendRoute>, layers: Seq<Seq<Chip>>, backend: Seq<char>) -> bool {
    routes_match(routes, indexed_chips(layers), backend)
}

/// `routes` records each of `chips` (with its layer), in order, on `backend`.
pub open spec fn routes_match(routes: Seq<ChipBackendRoute>, chips: Seq<(int, Chip)>, backend: Seq<char>) -> bool {
    &&& routes.len() == chips.len()
    &&& forall|k: int|
        0 <= k < routes.len() ==> {
            &&& (#[trigger] routes[k]).layer == chips[k].0
            &&& routes[k].chip@ == spec_chip_name(chips[k].1)
            &&& routes[k].backend@ == backend
        }
}

/// The runtime that executes the pipeline layers and records the route of each chip.
pub struct BackendRuntime {
    kind: BackendKind,
    /// Human-readable backend label, such as "cpu".
    label: String,
    /// Count of chip ticks dispatched to a GPU.
    gpu_tick_count: u64,
    /// Where each chip ran during the last tick.
    chip_routes: Vec<ChipBackendRoute>,
}

impl BackendRuntime {
    /// The backend kind.
    pub closed spec fn spec_kind(&self) -> BackendKind {
        self.kind
    }

    /// The backend label.
    pub closed spec fn spec_label(&self) -> Seq<char> {
        self.label@
    }

    /// The number of chip ticks dispatched to a GPU.
    pub closed spec fn spec_gpu_ticks(&self) -> u64 {
        self.gpu_tick_count
    }

    /// The routes of the last tick.
    pub closed spec fn spec_routes(&self) -> Seq<ChipBackendRoute> {
        self.chip_routes@
    }

    /// A CPU backend with no routes recorded yet.
    pub fn cpu() -> (r: Self)
        ensures
            r.spec_kind() == BackendKind::Cpu,
            r.spec_label() == "cpu"@,
            r.spec_gpu_ticks() == 0,
            r.spec_routes().len() == 0,
    {
        BackendRuntime {
            kind: BackendKind::Cpu,
            label: "cpu".to_owned(),
            gpu_tick_count: 0,
            chip_routes: Vec::new(),
        }
    }

    /// The runtime a backend setting selects, and whether a notice is due. This build
    /// carries no GPU runtime: every setting selects the CPU, and a request for "cuda"
    /// falls back to it with a notice.
    pub fn from_setting(setting: Option<&str>) -> (r: (Self, bool))
        ensures
            r.0.spec_kind() == BackendKind::Cpu,
            r.0.spec_label() == "cpu"@,
            r.0.spec_gpu_ticks() == 0,
            r.0.spec_routes().len() == 0,
            r.1 == (setting is Some && setting->0@ == "cuda"@),
    {
        let fell_back = match setting {
            Some(name) => {
                let cs = routing::chars_of(name);
                let n = cs.len();
                assert(cs@.subrange(0, n as int) =~= name@);
                routing::spells(&cs, 0, n, "cuda")
            },
            None => false,
        };
        (Self::cpu(), fell_back)
    }

    /// The human-readable backend label.
    pub fn backend_name(&self) -> (r: &str)
        ensures
            r@ == self.spec_label(),
    {
        self.label.as_str()
    }

    /// The number of chip ticks dispatched to a GPU.
    pub fn gpu_tick_count(&self) -> (r: u64)
        ensures
            r == self.spec_gpu_ticks(),
    {
        self.gpu_tick_count
    }

    /// Where each chip ran during the last tick.
    pub fn chip_backend_routes(&self) -> (r: &[ChipBackendRoute])
        ensures
            r@ == self.spec_routes(),
    {
        self.chip_routes.as_slice()
    }

    /// Run every chip of every layer on the bus, in order, and record that each ran on
    /// the CPU.
    pub fn execute_layers(&mut self, layers: &[Vec<Chip>], pins: &InputPins, bus: &mut SystemBus)
        requires
            chips_ok(flatten_layers(layers@.map_values(|l: Vec<Chip>| l@)), *pins, *old(bus)),
        ensures
            *final(bus) == run_chips(flatten_layers(layers@.map_values(|l: Vec<Chip>| l@)), *pins, *old(bus)),
            final(self).spec_kind() == old(self).spec_kind(),
            final(self).spec_label() == old(self).spec_label(),
            final(self).spec_gpu_ticks() == old(self).spec_gpu_ticks(),
            routes_record(final(self).spec_routes(), layers@.map_values(|l: Vec<Chip>| l@), "cpu"@),
    {
        self.chip_routes.clear();
        cpu::execute_layers_cpu(layers, pins, bus);
        let ghost seqs = layers@.map_values(|l: Vec<Chip>| l@);
        let n = layers.len();
        let mut i: usize = 0;
        while i < n
            invariant
                0 <= i <= n,
                n == layers@.len(),
                seqs == layers@.map_values(|l: Vec<Chip>| l@),
                routes_match(self.chip_routes@, indexed_chips(seqs.take(i as int)), "cpu"@),
                self.kind == old(self).kind,
                self.label@ == old(self).label@,
                self.gpu_tick_count == old(self).gpu_tick_count,
            decreases n - i,
        {
            let layer = &layers[i];
            let ghost done = indexed_chips(seqs.take(i as int));
            let ghost tagged = layer@.map_values(|c: Chip| (i as int, c));
            proof {
                assert(seqs.take(i + 1).drop_last() =~= seqs.take(i as int));
                assert(seqs[i as int] == layer@);
                assert(indexed_chips(seqs.take(i + 1)) == done + tagged);
                assert(done + tagged.take(0) =~= done);
            }
            let m = layer.len();
            let mut j: usize = 0;
            while j < m
                invariant
                    0 <= j <= m,
                    m == layer@.len(),
                    tagged == layer@.map_values(|c: Chip| (i as int, c)),
                    routes_match(self.chip_routes@, done + tagged.take(j as int), "cpu"@),
                    self.kind == old(self).kind,
                    self.label@ == old(self).label@,
                    self.gpu_tick_count == old(self).gpu_tick_count,
                decreases m - j,
            {
                let route = ChipBackendRoute { layer: i, chip: chip_name(&layer[j]), backend: "cpu" };
                self.chip_routes.push(route);
                proof {
                    assert(done + tagged.take(j + 1) =~= (done + tagged.take(j as int)).push((i as int, layer@[j as int])));
                }
                j = j + 1;
            }
            proof {
                assert(tagged.take(m as int) =~= tagged);
            }
            i = i + 1;
        }
        proof {
            assert(seqs.take(n as int) =~= seqs);
        }
    }
}

impl Default for BackendRuntime {
    fn default() -> (r: Self)
        ensures
            r.spec_kind() == BackendKind::Cpu,
            r.spec_label() == "cpu"@,
            r.spec_gpu_ticks() == 0,
            r.spec_routes().len() == 0,
    {
        Self::cpu()
    }
}

} // verus!
