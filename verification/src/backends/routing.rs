//! The routing plan of a GPU backend: which chip kinds it takes, which of them have a
//! device kernel, and how a textual chip list selects them.
use vstd::prelude::*;
use vstd::string::StrSliceExecFns;
use crate::backends::{chip_id, chip_name, indexed_chips, spec_chip_id, spec_chip_name, ChipBackendRoute, ChipId};
use crate::chips::Chip;

verus! {

broadcast use vstd::array::group_array_axioms;

/// The chip kinds with a device kernel; every other kind runs through its CPU tick.
pub const CUDA_KERNEL_CHIPS: [ChipId; 3] = [
    ChipId::CollisionDetector,
    ChipId::LineClearDetector,
    ChipId::GhostComputer,
];

/// The chip kinds a GPU backend takes by default (kernel or CPU emulation): all of them.
pub const CONTRACT_CUDA_CHIPS: [ChipId; 15] = [
    ChipId::InputDecoder,
    ChipId::GravityTimer,
    ChipId::DasTimer,
    ChipId::LockDelayTimer,
    ChipId::CollisionDetector,
    ChipId::Rotation,
    ChipId::Movement,
    ChipId::PieceLocker,
    ChipId::LineClearDetector,
    ChipId::LineClearCommitter,
    ChipId::ScoreKeeper,
    ChipId::LevelCalculator,
    ChipId::HoldController,
    ChipId::SpawnController,
    ChipId::GhostComputer,
];

/// Whether a chip kind has a device kernel.
pub open spec fn spec_has_gpu_kernel(chip: ChipId) -> bool {
    chip == ChipId::CollisionDetector || chip == ChipId::LineClearDetector || chip
        == ChipId::GhostComputer
}

/// Whether a chip kind writes to the board (so a device copy of it goes stale).
pub open spec fn spec_chip_mutates_board(chip: ChipId) -> bool {
    chip == ChipId::PieceLocker || chip == ChipId::LineClearCommitter
}

/// Whether a chip kind has a device kernel.
pub fn has_gpu_kernel(chip_kind: ChipId) -> (r: bool)
    ensures
        r == spec_has_gpu_kernel(chip_kind),
{
    let mut i: usize = 0;
    while i < 3
        invariant
            0 <= i <= 3,
            forall|j: int| 0 <= j < i ==> CUDA_KERNEL_CHIPS@[j] != chip_kind,
        decreases 3 - i,
    {
        if CUDA_KERNEL_CHIPS[i] == chip_kind {
            return true;
        }
        i = i + 1;
    }
    assert(CUDA_KERNEL_CHIPS@[0] != chip_kind && CUDA_KERNEL_CHIPS@[1] != chip_kind
        && CUDA_KERNEL_CHIPS@[2] != chip_kind);
    false
}

/// Whether a chip kind writes to the board.
pub fn chip_mutates_board(chip_kind: ChipId) -> (r: bool)
    ensures
        r == spec_chip_mutates_board(chip_kind),
{
    matches!(chip_kind, ChipId::PieceLocker | ChipId::LineClearCommitter)
}

/// Unicode `White_Space`: the characters `char::is_whitespace` accepts.
pub open spec fn is_white_space(c: char) -> bool {
    let u = c as u32;
    ||| 0x09 <= u <= 0x0d
    ||| u == 0x20
    ||| u == 0x85
    ||| u == 0xa0
    ||| u == 0x1680
    ||| 0x2000 <= u <= 0x200a
    ||| u == 0x2028
    ||| u == 0x2029
    ||| u == 0x202f
    ||| u == 0x205f
    ||| u == 0x3000
}

/// The text with its leading white space removed.
pub open spec fn trim_start(s: Seq<char>) -> Seq<char>
    decreases s.len(),
{
    if s.len() > 0 && is_white_space(s[0]) {
        trim_start(s.drop_first())
    } else {
        s
    }
}

/// The text with its trailing white space removed.
pub open spec fn trim_end(s: Seq<char>) -> Seq<char>
    decreases s.len(),
{
    if s.len() > 0 && is_white_space(s.last()) {
        trim_end(s.drop_last())
    } else {
        s
    }
}

/// The text with white space removed at both ends.
pub open spec fn trimmed(s: Seq<char>) -> Seq<char> {
    trim_end(trim_start(s))
}

/// ASCII upper-case letters mapped to lower case; every other character kept.
pub open spec fn ascii_lower(c: char) -> char {
    if 'A' <= c <= 'Z' {
        ((c as u32) + 32) as char
    } else {
        c
    }
}

/// The chip kind a (lower-case) name selects: the kind's name in one word or in
/// snake case.
pub open spec fn spec_parse_chip_name(s: Seq<char>) -> Option<ChipId> {
    if s == "inputdecoder"@ || s == "input_decoder"@ {
        Some(ChipId::InputDecoder)
    } else if s == "gravitytimer"@ || s == "gravity_timer"@ {
        Some(ChipId::GravityTimer)
    } else if s == "dastimer"@ || s == "das_timer"@ {
        Some(ChipId::DasTimer)
    } else if s == "lockdelaytimer"@ || s == "lock_delay_timer"@ {
        Some(ChipId::LockDelayTimer)
    } else if s == "collisiondetector"@ || s == "collision_detector"@ {
        Some(ChipId::CollisionDetector)
    } else if s == "rotation"@ {
        Some(ChipId::Rotation)
    } else if s == "movement"@ {
        Some(ChipId::Movement)
    } else if s == "piecelocker"@ || s == "piece_locker"@ {
        Some(ChipId::PieceLocker)
    } else if s == "linecleardetector"@ || s == "line_clear_detector"@ {
        Some(ChipId::LineClearDetector)
    } else if s == "lineclearcommitter"@ || s == "line_clear_committer"@ {
        Some(ChipId::LineClearCommitter)
    } else if s == "scorekeeper"@ || s == "score_keeper"@ {
        Some(ChipId::ScoreKeeper)
    } else if s == "levelcalculator"@ || s == "level_calculator"@ {
        Some(ChipId::LevelCalculator)
    } else if s == "holdcontroller"@ || s == "hold_controller"@ {
        Some(ChipId::HoldController)
    } else if s == "spawncontroller"@ || s == "spawn_controller"@ {
        Some(ChipId::SpawnController)
    } else if s == "ghostcomputer"@ || s == "ghost_computer"@ {
        Some(ChipId::GhostComputer)
    } else {
        None
    }
}

fn is_whitespace(c: char) -> (r: bool)
    ensures
        r == is_white_space(c),
{
    let u = c as u32;
    (0x09 <= u && u <= 0x0d) || u == 0x20 || u == 0x85 || u == 0xa0 || u == 0x1680 || (0x2000
        <= u && u <= 0x200a) || u == 0x2028 || u == 0x2029 || u == 0x202f || u == 0x205f || u
        == 0x3000
}

fn to_ascii_lower(c: char) -> (r: char)
    ensures
        r == ascii_lower(c),
{
    if 'A' <= c && c <= 'Z' {
        let b = (c as u8) + 32;
        b as char
    } else {
        c
    }
}

/// The characters of a string slice.
pub(crate) fn chars_of(s: &str) -> (v: Vec<char>)
    ensures
        v@ == s@,
{
    let n = s.unicode_len();
    let mut v: Vec<char> = Vec::new();
    let mut i: usize = 0;
    while i < n
        invariant
            0 <= i <= n,
            n == s@.len(),
            v@ == s@.subrange(0, i as int),
        decreases n - i,
    {
        v.push(s.get_char(i));
        i = i + 1;
        assert(v@ =~= s@.subrange(0, i as int));
    }
    v
}

/// Whether `cs[lo..hi]` spells the literal.
pub(crate) fn spells(cs: &Vec<char>, lo: usize, hi: usize, lit: &str) -> (r: bool)
    requires
        lo <= hi <= cs@.len(),
    ensures
        r == (cs@.subrange(lo as int, hi as int) == lit@),
{
    let n = lit.unicode_len();
    if hi - lo != n {
        return false;
    }
    let mut i: usize = 0;
    while i < n
        invariant
            0 <= i <= n,
            n == lit@.len(),
            lo <= hi <= cs@.len(),
            hi - lo == n,
            forall|j: int| 0 <= j < i ==> cs@[lo + j] == lit@[j],
        decreases n - i,
    {
        if cs[lo + i] != lit.get_char(i) {
            assert(cs@.subrange(lo as int, hi as int)[i as int] != lit@[i as int]);
            return false;
        }
        i = i + 1;
    }
    assert(cs@.subrange(lo as int, hi as int) =~= lit@);
    true
}

/// The chip kind that `cs[lo..hi]` names.
fn parse_chip_chars(cs: &Vec<char>, lo: usize, hi: usize) -> (r: Option<ChipId>)
    requires
        lo <= hi <= cs@.len(),
    ensures
        r == spec_parse_chip_name(cs@.subrange(lo as int, hi as int)),
{
    if spells(cs, lo, hi, "inputdecoder") || spells(cs, lo, hi, "input_decoder") {
        Some(ChipId::InputDecoder)
    } else if spells(cs, lo, hi, "gravitytimer") || spells(cs, lo, hi, "gravity_timer") {
        Some(ChipId::GravityTimer)
    } else if spells(cs, lo, hi, "dastimer") || spells(cs, lo, hi, "das_timer") {
        Some(ChipId::DasTimer)
    } else if spells(cs, lo, hi, "lockdelaytimer") || spells(cs, lo, hi, "lock_delay_timer") {
        Some(ChipId::LockDelayTimer)
    } else if spells(cs, lo, hi, "collisiondetector") || spells(cs, lo, hi, "collision_detector") {
        Some(ChipId::CollisionDetector)
    } else if spells(cs, lo, hi, "rotation") {
        Some(ChipId::Rotation)
    } else if spells(cs, lo, hi, "movement") {
        Some(ChipId::Movement)
    } else if spells(cs, lo, hi, "piecelocker") || spells(cs, lo, hi, "piece_locker") {
        Some(ChipId::PieceLocker)
    } else if spells(cs, lo, hi, "linecleardetector") || spells(cs, lo, hi, "line_clear_detector") {
        Some(ChipId::LineClearDetector)
    } else if spells(cs, lo, hi, "lineclearcommitter") || spells(cs, lo, hi, "line_clear_committer") {
        Some(ChipId::LineClearCommitter)
    } else if spells(cs, lo, hi, "scorekeeper") || spells(cs, lo, hi, "score_keeper") {
        Some(ChipId::ScoreKeeper)
    } else if spells(cs, lo, hi, "levelcalculator") || spells(cs, lo, hi, "level_calculator") {
        Some(ChipId::LevelCalculator)
    } else if spells(cs, lo, hi, "holdcontroller") || spells(cs, lo, hi, "hold_controller") {
        Some(ChipId::HoldController)
    } else if spells(cs, lo, hi, "spawncontroller") || spells(cs, lo, hi, "spawn_controller") {
        Some(ChipId::SpawnController)
    } else if spells(cs, lo, hi, "ghostcomputer") || spells(cs, lo, hi, "ghost_computer") {
        Some(ChipId::GhostComputer)
    } else {
        None
    }
}

/// The chip kind a lower-case name selects, in one word or in snake case.
pub fn parse_chip_name(name: &str) -> (r: Option<ChipId>)
    ensures
        r == spec_parse_chip_name(name@),
{
    let cs = chars_of(name);
    let n = cs.len();
    assert(cs@.subrange(0, n as int) =~= name@);
    parse_chip_chars(&cs, 0, n)
}

/// For each chip kind (by index), whether the backend tries it on the device first.
pub struct CudaRoutingPlan {
    cuda_enabled: [bool; 15],
}

impl View for CudaRoutingPlan {
    type V = Seq<bool>;

    closed spec fn view(&self) -> Seq<bool> {
        self.cuda_enabled@
    }
}

/// A plan that takes every chip kind, or none.
pub open spec fn uniform_plan(enabled: bool) -> Seq<bool> {
    Seq::new(15, |i: int| enabled)
}

impl CudaRoutingPlan {
    /// The default plan: every kind of the contract list, that is every chip kind.
    pub fn contract_default() -> (r: Self)
        ensures
            r@ == uniform_plan(true),
            forall|j: int| 0 <= j < 15 ==> #[trigger] r@[CONTRACT_CUDA_CHIPS@[j].spec_index()],
    {
        let mut plan = CudaRoutingPlan {
            cuda_enabled: [
                false, false, false, false, false, false, false, false, false, false, false, false,
                false, false, false,
            ],
        };
        let mut i: usize = 0;
        while i < 15
            invariant
                0 <= i <= 15,
                plan.cuda_enabled@.len() == 15,
                forall|j: int| 0 <= j < i ==> #[trigger] plan.cuda_enabled@[CONTRACT_CUDA_CHIPS@[j].spec_index()],
                forall|k: int| 0 <= k < 15 ==> plan.cuda_enabled@[k] == (k < i),
            decreases 15 - i,
        {
            let chip = CONTRACT_CUDA_CHIPS[i];
            assert(chip.spec_index() == i);
            plan.cuda_enabled[chip.index()] = true;
            i = i + 1;
        }
        assert(plan@ =~= uniform_plan(true));
        plan
    }

    /// Whether the plan sends a chip kind to the device first.
    pub fn can_run_on_cuda(&self, chip: ChipId) -> (r: bool)
        ensures
            r == self@[chip.spec_index()],
    {
        self.cuda_enabled[chip.index()]
    }
}

/// The text with ASCII upper-case letters lowered.
pub open spec fn lowered(s: Seq<char>) -> Seq<char> {
    s.map_values(|c: char| ascii_lower(c))
}

/// `t[a..b]` is one of the comma-separated fields of `t`.
pub open spec fn is_field(t: Seq<char>, a: int, b: int) -> bool {
    &&& 0 <= a <= b <= t.len()
    &&& (a == 0 || t[a - 1] == ',')
    &&& (b == t.len() || t[b] == ',')
    &&& forall|k: int| a <= k < b ==> t[k] != ','
}

/// Some field of `t` that ends before `end`, once trimmed, names the chip kind.
pub open spec fn names_chip_before(t: Seq<char>, chip: ChipId, end: int) -> bool {
    exists|a: int, b: int|
        #[trigger] is_field(t, a, b) && b < end && spec_parse_chip_name(trimmed(t.subrange(a, b)))
            == Some(chip)
}

/// Some comma-separated field of `t`, once trimmed, names the chip kind.
pub open spec fn names_chip(t: Seq<char>, chip: ChipId) -> bool {
    names_chip_before(t, chip, t.len() + 1int)
}

/// What a chip-list setting selects. The setting is trimmed and lowered first; then
/// "none" selects no kind, an empty setting, "all" and "contract" select every kind,
/// and anything else is a comma-separated list of chip names (unknown names and
/// empty fields select nothing).
pub open spec fn plan_for_setting(plan: Seq<bool>, raw: Seq<char>) -> bool {
    let t = lowered(trimmed(raw));
    &&& plan.len() == 15
    &&& if t == "none"@ {
        plan == uniform_plan(false)
    } else if t.len() == 0 || t == "all"@ || t == "contract"@ {
        plan == uniform_plan(true)
    } else {
        forall|c: ChipId| #[trigger] plan[c.spec_index()] == names_chip(t, c)
    }
}

/// Distinct chip kinds have distinct indices.
pub proof fn lemma_index_injective(c1: ChipId, c2: ChipId)
    ensures
        c1.spec_index() == c2.spec_index() ==> c1 == c2,
        0 <= c1.spec_index() < 15,
{
}

/// Closing the field `t[start..k]` adds exactly that field to the fields that end
/// before `start`.
pub proof fn lemma_close_field(t: Seq<char>, start: int, k: int, chip: ChipId)
    requires
        0 <= start <= k <= t.len(),
        start == 0 || t[start - 1] == ',',
        forall|j: int| start <= j < k ==> t[j] != ',',
        k == t.len() || t[k] == ',',
    ensures
        names_chip_before(t, chip, k + 1) == (names_chip_before(t, chip, start)
            || spec_parse_chip_name(trimmed(t.subrange(start, k))) == Some(chip)),
{
    if names_chip_before(t, chip, k + 1) {
        let (a, b) = choose|a: int, b: int|
            #[trigger] is_field(t, a, b) && b < k + 1 && spec_parse_chip_name(
                trimmed(t.subrange(a, b)),
            ) == Some(chip);
        if b >= start {
            if b < k {
                assert(t[b] != ',');
            }
            assert(b == k);
            if a < start {
                assert(a <= start - 1 < b);
            }
            if a > start {
                assert(start <= a - 1 < k);
            }
            assert(a == start);
        }
    }
    if spec_parse_chip_name(trimmed(t.subrange(start, k))) == Some(chip) {
        assert(is_field(t, start, k));
    }
    if names_chip_before(t, chip, start) {
        let (a, b) = choose|a: int, b: int|
            #[trigger] is_field(t, a, b) && b < start && spec_parse_chip_name(
                trimmed(t.subrange(a, b)),
            ) == Some(chip);
        assert(is_field(t, a, b));
    }
}

/// The bounds of `cs[lo..hi]` with white space trimmed at both ends.
fn trim_bounds(cs: &Vec<char>, lo: usize, hi: usize) -> (r: (usize, usize))
    requires
        lo <= hi <= cs@.len(),
    ensures
        lo <= r.0 <= r.1 <= hi,
        cs@.subrange(r.0 as int, r.1 as int) == trimmed(cs@.subrange(lo as int, hi as int)),
{
    let ghost whole = cs@.subrange(lo as int, hi as int);
    let mut a = lo;
    while a < hi && is_whitespace(cs[a])
        invariant
            lo <= a <= hi <= cs@.len(),
            whole == cs@.subrange(lo as int, hi as int),
            trim_start(whole) == trim_start(cs@.subrange(a as int, hi as int)),
        decreases hi - a,
    {
        proof {
            let rest = cs@.subrange(a as int, hi as int);
            assert(rest.drop_first() =~= cs@.subrange(a + 1, hi as int));
        }
        a = a + 1;
    }
    assert(trim_start(cs@.subrange(a as int, hi as int)) == cs@.subrange(a as int, hi as int));
    let mut b = hi;
    while b > a && is_whitespace(cs[b - 1])
        invariant
            lo <= a <= b <= hi <= cs@.len(),
            whole == cs@.subrange(lo as int, hi as int),
            trim_start(whole) == cs@.subrange(a as int, hi as int),
            trim_end(cs@.subrange(a as int, hi as int)) == trim_end(cs@.subrange(a as int, b as int)),
        decreases b - a,
    {
        proof {
            let rest = cs@.subrange(a as int, b as int);
            assert(rest.last() == cs@[b - 1]);
            assert(rest.drop_last() =~= cs@.subrange(a as int, b - 1));
        }
        b = b - 1;
    }
    assert(trim_end(cs@.subrange(a as int, b as int)) == cs@.subrange(a as int, b as int));
    (a, b)
}

/// The routing plan a chip-list setting selects (see `plan_for_setting`).
pub fn plan_from_setting(raw: &str) -> (r: CudaRoutingPlan)
    ensures
        plan_for_setting(r@, raw@),
{
    let cs = chars_of(raw);
    let (a, b) = trim_bounds(&cs, 0, cs.len());
    assert(cs@.subrange(0, cs@.len() as int) =~= raw@);
    let mut t: Vec<char> = Vec::new();
    let mut i = a;
    while i < b
        invariant
            a <= i <= b <= cs@.len(),
            t@ == lowered(cs@.subrange(a as int, i as int)),
        decreases b - i,
    {
        t.push(to_ascii_lower(cs[i]));
        i = i + 1;
        assert(t@ =~= lowered(cs@.subrange(a as int, i as int)));
    }
    let ghost tv = lowered(trimmed(raw@));
    assert(t@ == tv);
    let n = t.len();
    assert(t@.subrange(0, n as int) =~= t@);
    if spells(&t, 0, n, "none") {
        let r = CudaRoutingPlan {
            cuda_enabled: [
                false, false, false, false, false, false, false, false, false, false, false, false,
                false, false, false,
            ],
        };
        assert(r@ =~= uniform_plan(false));
        return r;
    }
    if n == 0 || spells(&t, 0, n, "all") || spells(&t, 0, n, "contract") {
        return CudaRoutingPlan::contract_default();
    }
    let mut plan = CudaRoutingPlan {
        cuda_enabled: [
            false, false, false, false, false, false, false, false, false, false, false, false,
            false, false, false,
        ],
    };
    let mut start: usize = 0;
    let mut k: usize = 0;
    while k < n
        invariant
            0 <= start <= k <= n,
            n == t@.len(),
            plan.cuda_enabled@.len() == 15,
            start == 0 || t@[start - 1] == ',',
            forall|j: int| start <= j < k ==> t@[j] != ',',
            forall|c: ChipId| #[trigger] plan.cuda_enabled@[c.spec_index()] == names_chip_before(t@, c, start as int),
        decreases n - k,
    {
        if t[k] == ',' {
            let (fa, fb) = trim_bounds(&t, start, k);
            let found = parse_chip_chars(&t, fa, fb);
            let ghost before = plan.cuda_enabled@;
            if let Some(chip) = found {
                plan.cuda_enabled[chip.index()] = true;
            }
            proof {
                assert forall|c: ChipId| #[trigger] plan.cuda_enabled@[c.spec_index()] == names_chip_before(t@, c, k + 1) by {
                    lemma_close_field(t@, start as int, k as int, c);
                    lemma_index_injective(c, found->0);
                }
            }
            start = k + 1;
        }
        k = k + 1;
    }
    let (fa, fb) = trim_bounds(&t, start, n);
    let found = parse_chip_chars(&t, fa, fb);
    if let Some(chip) = found {
        plan.cuda_enabled[chip.index()] = true;
    }
    proof {
        assert forall|c: ChipId| #[trigger] plan.cuda_enabled@[c.spec_index()] == names_chip(t@, c) by {
            lemma_close_field(t@, start as int, n as int, c);
            lemma_index_injective(c, found->0);
        }
    }
    plan
}

/// How a GPU backend runs one chip.
#[derive(Clone, Copy, Debug, PartialEq, Eq, Structural)]
pub enum RouteChoice {
    /// Not sent to the device: the chip ticks on the CPU.
    Cpu,
    /// Sent to the device, which has no kernel for it (or whose kernel failed): the
    /// chip ticks on the CPU through its trait.
    TraitCpu,
    /// The device kernel runs the chip.
    GpuKernel,
}

/// The route a plan gives a chip kind before anything runs.
pub open spec fn spec_route_for(plan: Seq<bool>, chip: ChipId) -> RouteChoice {
    if !plan[chip.spec_index()] {
        RouteChoice::Cpu
    } else if spec_has_gpu_kernel(chip) {
        RouteChoice::GpuKernel
    } else {
        RouteChoice::TraitCpu
    }
}

/// The route actually taken: a failed kernel falls back to the CPU trait tick.
pub open spec fn spec_settled(choice: RouteChoice, kernel_ok: bool) -> RouteChoice {
    if choice == RouteChoice::GpuKernel && !kernel_ok {
        RouteChoice::TraitCpu
    } else {
        choice
    }
}

/// The label a route is recorded under.
pub open spec fn spec_route_label(choice: RouteChoice) -> Seq<char> {
    match choice {
        RouteChoice::Cpu => "cpu"@,
        RouteChoice::TraitCpu => "trait-cpu"@,
        RouteChoice::GpuKernel => "gpu-kernel"@,
    }
}

/// The route a plan gives a chip kind.
pub fn route_for(plan: &CudaRoutingPlan, chip: ChipId) -> (r: RouteChoice)
    ensures
        r == spec_route_for(plan@, chip),
{
    if !plan.can_run_on_cuda(chip) {
        RouteChoice::Cpu
    } else if has_gpu_kernel(chip) {
        RouteChoice::GpuKernel
    } else {
        RouteChoice::TraitCpu
    }
}

/// Settle a chip's route once its kernel (if it had one) reported back: the label it
/// is recorded under, whether the chip ticks on the CPU, whether the device copy of the
/// board is still in sync (a CPU tick of a board-writing chip makes it stale) and the
/// number of kernel ticks dispatched so far.
pub fn settle_route(
    choice: RouteChoice,
    kernel_ok: bool,
    chip: ChipId,
    board_synced: bool,
    dispatched: u64,
) -> (r: (&'static str, bool, bool, u64))
    ensures
        r.0@ == spec_route_label(spec_settled(choice, kernel_ok)),
        r.1 == (spec_settled(choice, kernel_ok) != RouteChoice::GpuKernel),
        r.2 == (board_synced && !(r.1 && spec_chip_mutates_board(chip))),
        r.3 == if spec_settled(choice, kernel_ok) == RouteChoice::GpuKernel {
            dispatched.wrapping_add(1)
        } else {
            dispatched
        },
{
    match choice {
        RouteChoice::GpuKernel => {
            if kernel_ok {
                ("gpu-kernel", false, board_synced, dispatched.wrapping_add(1))
            } else {
                ("trait-cpu", true, board_synced && !chip_mutates_board(chip), dispatched)
            }
        },
        RouteChoice::TraitCpu => ("trait-cpu", true, board_synced && !chip_mutates_board(chip), dispatched),
        RouteChoice::Cpu => ("cpu", true, board_synced && !chip_mutates_board(chip), dispatched),
    }
}

/// The settled route of chip `k` of `chips`, given each chip's kernel outcome.
pub open spec fn settled_at(plan: Seq<bool>, chips: Seq<(int, Chip)>, ok: Seq<bool>, k: int) -> RouteChoice {
    spec_settled(spec_route_for(plan, spec_chip_id(chips[k].1)), ok[k])
}

/// The number of the first `n` chips that a kernel ran.
pub open spec fn kernel_count(plan: Seq<bool>, chips: Seq<(int, Chip)>, ok: Seq<bool>, n: int) -> nat
    decreases n,
{
    if n <= 0 {
        0
    } else {
        kernel_count(plan, chips, ok, n - 1) + if settled_at(plan, chips, ok, n - 1)
            == RouteChoice::GpuKernel {
            1nat
        } else {
            0nat
        }
    }
}

/// None of the first `n` chips is a board writer that ticked on the CPU.
pub open spec fn board_untouched(plan: Seq<bool>, chips: Seq<(int, Chip)>, ok: Seq<bool>, n: int) -> bool {
    forall|k: int|
        0 <= k < n ==> !(settled_at(plan, chips, ok, k) != RouteChoice::GpuKernel
            && spec_chip_mutates_board(spec_chip_id(#[trigger] chips[k].1)))
}

/// `routes` records each of `chips`, in order, with its layer, its name and its
/// settled route.
pub open spec fn routes_settled(
    routes: Seq<ChipBackendRoute>,
    plan: Seq<bool>,
    chips: Seq<(int, Chip)>,
    ok: Seq<bool>,
) -> bool {
    &&& routes.len() == chips.len()
    &&& forall|k: int|
        0 <= k < routes.len() ==> {
            &&& (#[trigger] routes[k]).layer == chips[k].0
            &&& routes[k].chip@ == spec_chip_name(chips[k].1)
            &&& routes[k].backend@ == spec_route_label(settled_at(plan, chips, ok, k))
        }
}

/// The chips of the first `i` layers come first among the chips of all layers.
pub proof fn lemma_indexed_prefix(layers: Seq<Seq<Chip>>, i: int)
    requires
        0 <= i <= layers.len(),
    ensures
        indexed_chips(layers.take(i)).len() <= indexed_chips(layers).len(),
        indexed_chips(layers).take(indexed_chips(layers.take(i)).len() as int)
            == indexed_chips(layers.take(i)),
    decreases layers.len(),
{
    if i == layers.len() {
        assert(layers.take(i) =~= layers);
        assert(indexed_chips(layers).take(indexed_chips(layers).len() as int) =~= indexed_chips(layers));
    } else {
        let front = layers.drop_last();
        assert(front.take(i) =~= layers.take(i));
        lemma_indexed_prefix(front, i);
        let a = indexed_chips(front);
        let b = layers.last().map_values(|c: Chip| ((layers.len() - 1) as int, c));
        assert(indexed_chips(layers) == a + b);
        let n = indexed_chips(layers.take(i)).len() as int;
        assert((a + b).take(n) =~= a.take(n));
    }
}

/// The routing decisions of one mixed tick: for every chip of every layer, in order,
/// the route the plan gives it settled by its kernel outcome (`kernel_ok[k]` for the
/// `k`-th chip; ignored for chips that no kernel runs). Returns the recorded routes,
/// the number of kernel ticks dispatched, and whether the device copy of the board is
/// still in sync.
pub fn route_layers(
    plan: &CudaRoutingPlan,
    layers: &[Vec<Chip>],
    kernel_ok: &[bool],
    board_synced: bool,
) -> (r: (Vec<ChipBackendRoute>, u64, bool))
    requires
        kernel_ok@.len() == indexed_chips(layers@.map_values(|l: Vec<Chip>| l@)).len(),
    ensures
        routes_settled(r.0@, plan@, indexed_chips(layers@.map_values(|l: Vec<Chip>| l@)), kernel_ok@),
        r.1 == kernel_count(plan@, indexed_chips(layers@.map_values(|l: Vec<Chip>| l@)), kernel_ok@, kernel_ok@.len() as int),
        r.2 == (board_synced && board_untouched(plan@, indexed_chips(layers@.map_values(|l: Vec<Chip>| l@)), kernel_ok@, kernel_ok@.len() as int)),
{
    let ghost seqs = layers@.map_values(|l: Vec<Chip>| l@);
    let ghost all = indexed_chips(seqs);
    let mut routes: Vec<ChipBackendRoute> = Vec::new();
    let mut dispatched: u64 = 0;
    let mut synced = board_synced;
    let mut k: usize = 0;
    let n = layers.len();
    let mut i: usize = 0;
    while i < n
        invariant
            0 <= i <= n,
            n == layers@.len(),
            seqs == layers@.map_values(|l: Vec<Chip>| l@),
            all == indexed_chips(seqs),
            kernel_ok@.len() == all.len(),
            k == indexed_chips(seqs.take(i as int)).len(),
            k <= all.len(),
            all.take(k as int) == indexed_chips(seqs.take(i as int)),
            routes_settled(routes@, plan@, all.take(k as int), kernel_ok@),
            dispatched == kernel_count(plan@, all, kernel_ok@, k as int),
            dispatched <= k,
            synced == (board_synced && board_untouched(plan@, all, kernel_ok@, k as int)),
        decreases n - i,
    {
        let layer = &layers[i];
        let ghost done = indexed_chips(seqs.take(i as int));
        let ghost tagged = layer@.map_values(|c: Chip| (i as int, c));
        proof {
            assert(seqs.take(i + 1).drop_last() =~= seqs.take(i as int));
            assert(seqs[i as int] == layer@);
            assert(indexed_chips(seqs.take(i + 1)) == done + tagged);
            lemma_indexed_prefix(seqs, i + 1);
        }
        let m = layer.len();
        let mut j: usize = 0;
        while j < m
            invariant
                0 <= j <= m,
                m == layer@.len(),
                i < n,
                n == layers@.len(),
                seqs == layers@.map_values(|l: Vec<Chip>| l@),
                all == indexed_chips(seqs),
                kernel_ok@.len() == all.len(),
                tagged == layer@.map_values(|c: Chip| (i as int, c)),
                done == indexed_chips(seqs.take(i as int)),
                indexed_chips(seqs.take(i + 1)) == done + tagged,
                all.take((done + tagged).len() as int) == done + tagged,
                (done + tagged).len() <= all.len(),
                k == done.len() + j,
                routes_settled(routes@, plan@, all.take(k as int), kernel_ok@),
                dispatched == kernel_count(plan@, all, kernel_ok@, k as int),
                dispatched <= k,
                synced == (board_synced && board_untouched(plan@, all, kernel_ok@, k as int)),
            decreases m - j,
        {
            let chip = &layer[j];
            proof {
                assert((done + tagged)[k as int] == (i as int, layer@[j as int]));
                assert(all[k as int] == (done + tagged)[k as int]);
            }
            let kind = chip_id(chip);
            let choice = route_for(plan, kind);
            let (label, _on_cpu, now_synced, now_dispatched) = settle_route(choice, kernel_ok[k], kind, synced, dispatched);
            routes.push(ChipBackendRoute { layer: i, chip: chip_name(chip), backend: label });
            proof {
                assert(all.take(k + 1) =~= all.take(k as int).push(all[k as int]));
                assert(settled_at(plan@, all, kernel_ok@, k as int) == spec_settled(choice, kernel_ok@[k as int]));
            }
            synced = now_synced;
            dispatched = now_dispatched;
            k = k + 1;
            j = j + 1;
        }
        proof {
            assert(tagged.take(m as int) =~= tagged);
        }
        i = i + 1;
    }
    proof {
        assert(seqs.take(n as int) =~= seqs);
        assert(all.take(k as int) =~= all);
    }
    (routes, dispatched, synced)
}

} // verus!
