//! Properties of the whole machine: what every chip, and therefore every clock tick,
//! preserves.
use vstd::prelude::*;
use crate::bus::{cells_valid, spec_gravity_interval_ns, GamePhase, InputPins, SystemBus, FRAME_NS};
use crate::bus::{Board, Cell, BOARD_COLS, BOARD_ROWS};
use crate::chips::{Chip, LogicChip};
use crate::chips::line_clear::{
    compact, kept_rows_from, lemma_compact_is_compacted, lemma_kept_rows_range,
};
use crate::chips::piece_locker::{block_on_board, first_off_board, set_cell, stamp};
use crate::chips::tetrominoes::{
    block, is_ghost_row, lemma_free_anchor_bounds, lemma_ghost_row_exists, spec_ghost_y,
};
use crate::chips::rotation::{first_fit, lemma_first_fit_fits, turn_target};
use crate::chips::movement::{drop_stage, shift_stage};
use crate::motherboard::{lemma_chips_ok_prefix, chips_ok, clock_cycle, flatten_layers, grounded, latched, run_chips, standard_layers};
use crate::chips::line_clear::{full_count_upto, lemma_full_count_bounds};
use crate::chips::score_keeper::{clear_points, LINE_CLEAR_POINTS};
use crate::backends::spec_chip_id;
use crate::backends::routing::spec_chip_mutates_board;

verus! {

/// The gravity period of every level is at least one frame.
pub proof fn lemma_gravity_interval_positive(level: u8)
    ensures
        spec_gravity_interval_ns(level) >= FRAME_NS,
{
    let idx = if level == 0 { 0int } else { level - 1 };
    if idx < 20 {
        assert(1 <= crate::bus::GRAVITY_FRAMES@[idx] <= 48);
    }
}

/// The gravity table never speeds down: each entry is at most the one before it, and
/// each lies in 1..=48 frames.
proof fn lemma_gravity_frames_table(i: int, j: int)
    requires
        0 <= i <= j < 20,
    ensures
        crate::bus::GRAVITY_FRAMES@[j] <= crate::bus::GRAVITY_FRAMES@[i],
        1 <= crate::bus::GRAVITY_FRAMES@[j] <= 48,
{
    let t = crate::bus::GRAVITY_FRAMES@;
    assert(t =~= seq![48u64, 43, 38, 33, 28, 23, 18, 13, 8, 6, 5, 5, 5, 4, 4, 4, 3, 3, 3, 2]);
}

/// Gravity never gets slower as the level rises: the period of a higher level is at most
/// that of a lower one, and every period is a whole number of frames, from one frame to
/// 48 frames.
pub proof fn lemma_gravity_speeds_up(a: u8, b: u8)
    requires
        a <= b,
    ensures
        spec_gravity_interval_ns(b) <= spec_gravity_interval_ns(a),
        FRAME_NS <= spec_gravity_interval_ns(a) <= 48 * FRAME_NS,
        spec_gravity_interval_ns(a) % FRAME_NS == 0,
{
    let ia = if a == 0 { 0int } else { a - 1 };
    let ib = if b == 0 { 0int } else { b - 1 };
    let fa = crate::bus::spec_gravity_frames(a);
    let fb = crate::bus::spec_gravity_frames(b);
    if ib < 20 {
        lemma_gravity_frames_table(ia, ib);
    }
    if ia < 20 {
        lemma_gravity_frames_table(ia, ia);
    }
    assert(1 <= fb <= fa <= 48);
    assert(fb * FRAME_NS <= fa * FRAME_NS) by (nonlinear_arith)
        requires fb <= fa;
    assert(fa * FRAME_NS <= 48 * FRAME_NS) by (nonlinear_arith)
        requires fa <= 48;
    assert((fa * FRAME_NS) % (FRAME_NS as int) == 0) by (nonlinear_arith)
        requires fa >= 1;
}

#[verifier::spinoff_prover]
proof fn lemma_wf_input_decoder(pins: InputPins, bus: SystemBus)
    requires
        bus.wf(),
        Chip::InputDecoder(crate::chips::InputDecoderChip).can_tick(pins, bus),
    ensures
        Chip::InputDecoder(crate::chips::InputDecoderChip).ticked(pins, bus).wf(),
{
}

#[verifier::spinoff_prover]
proof fn lemma_wf_gravity_timer(pins: InputPins, bus: SystemBus)
    requires
        bus.wf(),
        Chip::GravityTimer(crate::chips::GravityTimerChip).can_tick(pins, bus),
    ensures
        Chip::GravityTimer(crate::chips::GravityTimerChip).ticked(pins, bus).wf(),
{
}

#[verifier::spinoff_prover]
proof fn lemma_wf_das_timer(pins: InputPins, bus: SystemBus)
    requires
        bus.wf(),
        Chip::DasTimer(crate::chips::DasTimerChip).can_tick(pins, bus),
    ensures
        Chip::DasTimer(crate::chips::DasTimerChip).ticked(pins, bus).wf(),
{
}

#[verifier::spinoff_prover]
proof fn lemma_wf_lock_delay_timer(pins: InputPins, bus: SystemBus)
    requires
        bus.wf(),
        Chip::LockDelayTimer(crate::chips::LockDelayTimerChip).can_tick(pins, bus),
    ensures
        Chip::LockDelayTimer(crate::chips::LockDelayTimerChip).ticked(pins, bus).wf(),
{
}

#[verifier::spinoff_prover]
proof fn lemma_wf_collision_detector(pins: InputPins, bus: SystemBus)
    requires
        bus.wf(),
        Chip::CollisionDetector(crate::chips::CollisionDetectorChip).can_tick(pins, bus),
    ensures
        Chip::CollisionDetector(crate::chips::CollisionDetectorChip).ticked(pins, bus).wf(),
{
}

#[verifier::spinoff_prover]
proof fn lemma_wf_rotation(pins: InputPins, bus: SystemBus)
    requires
        bus.wf(),
        Chip::Rotation(crate::chips::RotationChip).can_tick(pins, bus),
    ensures
        Chip::Rotation(crate::chips::RotationChip).ticked(pins, bus).wf(),
{
}

#[verifier::spinoff_prover]
proof fn lemma_wf_movement(pins: InputPins, bus: SystemBus)
    requires
        bus.wf(),
        Chip::Movement(crate::chips::MovementChip).can_tick(pins, bus),
    ensures
        Chip::Movement(crate::chips::MovementChip).ticked(pins, bus).wf(),
{
}

#[verifier::spinoff_prover]
proof fn lemma_wf_piece_locker(pins: InputPins, bus: SystemBus)
    requires
        bus.wf(),
        Chip::PieceLocker(crate::chips::PieceLockerChip).can_tick(pins, bus),
    ensures
        Chip::PieceLocker(crate::chips::PieceLockerChip).ticked(pins, bus).wf(),
{
}

#[verifier::spinoff_prover]
proof fn lemma_wf_line_clear_detector(pins: InputPins, bus: SystemBus)
    requires
        bus.wf(),
        Chip::LineClearDetector(crate::chips::LineClearDetectorChip).can_tick(pins, bus),
    ensures
        Chip::LineClearDetector(crate::chips::LineClearDetectorChip).ticked(pins, bus).wf(),
{
}

#[verifier::spinoff_prover]
proof fn lemma_wf_line_clear_committer(pins: InputPins, bus: SystemBus)
    requires
        bus.wf(),
        Chip::LineClearCommitter(crate::chips::LineClearCommitterChip).can_tick(pins, bus),
    ensures
        Chip::LineClearCommitter(crate::chips::LineClearCommitterChip).ticked(pins, bus).wf(),
{
}

#[verifier::spinoff_prover]
proof fn lemma_wf_score_keeper(pins: InputPins, bus: SystemBus)
    requires
        bus.wf(),
        Chip::ScoreKeeper(crate::chips::ScoreKeeperChip).can_tick(pins, bus),
    ensures
        Chip::ScoreKeeper(crate::chips::ScoreKeeperChip).ticked(pins, bus).wf(),
{
}

#[verifier::spinoff_prover]
proof fn lemma_wf_level_calculator(pins: InputPins, bus: SystemBus)
    requires
        bus.wf(),
        Chip::LevelCalculator(crate::chips::LevelCalculatorChip).can_tick(pins, bus),
    ensures
        Chip::LevelCalculator(crate::chips::LevelCalculatorChip).ticked(pins, bus).wf(),
{
    lemma_gravity_interval_positive(crate::chips::level_calc::level_for(bus.lines_cleared) as u8);
}

#[verifier::spinoff_prover]
proof fn lemma_wf_hold_controller(pins: InputPins, bus: SystemBus)
    requires
        bus.wf(),
        Chip::HoldController(crate::chips::HoldControllerChip).can_tick(pins, bus),
    ensures
        Chip::HoldController(crate::chips::HoldControllerChip).ticked(pins, bus).wf(),
{
}

#[verifier::spinoff_prover]
proof fn lemma_wf_spawn_controller(pins: InputPins, bus: SystemBus)
    requires
        bus.wf(),
        Chip::SpawnController(crate::chips::SpawnControllerChip).can_tick(pins, bus),
    ensures
        Chip::SpawnController(crate::chips::SpawnControllerChip).ticked(pins, bus).wf(),
{
}

#[verifier::spinoff_prover]
proof fn lemma_wf_ghost_computer(pins: InputPins, bus: SystemBus)
    requires
        bus.wf(),
        Chip::GhostComputer(crate::chips::GhostComputerChip).can_tick(pins, bus),
    ensures
        Chip::GhostComputer(crate::chips::GhostComputerChip).ticked(pins, bus).wf(),
{
}

/// Every chip keeps the bus well formed.
pub proof fn lemma_chip_keeps_wf(chip: Chip, pins: InputPins, bus: SystemBus)
    requires
        bus.wf(),
        chip.can_tick(pins, bus),
    ensures
        chip.ticked(pins, bus).wf(),
{
    match chip {
        Chip::InputDecoder(_) => lemma_wf_input_decoder(pins, bus),
        Chip::GravityTimer(_) => lemma_wf_gravity_timer(pins, bus),
        Chip::DasTimer(_) => lemma_wf_das_timer(pins, bus),
        Chip::LockDelayTimer(_) => lemma_wf_lock_delay_timer(pins, bus),
        Chip::CollisionDetector(_) => lemma_wf_collision_detector(pins, bus),
        Chip::Rotation(_) => lemma_wf_rotation(pins, bus),
        Chip::Movement(_) => lemma_wf_movement(pins, bus),
        Chip::PieceLocker(_) => lemma_wf_piece_locker(pins, bus),
        Chip::LineClearDetector(_) => lemma_wf_line_clear_detector(pins, bus),
        Chip::LineClearCommitter(_) => lemma_wf_line_clear_committer(pins, bus),
        Chip::ScoreKeeper(_) => lemma_wf_score_keeper(pins, bus),
        Chip::LevelCalculator(_) => lemma_wf_level_calculator(pins, bus),
        Chip::HoldController(_) => lemma_wf_hold_controller(pins, bus),
        Chip::SpawnController(_) => lemma_wf_spawn_controller(pins, bus),
        Chip::GhostComputer(_) => lemma_wf_ghost_computer(pins, bus),
    }
}

/// Running a pipeline keeps the bus well formed.
pub proof fn lemma_run_keeps_wf(chips: Seq<Chip>, pins: InputPins, bus: SystemBus)
    requires
        bus.wf(),
        chips_ok(chips, pins, bus),
    ensures
        run_chips(chips, pins, bus).wf(),
    decreases chips.len(),
{
    if chips.len() > 0 {
        lemma_run_keeps_wf(chips.drop_last(), pins, bus);
        lemma_chip_keeps_wf(chips.last(), pins, run_chips(chips.drop_last(), pins, bus));
    }
}

/// A clock tick keeps the bus well formed.
pub proof fn lemma_clock_keeps_wf(chips: Seq<Chip>, pins: InputPins, bus: SystemBus)
    requires
        bus.wf(),
        chips_ok(chips, pins, grounded(bus)),
    ensures
        clock_cycle(chips, pins, bus).wf(),
{
    lemma_run_keeps_wf(chips, pins, grounded(bus));
}

/// No chip lowers the score or the line total.
#[verifier::spinoff_prover]
#[verifier::rlimit(40)]
pub proof fn lemma_chip_score_monotone(chip: Chip, pins: InputPins, bus: SystemBus)
    requires
        chip.can_tick(pins, bus),
    ensures
        chip.ticked(pins, bus).score >= bus.score,
        chip.ticked(pins, bus).lines_cleared >= bus.lines_cleared,
{
}

/// Running a pipeline never lowers the score or the line total.
pub proof fn lemma_run_score_monotone(chips: Seq<Chip>, pins: InputPins, bus: SystemBus)
    requires
        chips_ok(chips, pins, bus),
    ensures
        run_chips(chips, pins, bus).score >= bus.score,
        run_chips(chips, pins, bus).lines_cleared >= bus.lines_cleared,
    decreases chips.len(),
{
    if chips.len() > 0 {
        lemma_run_score_monotone(chips.drop_last(), pins, bus);
        lemma_chip_score_monotone(chips.last(), pins, run_chips(chips.drop_last(), pins, bus));
    }
}

/// The score and the number of cleared lines never decrease over a clock tick.
pub proof fn lemma_clock_score_monotone(chips: Seq<Chip>, pins: InputPins, bus: SystemBus)
    requires
        chips_ok(chips, pins, grounded(bus)),
    ensures
        clock_cycle(chips, pins, bus).score >= bus.score,
        clock_cycle(chips, pins, bus).lines_cleared >= bus.lines_cleared,
{
    lemma_run_score_monotone(chips, pins, grounded(bus));
}

/// The blocks before the first one off the playfield are all on it.
pub proof fn lemma_first_off_board(x: int, y: int, piece_type: u8, rotation: u8, i: int)
    requires
        0 <= i <= 4,
    ensures
        i <= first_off_board(x, y, piece_type, rotation, i) <= 4,
        forall|j: int|
            i <= j < first_off_board(x, y, piece_type, rotation, i) ==> #[trigger] block_on_board(
                x,
                y,
                piece_type,
                rotation,
                j,
            ),
    decreases 4 - i,
{
    if i < 4 && block_on_board(x, y, piece_type, rotation, i) {
        lemma_first_off_board(x, y, piece_type, rotation, i + 1);
    }
}

/// Writing an encodable colour on the playfield keeps every cell encodable.
pub proof fn lemma_set_cell_valid(board: Board, x: int, y: int, c: Cell)
    requires
        cells_valid(board),
        0 <= x < BOARD_COLS,
        0 <= y < BOARD_ROWS,
        c.0 <= 7,
    ensures
        cells_valid(set_cell(board, x, y, c)),
{
    vstd::array::axiom_spec_array_update(board@[y], x, c);
    vstd::array::axiom_spec_array_update(board, y, vstd::array::spec_array_update(board@[y], x, c));
}

/// Painting blocks that lie on the playfield in an encodable colour keeps every cell
/// encodable.
pub proof fn lemma_stamp_valid(board: Board, x: int, y: int, piece_type: u8, rotation: u8, c: Cell, n: int)
    requires
        cells_valid(board),
        c.0 <= 7,
        n <= 4,
        forall|j: int| 0 <= j < n ==> #[trigger] block_on_board(x, y, piece_type, rotation, j),
    ensures
        cells_valid(stamp(board, x, y, piece_type, rotation, c, n)),
    decreases n,
{
    if n > 0 {
        lemma_stamp_valid(board, x, y, piece_type, rotation, c, n - 1);
        assert(block_on_board(x, y, piece_type, rotation, n - 1));
        lemma_set_cell_valid(
            stamp(board, x, y, piece_type, rotation, c, n - 1),
            x + block(piece_type, rotation, n - 1).0,
            y + block(piece_type, rotation, n - 1).1,
            c,
        );
    }
}

/// Removing rows keeps every cell encodable.
pub proof fn lemma_compact_valid(board: Board, mask: u32)
    requires
        cells_valid(board),
    ensures
        cells_valid(compact(board, mask)),
{
    lemma_compact_is_compacted(board, mask);
    lemma_kept_rows_range(mask, 0);
    let after = compact(board, mask);
    let kept = kept_rows_from(mask, 0);
    let top = BOARD_ROWS - kept.len();
    assert forall|r: int, c: int| 0 <= r < BOARD_ROWS && 0 <= c < BOARD_COLS implies #[trigger] after@[r]@[c].0 <= 7 by {
        if r >= top {
            assert(after@[r] == board@[kept[r - top]]);
            assert(board@[kept[r - top]]@[c].0 <= 7);
        }
    }
}

/// Every chip leaves only encodable cells (empty or one of the seven colours) on a board
/// that had only encodable cells.
#[verifier::spinoff_prover]
#[verifier::rlimit(100)]
pub proof fn lemma_chip_keeps_cells_valid(chip: Chip, pins: InputPins, bus: SystemBus)
    requires
        cells_valid(bus.board),
        chip.can_tick(pins, bus),
    ensures
        cells_valid(chip.ticked(pins, bus).board),
{
    match chip {
        Chip::PieceLocker(_) => if (bus.wires.piece_locked || bus.wires.lock_delay_expired) && bus.piece_y >= 0 {
            lemma_first_off_board(bus.piece_x as int, bus.piece_y as int, bus.piece_type.0, bus.piece_rotation, 0);
            lemma_stamp_valid(
                bus.board,
                bus.piece_x as int,
                bus.piece_y as int,
                bus.piece_type.0,
                bus.piece_rotation,
                crate::chips::piece_locker::piece_colour(bus.piece_type.0),
                first_off_board(bus.piece_x as int, bus.piece_y as int, bus.piece_type.0, bus.piece_rotation, 0),
            );
        } else {
        },
        Chip::LineClearCommitter(_) => {
            lemma_compact_valid(bus.board, bus.wires.full_row_mask);
        },
        _ => {},
    }
}

/// Running a pipeline leaves only encodable cells on the board.
pub proof fn lemma_run_keeps_cells_valid(chips: Seq<Chip>, pins: InputPins, bus: SystemBus)
    requires
        cells_valid(bus.board),
        chips_ok(chips, pins, bus),
    ensures
        cells_valid(run_chips(chips, pins, bus).board),
    decreases chips.len(),
{
    if chips.len() > 0 {
        lemma_run_keeps_cells_valid(chips.drop_last(), pins, bus);
        lemma_chip_keeps_cells_valid(chips.last(), pins, run_chips(chips.drop_last(), pins, bus));
    }
}

/// A clock tick never writes a value outside 0..=7 into a board cell.
pub proof fn lemma_clock_keeps_cells_valid(chips: Seq<Chip>, pins: InputPins, bus: SystemBus)
    requires
        cells_valid(bus.board),
        chips_ok(chips, pins, grounded(bus)),
    ensures
        cells_valid(clock_cycle(chips, pins, bus).board),
{
    lemma_run_keeps_cells_valid(chips, pins, grounded(bus));
}

/// The active piece's anchor lies within the range its blocks can reach from the
/// playfield: columns -3..=10 and rows -4..=20.
pub open spec fn piece_near_board(bus: SystemBus) -> bool {
    -3 <= bus.piece_x <= 10 && -4 <= bus.piece_y <= 20
}

/// Every chip keeps the active piece near the playfield.
#[verifier::spinoff_prover]
#[verifier::rlimit(40)]
pub proof fn lemma_chip_keeps_piece_near(chip: Chip, pins: InputPins, bus: SystemBus)
    requires
        bus.wf(),
        piece_near_board(bus),
        chip.can_tick(pins, bus),
    ensures
        piece_near_board(chip.ticked(pins, bus)),
{
    let pt = bus.piece_type.0;
    let rot = bus.piece_rotation;
    match chip {
        Chip::Movement(_) => {
            lemma_ghost_row_exists(bus.piece_x as int, bus.piece_y as int, pt, rot, bus.board);
            let s1 = shift_stage(bus);
            if s1 != bus {
                lemma_free_anchor_bounds(bus.piece_x + bus.wires.dx, bus.piece_y as int, pt, rot, bus.board);
            }
            let s2 = drop_stage(s1);
            if s2 != s1 {
                lemma_free_anchor_bounds(s1.piece_x as int, s1.piece_y + 1, pt, rot, s1.board);
            }
        },
        Chip::Rotation(_) => {
            let to = turn_target(bus);
            let f = first_fit(bus.piece_x as int, bus.piece_y as int, pt, rot, to, bus.board, 0);
            if f is Some {
                lemma_first_fit_fits(bus.piece_x as int, bus.piece_y as int, pt, rot, to, bus.board, 0);
                let k = f->0;
                lemma_free_anchor_bounds(
                    bus.piece_x + crate::chips::tetrominoes::kick(pt, rot, to, k).0,
                    bus.piece_y + crate::chips::tetrominoes::kick(pt, rot, to, k).1,
                    pt,
                    to,
                    bus.board,
                );
            }
        },
        _ => {},
    }
}

/// Running a pipeline keeps the active piece near the playfield.
pub proof fn lemma_run_keeps_piece_near(chips: Seq<Chip>, pins: InputPins, bus: SystemBus)
    requires
        bus.wf(),
        piece_near_board(bus),
        chips_ok(chips, pins, bus),
    ensures
        piece_near_board(run_chips(chips, pins, bus)),
    decreases chips.len(),
{
    if chips.len() > 0 {
        lemma_run_keeps_piece_near(chips.drop_last(), pins, bus);
        lemma_run_keeps_wf(chips.drop_last(), pins, bus);
        lemma_chip_keeps_piece_near(chips.last(), pins, run_chips(chips.drop_last(), pins, bus));
    }
}

/// A clock tick keeps the active piece within columns -3..=10 and rows -4..=20.
pub proof fn lemma_clock_keeps_piece_near(chips: Seq<Chip>, pins: InputPins, bus: SystemBus)
    requires
        bus.wf(),
        piece_near_board(bus),
        chips_ok(chips, pins, grounded(bus)),
    ensures
        piece_near_board(clock_cycle(chips, pins, bus)),
{
    lemma_run_keeps_piece_near(chips, pins, grounded(bus));
}

/// Room for one more tick's score and line total: a four-line clear at the current level
/// fits the score, and twenty more lines keep the line total and the level in range.
pub open spec fn score_headroom(bus: SystemBus) -> bool {
    bus.score + 1200 * (bus.level + 1) <= u32::MAX && bus.lines_cleared + 20 < 655_350
}

/// The points of a clear never exceed those of four lines at the same level.
pub proof fn lemma_clear_points_bound(lines: u8, level: u16)
    ensures
        0 <= clear_points(lines, level) <= 1200 * (level + 1),
{
    let i = if lines > 4 { 4int } else { lines as int };
    let base = LINE_CLEAR_POINTS@[i];
    assert(0 <= base <= 1200);
    assert(0 <= base * (level + 1) <= 1200 * (level + 1)) by (nonlinear_arith)
        requires
            0 <= base <= 1200,
            0 <= level,
    ;
}

/// Extending a runnable prefix by a chip that can run on the bus it leaves.
proof fn lemma_extend(p: Seq<Chip>, k: int, pins: InputPins, g: SystemBus)
    requires
        0 <= k < p.len(),
        chips_ok(p.take(k), pins, g),
        p[k].can_tick(pins, run_chips(p.take(k), pins, g)),
    ensures
        chips_ok(p.take(k + 1), pins, g),
        run_chips(p.take(k + 1), pins, g) == p[k].ticked(pins, run_chips(p.take(k), pins, g)),
{
    assert(p.take(k + 1).drop_last() =~= p.take(k));
}

/// Chips that leave the score, the level and the line total alone.
pub open spec fn keeps_tally(chip: Chip) -> bool {
    !(chip is ScoreKeeper) && !(chip is LevelCalculator)
}

/// On a well-formed bus, every chip but the score keeper and the level calculator can run.
#[verifier::spinoff_prover]
#[verifier::rlimit(40)]
pub proof fn lemma_wf_can_tick(chip: Chip, pins: InputPins, bus: SystemBus)
    requires
        bus.wf(),
        keeps_tally(chip),
    ensures
        chip.can_tick(pins, bus),
{
}

/// Every chip but the score keeper and the level calculator leaves the score, the level
/// and the line total alone.
#[verifier::spinoff_prover]
#[verifier::rlimit(40)]
pub proof fn lemma_keeps_tally(chip: Chip, pins: InputPins, bus: SystemBus)
    requires
        keeps_tally(chip),
        chip.can_tick(pins, bus),
    ensures
        chip.ticked(pins, bus).score == bus.score,
        chip.ticked(pins, bus).level == bus.level,
        chip.ticked(pins, bus).lines_cleared == bus.lines_cleared,
{
}

/// With room in the tally, the score keeper can credit up to twenty lines.
proof fn lemma_score_keeper_ready(pins: InputPins, bus: SystemBus)
    requires
        bus.wires.lines_cleared_this_tick <= 20,
        bus.score + 1200 * (bus.level + 1) <= u32::MAX,
        bus.lines_cleared + 20 < 655_350,
    ensures
        Chip::ScoreKeeper(crate::chips::ScoreKeeperChip).can_tick(pins, bus),
        Chip::ScoreKeeper(crate::chips::ScoreKeeperChip).ticked(pins, bus).lines_cleared <= bus.lines_cleared + 20,
{
    lemma_clear_points_bound(bus.wires.lines_cleared_this_tick, bus.level);
}

/// The chips of the standard layers in execution order.
pub open spec fn standard_pipeline() -> Seq<Chip> {
    flatten_layers(standard_layers())
}

/// The shape of the standard pipeline that its runnability rests on.
pub open spec fn standard_shape(p: Seq<Chip>) -> bool {
    &&& p.len() == 15
    &&& forall|k: int| 0 <= k < 9 ==> keeps_tally(#[trigger] p[k])
    &&& p[9] is LineClearDetector
    &&& p[10] is LineClearCommitter
    &&& p[11] is ScoreKeeper
    &&& p[12] is LevelCalculator
    &&& keeps_tally(p[13])
    &&& keeps_tally(p[14])
    &&& p[14] is GhostComputer
}

proof fn lemma_standard_shape()
    ensures
        standard_shape(standard_pipeline()),
{
    reveal_with_fuel(flatten_layers, 5);
    let p = standard_pipeline();
    assert(p.len() == 15);
}

/// A chip that keeps the tally extends a runnable prefix that leaves a well-formed bus.
#[verifier::spinoff_prover]
proof fn lemma_tally_step(p: Seq<Chip>, k: int, pins: InputPins, g: SystemBus)
    requires
        0 <= k < p.len(),
        keeps_tally(p[k]),
        chips_ok(p.take(k), pins, g),
        run_chips(p.take(k), pins, g).wf(),
    ensures
        chips_ok(p.take(k + 1), pins, g),
        run_chips(p.take(k + 1), pins, g) == p[k].ticked(pins, run_chips(p.take(k), pins, g)),
        run_chips(p.take(k + 1), pins, g).wf(),
        run_chips(p.take(k + 1), pins, g).score == run_chips(p.take(k), pins, g).score,
        run_chips(p.take(k + 1), pins, g).level == run_chips(p.take(k), pins, g).level,
        run_chips(p.take(k + 1), pins, g).lines_cleared == run_chips(p.take(k), pins, g).lines_cleared,
{
    let b = run_chips(p.take(k), pins, g);
    lemma_wf_can_tick(p[k], pins, b);
    lemma_extend(p, k, pins, g);
    lemma_chip_keeps_wf(p[k], pins, b);
    lemma_keeps_tally(p[k], pins, b);
}

#[verifier::spinoff_prover]
#[verifier::rlimit(60)]
proof fn lemma_shaped_pipeline_runs(p: Seq<Chip>, pins: InputPins, bus: SystemBus)
    requires
        standard_shape(p),
        bus.wf(),
        score_headroom(bus),
    ensures
        chips_ok(p, pins, grounded(bus)),
{
    let g = grounded(bus);
    assert(p.take(0) =~= Seq::<Chip>::empty());
    assert(p.take(15) =~= p);
    assert(keeps_tally(p[0]) && keeps_tally(p[1]) && keeps_tally(p[2]) && keeps_tally(p[3]) && keeps_tally(p[4]));
    assert(keeps_tally(p[5]) && keeps_tally(p[6]) && keeps_tally(p[7]) && keeps_tally(p[8]));
    lemma_tally_step(p, 0, pins, g);
    lemma_tally_step(p, 1, pins, g);
    lemma_tally_step(p, 2, pins, g);
    lemma_tally_step(p, 3, pins, g);
    lemma_tally_step(p, 4, pins, g);
    lemma_tally_step(p, 5, pins, g);
    lemma_tally_step(p, 6, pins, g);
    lemma_tally_step(p, 7, pins, g);
    lemma_tally_step(p, 8, pins, g);
    let b9 = run_chips(p.take(9), pins, g);
    lemma_tally_step(p, 9, pins, g);
    lemma_full_count_bounds(b9.board, 20);
    lemma_tally_step(p, 10, pins, g);
    let b11 = run_chips(p.take(11), pins, g);
    lemma_score_keeper_ready(pins, b11);
    lemma_extend(p, 11, pins, g);
    lemma_chip_keeps_wf(p[11], pins, b11);
    let b12 = run_chips(p.take(12), pins, g);
    assert(b12.lines_cleared <= bus.lines_cleared + 20);
    assert(b12.lines_cleared / 10 < 65535);
    lemma_extend(p, 12, pins, g);
    lemma_chip_keeps_wf(p[12], pins, b12);
    lemma_tally_step(p, 13, pins, g);
    lemma_tally_step(p, 14, pins, g);
}

/// The standard pipeline can tick any well-formed bus whose score and line total have
/// room for the tick: no chip faults.
pub proof fn lemma_standard_pipeline_runs(pins: InputPins, bus: SystemBus)
    requires
        bus.wf(),
        score_headroom(bus),
    ensures
        chips_ok(standard_pipeline(), pins, grounded(bus)),
{
    lemma_standard_shape();
    lemma_shaped_pipeline_runs(standard_pipeline(), pins, bus);
}

/// The number of full rows the line-clear detector reports in this tick of the standard
/// pipeline: the clear the score keeper will credit.
pub open spec fn pending_clear(pins: InputPins, bus: SystemBus) -> u8 {
    run_chips(standard_pipeline().take(10), pins, grounded(bus)).wires.lines_cleared_this_tick
}

/// Room for the clear this tick will credit: the points fit the score, the lines fit the
/// line total, and the level that total gives fits a `u16`.
pub open spec fn tick_room(pins: InputPins, bus: SystemBus) -> bool {
    let n = pending_clear(pins, bus);
    let lines = if n == 0 { bus.lines_cleared as int } else { bus.lines_cleared + n };
    &&& n == 0 || (bus.score + clear_points(n, bus.level) <= u32::MAX && bus.lines_cleared + n
        <= u32::MAX)
    &&& ((lines / 10) as u16) < u16::MAX
}

/// The first ten chips of the standard pipeline, up to the line-clear detector.
proof fn lemma_prefix_ten(pins: InputPins, g: SystemBus)
    ensures
        run_chips(standard_pipeline().take(10), pins, g) == Chip::LineClearDetector(
            crate::chips::LineClearDetectorChip,
        ).ticked(
            pins,
            Chip::HoldController(crate::chips::HoldControllerChip).ticked(
                pins,
                Chip::PieceLocker(crate::chips::PieceLockerChip).ticked(
                    pins,
                    Chip::LockDelayTimer(crate::chips::LockDelayTimerChip).ticked(
                        pins,
                        Chip::Movement(crate::chips::MovementChip).ticked(
                            pins,
                            Chip::Rotation(crate::chips::RotationChip).ticked(
                                pins,
                                Chip::CollisionDetector(crate::chips::CollisionDetectorChip).ticked(
                                    pins,
                                    Chip::DasTimer(crate::chips::DasTimerChip).ticked(
                                        pins,
                                        Chip::GravityTimer(crate::chips::GravityTimerChip).ticked(
                                            pins,
                                            Chip::InputDecoder(crate::chips::InputDecoderChip).ticked(pins, g),
                                        ),
                                    ),
                                ),
                            ),
                        ),
                    ),
                ),
            ),
        ),
{
    crate::placement::lemma_pipeline_value();
    let p = standard_pipeline();
    assert(p.take(0) =~= Seq::<Chip>::empty());
    crate::placement::lemma_run_step(p, 0, pins, g);
    crate::placement::lemma_run_step(p, 1, pins, g);
    crate::placement::lemma_run_step(p, 2, pins, g);
    crate::placement::lemma_run_step(p, 3, pins, g);
    crate::placement::lemma_run_step(p, 4, pins, g);
    crate::placement::lemma_run_step(p, 5, pins, g);
    crate::placement::lemma_run_step(p, 6, pins, g);
    crate::placement::lemma_run_step(p, 7, pins, g);
    crate::placement::lemma_run_step(p, 8, pins, g);
    crate::placement::lemma_run_step(p, 9, pins, g);
}

/// With room for the pending clear, the standard pipeline can tick any well-formed bus.
#[verifier::spinoff_prover]
#[verifier::rlimit(60)]
pub proof fn lemma_room_runs(pins: InputPins, bus: SystemBus)
    requires
        bus.wf(),
        tick_room(pins, bus),
    ensures
        chips_ok(standard_pipeline(), pins, grounded(bus)),
{
    crate::placement::lemma_pipeline_value();
    let p = standard_pipeline();
    let g = grounded(bus);
    assert(p.take(0) =~= Seq::<Chip>::empty());
    assert(p.take(15) =~= p);
    lemma_tally_step(p, 0, pins, g);
    lemma_tally_step(p, 1, pins, g);
    lemma_tally_step(p, 2, pins, g);
    lemma_tally_step(p, 3, pins, g);
    lemma_tally_step(p, 4, pins, g);
    lemma_tally_step(p, 5, pins, g);
    lemma_tally_step(p, 6, pins, g);
    lemma_tally_step(p, 7, pins, g);
    lemma_tally_step(p, 8, pins, g);
    lemma_tally_step(p, 9, pins, g);
    lemma_tally_step(p, 10, pins, g);
    let b10 = run_chips(p.take(10), pins, g);
    let b11 = run_chips(p.take(11), pins, g);
    assert(b11.wires.lines_cleared_this_tick == b10.wires.lines_cleared_this_tick);
    assert(p[11].can_tick(pins, b11));
    lemma_extend(p, 11, pins, g);
    lemma_chip_keeps_wf(p[11], pins, b11);
    let b12 = run_chips(p.take(12), pins, g);
    assert(p[12].can_tick(pins, b12));
    lemma_extend(p, 12, pins, g);
    lemma_chip_keeps_wf(p[12], pins, b12);
    lemma_tally_step(p, 13, pins, g);
    lemma_tally_step(p, 14, pins, g);
}

/// Run one tally-keeping chip on a well-formed bus.
fn tally_tick(chip: &Chip, pins: &InputPins, bus: &mut SystemBus)
    requires
        old(bus).wf(),
        keeps_tally(*chip),
    ensures
        *final(bus) == chip.ticked(*pins, *old(bus)),
        final(bus).wf(),
{
    proof {
        lemma_wf_can_tick(*chip, *pins, *bus);
        lemma_chip_keeps_wf(*chip, *pins, *bus);
    }
    chip.tick(pins, bus);
}

/// Whether the standard pipeline can tick this bus with these pins without a fault: the
/// bus is well formed and the score, the line total and the level have room for the
/// clear this very tick credits (found by running the chips up to the line-clear
/// detector on a copy).
pub fn standard_tick_ready(pins: &InputPins, bus: &SystemBus) -> (r: bool)
    ensures
        r == (bus.wf() && tick_room(*pins, *bus)),
        r ==> chips_ok(standard_pipeline(), *pins, grounded(*bus)),
{
    let well_formed = bus.piece_type.0 < 7 && bus.next_piece_type.0 < 7 && match bus.hold_piece_type {
        Some(h) => h.0 < 7,
        None => true,
    } && bus.piece_rotation < 4 && bus.gravity_interval_ns > 0 && bus.das_repeat_ns > 0;
    if !well_formed {
        return false;
    }
    let mut b = SystemBus { wires: crate::bus::Wires::default(), ..*bus };
    let ghost g = b;
    assert(g == grounded(*bus));
    tally_tick(&Chip::InputDecoder(crate::chips::InputDecoderChip), pins, &mut b);
    tally_tick(&Chip::GravityTimer(crate::chips::GravityTimerChip), pins, &mut b);
    tally_tick(&Chip::DasTimer(crate::chips::DasTimerChip), pins, &mut b);
    tally_tick(&Chip::CollisionDetector(crate::chips::CollisionDetectorChip), pins, &mut b);
    tally_tick(&Chip::Rotation(crate::chips::RotationChip), pins, &mut b);
    tally_tick(&Chip::Movement(crate::chips::MovementChip), pins, &mut b);
    tally_tick(&Chip::LockDelayTimer(crate::chips::LockDelayTimerChip), pins, &mut b);
    tally_tick(&Chip::PieceLocker(crate::chips::PieceLockerChip), pins, &mut b);
    tally_tick(&Chip::HoldController(crate::chips::HoldControllerChip), pins, &mut b);
    tally_tick(&Chip::LineClearDetector(crate::chips::LineClearDetectorChip), pins, &mut b);
    proof {
        lemma_prefix_ten(*pins, g);
    }
    let n = b.wires.lines_cleared_this_tick;
    assert(n == pending_clear(*pins, *bus));
    let lines: u64 = if n == 0 { bus.lines_cleared as u64 } else { bus.lines_cleared as u64 + n as u64 };
    let idx: usize = if n > 4 { 4 } else { n as usize };
    let base: u64 = crate::chips::score_keeper::LINE_CLEAR_POINTS[idx] as u64;
    let factor: u64 = bus.level as u64 + 1;
    proof {
        assert(LINE_CLEAR_POINTS@[idx as int] <= 1200) by {
            assert(LINE_CLEAR_POINTS@ =~= seq![0u32, 40, 100, 300, 1200]);
        }
        assert(base * factor <= 1200 * 65536) by (nonlinear_arith)
            requires
                base <= 1200,
                factor <= 65536,
        ;
    }
    let points: u64 = base * factor;
    assert(points == clear_points(n, bus.level));
    let credit_fits = n == 0 || (bus.score as u64 + points <= 4_294_967_295u64
        && bus.lines_cleared as u64 + n as u64 <= 4_294_967_295u64);
    let level_fits = ((lines / 10) as u16) < 65535u16;
    let r = credit_fits && level_fits;
    if r {
        proof {
            lemma_room_runs(*pins, *bus);
        }
    }
    r
}

/// No chip touches the tick counter or the game phase.
#[verifier::spinoff_prover]
#[verifier::rlimit(40)]
pub proof fn lemma_chip_keeps_clock(chip: Chip, pins: InputPins, bus: SystemBus)
    ensures
        chip.ticked(pins, bus).tick_count == bus.tick_count,
        chip.ticked(pins, bus).game_phase == bus.game_phase,
{
}

/// Running a pipeline leaves the tick counter and the game phase alone.
pub proof fn lemma_run_keeps_clock(chips: Seq<Chip>, pins: InputPins, bus: SystemBus)
    ensures
        run_chips(chips, pins, bus).tick_count == bus.tick_count,
        run_chips(chips, pins, bus).game_phase == bus.game_phase,
    decreases chips.len(),
{
    if chips.len() > 0 {
        lemma_run_keeps_clock(chips.drop_last(), pins, bus);
        lemma_chip_keeps_clock(chips.last(), pins, run_chips(chips.drop_last(), pins, bus));
    }
}

/// Each clock tick advances the tick counter by one (wrapping), and the game is over
/// after a tick exactly when it was over before or the tick raised game over; in
/// particular a finished game stays finished.
pub proof fn lemma_clock_counts_and_latches(chips: Seq<Chip>, pins: InputPins, bus: SystemBus)
    ensures
        clock_cycle(chips, pins, bus).tick_count == bus.tick_count.wrapping_add(1),
        (clock_cycle(chips, pins, bus).game_phase == GamePhase::GameOver) <==> (bus.game_phase
            == GamePhase::GameOver || run_chips(chips, pins, grounded(bus)).wires.game_over_triggered),
        bus.game_phase == GamePhase::GameOver ==> clock_cycle(chips, pins, bus).game_phase == GamePhase::GameOver,
{
    lemma_run_keeps_clock(chips, pins, grounded(bus));
}

/// After a tick of the standard pipeline the ghost piece sits in the active piece's
/// column, on the row a hard drop of the active piece would end on: never above it.
pub proof fn lemma_standard_tick_places_ghost(pins: InputPins, bus: SystemBus)
    requires
        bus.wf(),
        score_headroom(bus),
    ensures
        ({
            let r = clock_cycle(standard_pipeline(), pins, bus);
            &&& r.ghost_x == r.piece_x
            &&& is_ghost_row(r.piece_x as int, r.piece_y as int, r.piece_type.0, r.piece_rotation, r.board, r.ghost_y as int)
            &&& r.ghost_y >= r.piece_y
        }),
{
    lemma_standard_shape();
    lemma_standard_pipeline_runs(pins, bus);
    let p = standard_pipeline();
    let g = grounded(bus);
    assert(p.take(15) =~= p);
    lemma_chips_ok_prefix(p, pins, g, 14);
    lemma_run_keeps_wf(p.take(14), pins, g);
    let b = run_chips(p.take(14), pins, g);
    lemma_extend_last(p, pins, g);
    lemma_ghost_row_exists(b.piece_x as int, b.piece_y as int, b.piece_type.0, b.piece_rotation, b.board);
}

proof fn lemma_extend_last(p: Seq<Chip>, pins: InputPins, g: SystemBus)
    requires
        p.len() == 15,
    ensures
        run_chips(p, pins, g) == p[14].ticked(pins, run_chips(p.take(14), pins, g)),
{
    assert(p.drop_last() =~= p.take(14));
}

/// No chip empties the hold slot, and a chip that marks the hold as used leaves a piece
/// in the slot.
#[verifier::spinoff_prover]
#[verifier::rlimit(40)]
pub proof fn lemma_chip_hold_consistent(chip: Chip, pins: InputPins, bus: SystemBus)
    requires
        chip.can_tick(pins, bus),
    ensures
        bus.hold_piece_type is Some ==> chip.ticked(pins, bus).hold_piece_type is Some,
        chip.ticked(pins, bus).hold_used && !bus.hold_used ==> chip.ticked(pins, bus).hold_piece_type is Some,
{
}

/// Over a run, the hold slot is never emptied, and a hold marked used that was not used
/// before has a piece in the slot.
pub proof fn lemma_run_hold_consistent(chips: Seq<Chip>, pins: InputPins, bus: SystemBus)
    requires
        chips_ok(chips, pins, bus),
    ensures
        bus.hold_piece_type is Some ==> run_chips(chips, pins, bus).hold_piece_type is Some,
        run_chips(chips, pins, bus).hold_used && !bus.hold_used ==> run_chips(chips, pins, bus).hold_piece_type is Some,
    decreases chips.len(),
{
    if chips.len() > 0 {
        lemma_run_hold_consistent(chips.drop_last(), pins, bus);
        lemma_chip_hold_consistent(chips.last(), pins, run_chips(chips.drop_last(), pins, bus));
    }
}

/// A tick that turns the hold from unused to used leaves a piece in the hold slot, and a
/// tick never empties the hold slot.
pub proof fn lemma_clock_hold_consistent(chips: Seq<Chip>, pins: InputPins, bus: SystemBus)
    requires
        chips_ok(chips, pins, grounded(bus)),
    ensures
        bus.hold_piece_type is Some ==> clock_cycle(chips, pins, bus).hold_piece_type is Some,
        clock_cycle(chips, pins, bus).hold_used && !bus.hold_used ==> clock_cycle(chips, pins, bus).hold_piece_type is Some,
{
    lemma_run_hold_consistent(chips, pins, grounded(bus));
}

/// A tick does not depend on the wires the previous tick left behind: two buses that
/// differ only in their wires tick to the same bus.
pub proof fn lemma_tick_ignores_stale_wires(
    chips: Seq<Chip>,
    pins: InputPins,
    a: SystemBus,
    b: SystemBus,
)
    requires
        (SystemBus { wires: a.wires, ..b }) == a,
    ensures
        clock_cycle(chips, pins, a) == clock_cycle(chips, pins, b),
{
    assert(grounded(a) == grounded(b));
}

/// Only the piece locker and the line-clear committer write the board: every other chip
/// leaves it as it was.
#[verifier::spinoff_prover]
#[verifier::rlimit(40)]
pub proof fn lemma_only_board_writers_touch_board(chip: Chip, pins: InputPins, bus: SystemBus)
    requires
        !spec_chip_mutates_board(spec_chip_id(chip)),
    ensures
        chip.ticked(pins, bus).board == bus.board,
{
}

/// The standard layers hold fifteen chips, one of each kind.
pub proof fn lemma_standard_pipeline_has_each_kind_once()
    ensures
        standard_pipeline().len() == 15,
        forall|i: int, j: int|
            0 <= i < j < 15 ==> spec_chip_id(#[trigger] standard_pipeline()[i]) != spec_chip_id(
                #[trigger] standard_pipeline()[j],
            ),
{
    reveal_with_fuel(flatten_layers, 5);
    let p = standard_pipeline();
    assert(p =~= seq![
        Chip::InputDecoder(crate::chips::InputDecoderChip),
        Chip::GravityTimer(crate::chips::GravityTimerChip),
        Chip::DasTimer(crate::chips::DasTimerChip),
        Chip::CollisionDetector(crate::chips::CollisionDetectorChip),
        Chip::Rotation(crate::chips::RotationChip),
        Chip::Movement(crate::chips::MovementChip),
        Chip::LockDelayTimer(crate::chips::LockDelayTimerChip),
        Chip::PieceLocker(crate::chips::PieceLockerChip),
        Chip::HoldController(crate::chips::HoldControllerChip),
        Chip::LineClearDetector(crate::chips::LineClearDetectorChip),
        Chip::LineClearCommitter(crate::chips::LineClearCommitterChip),
        Chip::ScoreKeeper(crate::chips::ScoreKeeperChip),
        Chip::LevelCalculator(crate::chips::LevelCalculatorChip),
        Chip::SpawnController(crate::chips::SpawnControllerChip),
        Chip::GhostComputer(crate::chips::GhostComputerChip),
    ]);
}

/// One clock tick of `replay`: the tick `clock_tick` performs.
#[verifier::opaque]
pub open spec fn replay_step(chips: Seq<Chip>, pins: InputPins, bus: SystemBus) -> SystemBus {
    clock_cycle(chips, pins, bus)
}

/// The bus after clocking a pipeline through a recorded sequence of input pins.
pub open spec fn replay(chips: Seq<Chip>, pins: Seq<InputPins>, bus: SystemBus) -> SystemBus
    decreases pins.len(),
{
    if pins.len() == 0 {
        bus
    } else {
        replay_step(chips, pins.last(), replay(chips, pins.drop_last(), bus))
    }
}

/// Deterministic replay: feeding the same recorded pins to the same pipeline from two
/// buses that agree on every register (their wires may differ) ends on the same bus.
#[verifier::spinoff_prover]
#[verifier::rlimit(40)]
pub proof fn lemma_replay_deterministic(
    chips: Seq<Chip>,
    pins: Seq<InputPins>,
    a: SystemBus,
    b: SystemBus,
)
    requires
        (SystemBus { wires: a.wires, ..b }) == a,
        pins.len() > 0,
    ensures
        replay(chips, pins, a) == replay(chips, pins, b),
    decreases pins.len(),
{
    let rest = pins.drop_last();
    let ra = replay(chips, rest, a);
    let rb = replay(chips, rest, b);
    if rest.len() == 0 {
        assert(ra == a && rb == b);
        assert(replay_step(chips, pins.last(), a) == replay_step(chips, pins.last(), b)) by {
            reveal(replay_step);
            lemma_tick_ignores_stale_wires(chips, pins.last(), a, b);
        }
    } else {
        lemma_replay_deterministic(chips, rest, a, b);
        assert(ra == rb);
    }
}

/// After a tick of the standard pipeline no spawn is pending: the spawn controller
/// either places the next piece or, when it is blocked, ends the game and drops the
/// request. In particular a finished game never has a spawn pending.
pub proof fn lemma_no_spawn_left_pending(pins: InputPins, bus: SystemBus)
    ensures
        !clock_cycle(standard_pipeline(), pins, bus).wires.should_spawn_next,
        clock_cycle(standard_pipeline(), pins, bus).game_phase == GamePhase::GameOver
            ==> !clock_cycle(standard_pipeline(), pins, bus).wires.should_spawn_next,
{
    lemma_standard_shape_kinds();
    let p = standard_pipeline();
    let g = grounded(bus);
    lemma_extend_last(p, pins, g);
    assert(p.take(14).drop_last() =~= p.take(13));
}

/// The last two chips of the standard pipeline are the spawn controller and the ghost.
proof fn lemma_standard_shape_kinds()
    ensures
        standard_pipeline().len() == 15,
        standard_pipeline()[13] == Chip::SpawnController(crate::chips::SpawnControllerChip),
        standard_pipeline()[14] == Chip::GhostComputer(crate::chips::GhostComputerChip),
{
    reveal_with_fuel(flatten_layers, 5);
}

} // verus!





