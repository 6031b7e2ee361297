//! While the game is playing, the active piece never overlaps the board or leaves it.
use vstd::prelude::*;
use crate::bus::{Board, GamePhase, InputPins, SystemBus, BOARD_ROWS};
use crate::chips::{
    Chip, CollisionDetectorChip, DasTimerChip, GhostComputerChip, GravityTimerChip,
    HoldControllerChip, InputDecoderChip, LevelCalculatorChip, LineClearCommitterChip,
    LineClearDetectorChip, LockDelayTimerChip, LogicChip, MovementChip, PieceLockerChip,
    RotationChip, ScoreKeeperChip, SpawnControllerChip,
};
use crate::chips::line_clear::{
    compact, full_mask_upto, kept_rows_from, lemma_compact_is_compacted,
    lemma_detector_marks_full_rows, lemma_kept_rows_range, row_full, row_marked,
};
use crate::chips::rotation::{first_fit, lemma_first_fit_fits, turn_target};
use crate::chips::tetrominoes::{kick, lemma_free_anchor_bounds, spec_collides};
use crate::laws::standard_pipeline;
use crate::motherboard::{clock_cycle, flatten_layers, grounded, run_chips};

verus! {

/// The active piece overlaps nothing and lies on the playfield.
pub open spec fn piece_fits(b: SystemBus) -> bool {
    !spec_collides(b.piece_x as int, b.piece_y as int, b.piece_type.0, b.piece_rotation, b.board)
}

/// No row of the board is full.
pub open spec fn no_full_row(board: Board) -> bool {
    forall|r: int| 0 <= r < BOARD_ROWS ==> !#[trigger] row_full(board, r)
}

/// The piece fits, nothing is to be cleared and no hold is requested.
spec fn calm(b: SystemBus) -> bool {
    &&& piece_fits(b)
    &&& no_full_row(b.board)
    &&& !b.wires.hold_requested
    &&& b.wires.full_row_mask == 0
}

/// Before the lock delay runs: the piece indexes the shape table, and the game is over,
/// a spawn is pending, a lock is pending or all is calm.
spec fn before_delay(b: SystemBus) -> bool {
    &&& b.piece_type.0 < 7
    &&& b.piece_rotation < 4
    &&& !b.wires.lock_delay_expired
    &&& (b.wires.game_over_triggered || b.wires.should_spawn_next || b.wires.piece_locked || calm(b))
}

/// Between the lock delay and the locker.
spec fn before_lock(b: SystemBus) -> bool {
    b.wires.game_over_triggered || b.wires.should_spawn_next || b.wires.piece_locked
        || b.wires.lock_delay_expired || calm(b)
}

/// After the locker.
spec fn after_lock(b: SystemBus) -> bool {
    b.wires.game_over_triggered || b.wires.should_spawn_next || calm(b)
}

/// After the spawn controller.
spec fn settled(b: SystemBus) -> bool {
    b.wires.game_over_triggered || piece_fits(b)
}

pub proof fn lemma_pipeline_value()
    ensures
        standard_pipeline() == seq![
            Chip::InputDecoder(InputDecoderChip),
            Chip::GravityTimer(GravityTimerChip),
            Chip::DasTimer(DasTimerChip),
            Chip::CollisionDetector(CollisionDetectorChip),
            Chip::Rotation(RotationChip),
            Chip::Movement(MovementChip),
            Chip::LockDelayTimer(LockDelayTimerChip),
            Chip::PieceLocker(PieceLockerChip),
            Chip::HoldController(HoldControllerChip),
            Chip::LineClearDetector(LineClearDetectorChip),
            Chip::LineClearCommitter(LineClearCommitterChip),
            Chip::ScoreKeeper(ScoreKeeperChip),
            Chip::LevelCalculator(LevelCalculatorChip),
            Chip::SpawnController(SpawnControllerChip),
            Chip::GhostComputer(GhostComputerChip),
        ],
{
    reveal_with_fuel(flatten_layers, 5);
    assert(standard_pipeline() =~= seq![
        Chip::InputDecoder(InputDecoderChip),
        Chip::GravityTimer(GravityTimerChip),
        Chip::DasTimer(DasTimerChip),
        Chip::CollisionDetector(CollisionDetectorChip),
        Chip::Rotation(RotationChip),
        Chip::Movement(MovementChip),
        Chip::LockDelayTimer(LockDelayTimerChip),
        Chip::PieceLocker(PieceLockerChip),
        Chip::HoldController(HoldControllerChip),
        Chip::LineClearDetector(LineClearDetectorChip),
        Chip::LineClearCommitter(LineClearCommitterChip),
        Chip::ScoreKeeper(ScoreKeeperChip),
        Chip::LevelCalculator(LevelCalculatorChip),
        Chip::SpawnController(SpawnControllerChip),
        Chip::GhostComputer(GhostComputerChip),
    ]);
}

pub proof fn lemma_run_step(p: Seq<Chip>, k: int, pins: InputPins, g: SystemBus)
    requires
        0 <= k < p.len(),
    ensures
        run_chips(p.take(k + 1), pins, g) == p[k].ticked(pins, run_chips(p.take(k), pins, g)),
{
    assert(p.take(k + 1).drop_last() =~= p.take(k));
}

proof fn lemma_no_full_row_mask(board: Board, n: int)
    requires
        0 <= n <= BOARD_ROWS,
        no_full_row(board),
    ensures
        full_mask_upto(board, n) == 0,
    decreases n,
{
    if n > 0 {
        lemma_no_full_row_mask(board, n - 1);
        assert(!row_full(board, n - 1));
        assert(0u32 | 0u32 == 0u32) by (bit_vector);
    }
}

proof fn lemma_decoder_step(pins: InputPins, b: SystemBus)
    requires
        before_delay(b),
        !b.wires.hold_requested,
        !(pins.key_c && !b.prev_key_c),
    ensures
        before_delay(Chip::InputDecoder(InputDecoderChip).ticked(pins, b)),
{
}

#[verifier::spinoff_prover]
proof fn lemma_timers_step(pins: InputPins, b: SystemBus)
    requires
        before_delay(b),
    ensures
        before_delay(Chip::GravityTimer(GravityTimerChip).ticked(pins, b)),
        before_delay(Chip::DasTimer(DasTimerChip).ticked(pins, b)),
        before_delay(Chip::CollisionDetector(CollisionDetectorChip).ticked(pins, b)),
{
}

#[verifier::spinoff_prover]
#[verifier::rlimit(40)]
proof fn lemma_rotation_step(pins: InputPins, b: SystemBus)
    requires
        before_delay(b),
    ensures
        before_delay(Chip::Rotation(RotationChip).ticked(pins, b)),
{
    let r = Chip::Rotation(RotationChip).ticked(pins, b);
    let to = turn_target(b);
    let pt = b.piece_type.0;
    if (b.wires.rotate_cw || b.wires.rotate_ccw) && pt != 3 {
        let f = first_fit(b.piece_x as int, b.piece_y as int, pt, b.piece_rotation, to, b.board, 0);
        if f is Some {
            lemma_first_fit_fits(b.piece_x as int, b.piece_y as int, pt, b.piece_rotation, to, b.board, 0);
            let (dx, dy) = kick(pt, b.piece_rotation, to, f->0);
            lemma_free_anchor_bounds(b.piece_x + dx, b.piece_y + dy, pt, to, b.board);
            assert(r.piece_x == b.piece_x + dx && r.piece_y == b.piece_y + dy);
        }
    }
}

#[verifier::spinoff_prover]
proof fn lemma_shift_stage(b: SystemBus)
    requires
        before_delay(b),
    ensures
        before_delay(crate::chips::movement::shift_stage(b)),
{
    let nx = b.piece_x + b.wires.dx;
    if b.wires.dx != 0 && !spec_collides(nx, b.piece_y as int, b.piece_type.0, b.piece_rotation, b.board) {
        lemma_free_anchor_bounds(nx, b.piece_y as int, b.piece_type.0, b.piece_rotation, b.board);
    }
}

#[verifier::spinoff_prover]
proof fn lemma_drop_stage(b: SystemBus)
    requires
        before_delay(b),
    ensures
        before_delay(crate::chips::movement::drop_stage(b)),
        before_delay(crate::chips::movement::settle_stage(b)),
{
    let ny = b.piece_y + 1;
    if !spec_collides(b.piece_x as int, ny, b.piece_type.0, b.piece_rotation, b.board) {
        lemma_free_anchor_bounds(b.piece_x as int, ny, b.piece_type.0, b.piece_rotation, b.board);
    }
}

#[verifier::spinoff_prover]
proof fn lemma_movement_step(pins: InputPins, b: SystemBus)
    requires
        before_delay(b),
    ensures
        before_delay(Chip::Movement(MovementChip).ticked(pins, b)),
{
    if !b.wires.hard_drop_requested {
        let s = crate::chips::movement::shift_stage(b);
        lemma_shift_stage(b);
        let d = crate::chips::movement::drop_stage(s);
        lemma_drop_stage(s);
        lemma_drop_stage(d);
    }
}

#[verifier::spinoff_prover]
proof fn lemma_delay_and_lock_step(pins: InputPins, b: SystemBus)
    requires
        before_delay(b),
    ensures
        before_lock(Chip::LockDelayTimer(LockDelayTimerChip).ticked(pins, b)),
        after_lock(Chip::PieceLocker(PieceLockerChip).ticked(pins, Chip::LockDelayTimer(LockDelayTimerChip).ticked(pins, b))),
{
}

#[verifier::spinoff_prover]
#[verifier::rlimit(40)]
proof fn lemma_after_lock_steps(pins: InputPins, b: SystemBus)
    requires
        after_lock(b),
    ensures
        after_lock(Chip::HoldController(HoldControllerChip).ticked(pins, b)),
        after_lock(Chip::LineClearDetector(LineClearDetectorChip).ticked(pins, b)),
        after_lock(Chip::LineClearCommitter(LineClearCommitterChip).ticked(pins, b)),
        after_lock(Chip::ScoreKeeper(ScoreKeeperChip).ticked(pins, b)),
        after_lock(Chip::LevelCalculator(LevelCalculatorChip).ticked(pins, b)),
        settled(Chip::SpawnController(SpawnControllerChip).ticked(pins, b)),
{
    if calm(b) {
        lemma_no_full_row_mask(b.board, BOARD_ROWS as int);
    }
}

/// While the game is playing, the active piece never overlaps the board or leaves it:
/// from a playing bus whose piece fits, with no full row on the board and no fresh press
/// of the hold key, a tick of the standard pipeline that leaves the game playing leaves
/// the active piece fitting. (A hold places the held piece at the spawn position without
/// a check, so a fresh hold press is left out.)
#[verifier::spinoff_prover]
#[verifier::rlimit(40)]
pub proof fn lemma_playing_piece_fits(pins: InputPins, bus: SystemBus)
    requires
        bus.wf(),
        bus.game_phase == GamePhase::Playing,
        piece_fits(bus),
        no_full_row(bus.board),
        !(pins.key_c && !bus.prev_key_c),
    ensures
        clock_cycle(standard_pipeline(), pins, bus).game_phase == GamePhase::Playing ==> piece_fits(
            clock_cycle(standard_pipeline(), pins, bus),
        ),
{
    lemma_pipeline_value();
    let p = standard_pipeline();
    let g = grounded(bus);
    assert(p.take(0) =~= Seq::<Chip>::empty());
    assert(p.take(15) =~= p);
    assert(before_delay(g));
    assert(before_delay(run_chips(p.take(1), pins, g))) by {
        lemma_run_step(p, 0, pins, g);
        lemma_decoder_step(pins, g);
    }
    assert(before_delay(run_chips(p.take(2), pins, g))) by {
        lemma_run_step(p, 1, pins, g);
        lemma_timers_step(pins, run_chips(p.take(1), pins, g));
    }
    assert(before_delay(run_chips(p.take(3), pins, g))) by {
        lemma_run_step(p, 2, pins, g);
        lemma_timers_step(pins, run_chips(p.take(2), pins, g));
    }
    assert(before_delay(run_chips(p.take(4), pins, g))) by {
        lemma_run_step(p, 3, pins, g);
        lemma_timers_step(pins, run_chips(p.take(3), pins, g));
    }
    assert(before_delay(run_chips(p.take(5), pins, g))) by {
        lemma_run_step(p, 4, pins, g);
        lemma_rotation_step(pins, run_chips(p.take(4), pins, g));
    }
    assert(before_delay(run_chips(p.take(6), pins, g))) by {
        lemma_run_step(p, 5, pins, g);
        lemma_movement_step(pins, run_chips(p.take(5), pins, g));
    }
    assert(after_lock(run_chips(p.take(8), pins, g))) by {
        lemma_run_step(p, 6, pins, g);
        lemma_run_step(p, 7, pins, g);
        lemma_delay_and_lock_step(pins, run_chips(p.take(6), pins, g));
    }
    assert(after_lock(run_chips(p.take(9), pins, g))) by {
        lemma_run_step(p, 8, pins, g);
        lemma_after_lock_steps(pins, run_chips(p.take(8), pins, g));
    }
    assert(after_lock(run_chips(p.take(10), pins, g))) by {
        lemma_run_step(p, 9, pins, g);
        lemma_after_lock_steps(pins, run_chips(p.take(9), pins, g));
    }
    assert(after_lock(run_chips(p.take(11), pins, g))) by {
        lemma_run_step(p, 10, pins, g);
        lemma_after_lock_steps(pins, run_chips(p.take(10), pins, g));
    }
    assert(after_lock(run_chips(p.take(12), pins, g))) by {
        lemma_run_step(p, 11, pins, g);
        lemma_after_lock_steps(pins, run_chips(p.take(11), pins, g));
    }
    assert(after_lock(run_chips(p.take(13), pins, g))) by {
        lemma_run_step(p, 12, pins, g);
        lemma_after_lock_steps(pins, run_chips(p.take(12), pins, g));
    }
    assert(settled(run_chips(p.take(14), pins, g))) by {
        lemma_run_step(p, 13, pins, g);
        lemma_after_lock_steps(pins, run_chips(p.take(13), pins, g));
    }
    assert(settled(run_chips(p.take(15), pins, g))) by {
        lemma_run_step(p, 14, pins, g);
    }
}

/// The board the line-clear detector and committer leave: with the full rows of `board`
/// removed (the board itself when none is full).
pub open spec fn cleared_board(board: Board) -> Board {
    let mask = full_mask_upto(board, BOARD_ROWS as int);
    if mask == 0 {
        board
    } else {
        compact(board, mask)
    }
}

proof fn lemma_kept_unmarked(mask: u32, s: int)
    requires
        0 <= s <= BOARD_ROWS,
    ensures
        forall|k: int|
            0 <= k < kept_rows_from(mask, s).len() ==> !row_marked(mask, #[trigger] kept_rows_from(mask, s)[k]),
    decreases BOARD_ROWS - s,
{
    if s < BOARD_ROWS {
        lemma_kept_unmarked(mask, s + 1);
        if row_marked(mask, s) {
            assert(kept_rows_from(mask, s) == kept_rows_from(mask, s + 1));
        } else {
            let rest = kept_rows_from(mask, s + 1);
            assert(kept_rows_from(mask, s) == seq![s].add(rest));
            assert forall|k: int| 0 <= k < kept_rows_from(mask, s).len() implies !row_marked(
                mask,
                #[trigger] kept_rows_from(mask, s)[k],
            ) by {
                if k > 0 {
                    assert(kept_rows_from(mask, s)[k] == rest[k - 1]);
                }
            }
        }
    }
}

/// Clearing the full rows leaves no full row.
pub proof fn lemma_cleared_board_has_no_full_row(board: Board)
    ensures
        no_full_row(cleared_board(board)),
{
    let mask = full_mask_upto(board, BOARD_ROWS as int);
    lemma_detector_marks_full_rows(board);
    if mask == 0 {
        assert forall|r: int| 0 <= r < BOARD_ROWS implies !#[trigger] row_full(board, r) by {
            let rr = r as u32;
            assert(0u32 & (1u32 << rr) == 0) by (bit_vector);
            assert(!row_marked(mask, r));
        }
    } else {
        let after = compact(board, mask);
        lemma_compact_is_compacted(board, mask);
        lemma_kept_rows_range(mask, 0);
        lemma_kept_unmarked(mask, 0);
        let kept = kept_rows_from(mask, 0);
        let top = BOARD_ROWS - kept.len();
        assert forall|y: int| 0 <= y < BOARD_ROWS implies !#[trigger] row_full(after, y) by {
            if y < top {
                assert(after@[y]@[0] == crate::bus::Cell(0));
                assert(!(after@[y]@[0].0 != 0));
            } else {
                let src = kept[y - top];
                assert(0 <= src < BOARD_ROWS);
                assert(after@[y] == board@[src]);
                assert(!row_marked(mask, src));
                assert(!row_full(board, src));
                let c = choose|c: int| 0 <= c < crate::bus::BOARD_COLS && !(#[trigger] board@[src]@[c].0 != 0);
                assert(0 <= c < crate::bus::BOARD_COLS && board@[src]@[c].0 == 0);
                assert(after@[y]@[c] == board@[src]@[c]);
                assert(!(after@[y]@[c].0 != 0));
            }
        }
    }
}

/// After any tick of the standard pipeline no row of the board is full: the committer
/// removes every full row, and no chip after it writes the board.
#[verifier::spinoff_prover]
#[verifier::rlimit(40)]
pub proof fn lemma_tick_leaves_no_full_row(pins: InputPins, bus: SystemBus)
    ensures
        no_full_row(clock_cycle(standard_pipeline(), pins, bus).board),
{
    lemma_pipeline_value();
    let p = standard_pipeline();
    let g = grounded(bus);
    assert(p.take(15) =~= p);
    let b9 = run_chips(p.take(9), pins, g);
    assert(run_chips(p.take(11), pins, g).board == cleared_board(b9.board)) by {
        lemma_run_step(p, 9, pins, g);
        lemma_run_step(p, 10, pins, g);
    }
    assert(run_chips(p.take(15), pins, g).board == run_chips(p.take(11), pins, g).board) by {
        lemma_run_step(p, 11, pins, g);
        lemma_run_step(p, 12, pins, g);
        lemma_run_step(p, 13, pins, g);
        lemma_run_step(p, 14, pins, g);
    }
    lemma_cleared_board_has_no_full_row(b9.board);
}

/// Over a whole game: from a playing bus whose piece fits and whose board has no full
/// row, every tick without a fresh hold press that keeps the game playing keeps the
/// piece fitting and the board free of full rows, so the two conditions carry on to the
/// next tick.
pub proof fn lemma_fit_carries_over(pins: InputPins, bus: SystemBus)
    requires
        bus.wf(),
        bus.game_phase == GamePhase::Playing,
        piece_fits(bus),
        no_full_row(bus.board),
        !(pins.key_c && !bus.prev_key_c),
    ensures
        clock_cycle(standard_pipeline(), pins, bus).game_phase == GamePhase::Playing ==> {
            &&& piece_fits(clock_cycle(standard_pipeline(), pins, bus))
            &&& no_full_row(clock_cycle(standard_pipeline(), pins, bus).board)
        },
{
    lemma_playing_piece_fits(pins, bus);
    lemma_tick_leaves_no_full_row(pins, bus);
}

} // verus!
