use vstd::prelude::*;
use vstd::array::{spec_array_fill_for_copy_type, spec_array_update};
use super::{LineClearCommitterChip, LineClearDetectorChip, LogicChip};
use crate::bus::{Board, Cell, InputPins, SystemBus, Wires, BOARD_COLS, BOARD_ROWS};

verus! {

/// Every cell of row `r` is occupied.
pub open spec fn row_full(board: Board, r: int) -> bool {
    forall|c: int| 0 <= c < BOARD_COLS ==> #[trigger] board@[r]@[c].0 != 0
}

/// The bit mask of the full rows among rows `0..n` (bit `r` for row `r`).
pub open spec fn full_mask_upto(board: Board, n: int) -> u32
    decreases n,
{
    if n <= 0 {
        0
    } else {
        full_mask_upto(board, n - 1) | (if row_full(board, n - 1) { 1u32 << ((n - 1) as u32) } else { 0u32 })
    }
}

/// The number of full rows among rows `0..n`.
pub open spec fn full_count_upto(board: Board, n: int) -> int
    decreases n,
{
    if n <= 0 {
        0
    } else {
        full_count_upto(board, n - 1) + (if row_full(board, n - 1) { 1int } else { 0int })
    }
}

/// Whether `mask` marks row `r` for clearing.
pub open spec fn row_marked(mask: u32, r: int) -> bool {
    mask & (1u32 << (r as u32)) != 0
}

/// The rows from `s` down to the floor that `mask` does not mark, top to bottom.
pub open spec fn kept_rows_from(mask: u32, s: int) -> Seq<int>
    decreases BOARD_ROWS - s,
{
    if s >= BOARD_ROWS || s < 0 {
        Seq::empty()
    } else if row_marked(mask, s) {
        kept_rows_from(mask, s + 1)
    } else {
        seq![s].add(kept_rows_from(mask, s + 1))
    }
}

/// `after` is `before` with the marked rows removed: the kept rows, in their former
/// order, sit at the bottom, and the rows above them are empty.
pub open spec fn compacted(before: Board, mask: u32, after: Board) -> bool {
    let kept = kept_rows_from(mask, 0);
    let top = BOARD_ROWS - kept.len();
    forall|y: int|
        0 <= y < BOARD_ROWS ==> if y < top {
            forall|c: int| 0 <= c < BOARD_COLS ==> #[trigger] after@[y]@[c] == Cell(0)
        } else {
            #[trigger] after@[y] == before@[kept[y - top]]
        }
}

/// A row with every cell empty.
pub open spec fn empty_row() -> [Cell; BOARD_COLS] {
    spec_array_fill_for_copy_type::<Cell, BOARD_COLS>(Cell(0))
}

/// Row `y` of the board after removing the rows that `mask` marks.
pub open spec fn cleared_row(before: Board, mask: u32, y: int) -> [Cell; BOARD_COLS] {
    let kept = kept_rows_from(mask, 0);
    let top = BOARD_ROWS - kept.len();
    if y < top {
        empty_row()
    } else {
        before@[kept[y - top]]
    }
}

/// `before` with rows `y..` replaced by their cleared contents.
pub open spec fn rebuild(before: Board, mask: u32, y: int) -> Board
    decreases BOARD_ROWS - y,
{
    if y >= BOARD_ROWS || y < 0 {
        before
    } else {
        spec_array_update(rebuild(before, mask, y + 1), y, cleared_row(before, mask, y))
    }
}

/// The board after removing the rows that `mask` marks.
pub open spec fn compact(before: Board, mask: u32) -> Board {
    rebuild(before, mask, 0)
}

/// The rows kept from `s` on lie in `s..20`, in increasing order.
pub proof fn lemma_kept_rows_range(mask: u32, s: int)
    requires
        0 <= s <= BOARD_ROWS,
    ensures
        kept_rows_from(mask, s).len() <= BOARD_ROWS - s,
        forall|k: int|
            0 <= k < kept_rows_from(mask, s).len() ==> s <= #[trigger] kept_rows_from(mask, s)[k] < BOARD_ROWS,
    decreases BOARD_ROWS - s,
{
    if s < BOARD_ROWS {
        lemma_kept_rows_range(mask, s + 1);
    }
}

proof fn lemma_rebuild_rows(before: Board, mask: u32, y: int)
    requires
        0 <= y <= BOARD_ROWS,
    ensures
        forall|r: int|
            0 <= r < BOARD_ROWS ==> #[trigger] rebuild(before, mask, y)@[r] == if r >= y {
                cleared_row(before, mask, r)
            } else {
                before@[r]
            },
    decreases BOARD_ROWS - y,
{
    if y < BOARD_ROWS {
        lemma_rebuild_rows(before, mask, y + 1);
        vstd::array::axiom_spec_array_update(rebuild(before, mask, y + 1), y, cleared_row(before, mask, y));
    }
}

/// The compacted board satisfies `compacted`.
pub proof fn lemma_compact_is_compacted(before: Board, mask: u32)
    ensures
        compacted(before, mask, compact(before, mask)),
{
    lemma_rebuild_rows(before, mask, 0);
    lemma_kept_rows_range(mask, 0);
    let after = compact(before, mask);
    let kept = kept_rows_from(mask, 0);
    let top = BOARD_ROWS - kept.len();
    assert forall|y: int| 0 <= y < BOARD_ROWS implies if y < top {
        forall|c: int| 0 <= c < BOARD_COLS ==> #[trigger] after@[y]@[c] == Cell(0)
    } else {
        #[trigger] after@[y] == before@[kept[y - top]]
    } by {
        assert(after@[y] == cleared_row(before, mask, y));
    }
}

proof fn lemma_bit_or(a: u32, k: u32, r: u32)
    by (bit_vector)
    requires
        k < 32,
        r < 32,
    ensures
        ((a | (1u32 << k)) & (1u32 << r) != 0) == ((a & (1u32 << r) != 0) || r == k),
{
}

proof fn lemma_bit_or_zero(a: u32)
    by (bit_vector)
    ensures
        a | 0u32 == a,
{
}

proof fn lemma_bit_bound(a: u32, k: u32, k1: u32)
    by (bit_vector)
    requires
        k < 31,
        k1 == k + 1,
        a < (1u32 << k),
    ensures
        (a | (1u32 << k)) < (1u32 << k1),
        a < (1u32 << k1),
{
}

/// Bit `r` of the full-row mask of rows `0..n` is set exactly when row `r` is among them
/// and full; no bit at or above `n` is set.
pub proof fn lemma_full_mask_bits(board: Board, n: int)
    requires
        0 <= n <= BOARD_ROWS,
    ensures
        full_mask_upto(board, n) < (1u32 << (n as u32)),
        forall|r: int|
            0 <= r < 32 ==> (#[trigger] row_marked(full_mask_upto(board, n), r) <==> (r < n && row_full(board, r))),
    decreases n,
{
    if n == 0 {
        assert(0u32 < (1u32 << 0u32)) by (bit_vector);
        assert forall|r: int| 0 <= r < 32 implies !row_marked(0u32, r) by {
            let rr = r as u32;
            assert(0u32 & (1u32 << rr) == 0) by (bit_vector);
        }
    } else {
        lemma_full_mask_bits(board, n - 1);
        let prev = full_mask_upto(board, n - 1);
        let k = (n - 1) as u32;
        lemma_bit_bound(prev, k, n as u32);
        if row_full(board, n - 1) {
            let cur = prev | (1u32 << k);
            assert(full_mask_upto(board, n) == cur);
            assert forall|r: int| 0 <= r < 32 implies (row_marked(cur, r) <==> (r < n && row_full(board, r))) by {
                lemma_bit_or(prev, k, r as u32);
                assert(row_marked(prev, r) <==> (r < n - 1 && row_full(board, r)));
            }
        } else {
            lemma_bit_or_zero(prev);
            assert(full_mask_upto(board, n) == prev | 0u32);
            assert forall|r: int| 0 <= r < 32 implies (row_marked(prev, r) <==> (r < n && row_full(board, r))) by {
                assert(row_marked(prev, r) <==> (r < n - 1 && row_full(board, r)));
            }
        }
    }
}

/// The rows the detector marks are exactly the full rows.
pub proof fn lemma_detector_marks_full_rows(board: Board)
    ensures
        forall|r: int|
            0 <= r < BOARD_ROWS ==> (row_marked(full_mask_upto(board, BOARD_ROWS as int), r) <==> row_full(board, r)),
{
    lemma_full_mask_bits(board, BOARD_ROWS as int);
}

/// The wires with the full-row report.
pub open spec fn full_row_wires(w: Wires, mask: u32, count: u8) -> Wires {
    Wires { full_row_mask: mask, lines_cleared_this_tick: count, ..w }
}

/// The wires asking for a redraw.
pub open spec fn dirty_wires(w: Wires) -> Wires {
    Wires { render_dirty: true, ..w }
}

fn set_full_row_wires(w: Wires, mask: u32, count: u8) -> (r: Wires)
    ensures
        r == full_row_wires(w, mask, count),
{
    let mut r = w;
    r.full_row_mask = mask;
    r.lines_cleared_this_tick = count;
    r
}

fn set_dirty_wires(w: Wires) -> (r: Wires)
    ensures
        r == dirty_wires(w),
{
    let mut r = w;
    r.render_dirty = true;
    r
}

pub proof fn lemma_full_count_bounds(board: Board, n: int)
    requires
        0 <= n,
    ensures
        0 <= full_count_upto(board, n) <= n,
    decreases n,
{
    if n > 0 {
        lemma_full_count_bounds(board, n - 1);
    }
}

fn row_is_full(row: &[Cell; BOARD_COLS]) -> (r: bool)
    ensures
        r == forall|c: int| 0 <= c < BOARD_COLS ==> #[trigger] row@[c].0 != 0,
{
    let mut x: usize = 0;
    while x < BOARD_COLS
        invariant
            0 <= x <= BOARD_COLS,
            forall|c: int| 0 <= c < x ==> #[trigger] row@[c].0 != 0,
        decreases BOARD_COLS - x,
    {
        if row[x].0 == 0 {
            return false;
        }
        x = x + 1;
    }
    true
}

/// Scan the board for full rows: their bit mask and their number.
fn scan_full_rows(board: &Board) -> (r: (u32, u8))
    ensures
        r.0 == full_mask_upto(*board, BOARD_ROWS as int),
        r.1 == full_count_upto(*board, BOARD_ROWS as int),
{
    let mut mask: u32 = 0;
    let mut count: u8 = 0;
    let mut y: usize = 0;
    while y < BOARD_ROWS
        invariant
            0 <= y <= BOARD_ROWS,
            mask == full_mask_upto(*board, y as int),
            count == full_count_upto(*board, y as int),
        decreases BOARD_ROWS - y,
    {
        proof {
            lemma_full_count_bounds(*board, y as int);
        }
        let full = row_is_full(&board[y]);
        assert(full == row_full(*board, y as int));
        if full {
            mask = mask | (1u32 << (y as u32));
            count = count + 1;
        } else {
            assert(mask | 0u32 == mask) by (bit_vector);
        }
        y = y + 1;
    }
    (mask, count)
}

/// Two boards that both result from the same compaction are equal.
pub proof fn lemma_compacted_unique(before: Board, mask: u32, a: Board, b: Board)
    requires
        compacted(before, mask, a),
        compacted(before, mask, b),
    ensures
        a == b,
{
    let kept = kept_rows_from(mask, 0);
    let top = BOARD_ROWS - kept.len();
    assert forall|y: int| 0 <= y < BOARD_ROWS implies a@[y] == b@[y] by {
        if y < top {
            assert(a@[y] =~= b@[y]);
        } else {
            assert(a@[y] == before@[kept[y - top]]);
            assert(b@[y] == before@[kept[y - top]]);
        }
    }
    assert(a =~= b);
}

fn compact_rows(board: Board, mask: u32) -> (r: Board)
    ensures
        compacted(board, mask, r),
        r == compact(board, mask),
{
    let mut b = board;
    let mut dst: i8 = (BOARD_ROWS - 1) as i8;
    let mut src: i8 = BOARD_ROWS as i8;
    while src > 0
        invariant
            0 <= src <= BOARD_ROWS,
            src - 1 <= dst <= BOARD_ROWS - 1,
            BOARD_ROWS - 1 - dst == kept_rows_from(mask, src as int).len(),
            forall|y: int| 0 <= y <= dst ==> #[trigger] b@[y] == board@[y],
            forall|y: int|
                dst < y < BOARD_ROWS ==> #[trigger] b@[y] == board@[kept_rows_from(mask, src as int)[y - dst - 1]],
        decreases src,
    {
        src = src - 1;
        let ghost kept_before = kept_rows_from(mask, src + 1);
        if mask & (1u32 << (src as u32)) == 0 {
            assert(kept_rows_from(mask, src as int) == seq![src as int].add(kept_before));
            if dst != src {
                b[dst as usize] = b[src as usize];
            }
            dst = dst - 1;
        } else {
            assert(kept_rows_from(mask, src as int) == kept_before);
        }
    }
    let top = dst + 1;
    let mut y: i8 = 0;
    while y < top
        invariant
            0 <= y <= top,
            top == dst + 1,
            0 <= top <= BOARD_ROWS,
            BOARD_ROWS - top == kept_rows_from(mask, 0).len(),
            forall|r: int, c: int| 0 <= r < y && 0 <= c < BOARD_COLS ==> #[trigger] b@[r]@[c] == Cell(0),
            forall|r: int|
                dst < r < BOARD_ROWS ==> #[trigger] b@[r] == board@[kept_rows_from(mask, 0)[r - dst - 1]],
        decreases top - y,
    {
        let empty: [Cell; BOARD_COLS] = [
            Cell(0), Cell(0), Cell(0), Cell(0), Cell(0), Cell(0), Cell(0), Cell(0), Cell(0), Cell(0),
        ];
        assert(forall|c: int| 0 <= c < BOARD_COLS ==> #[trigger] empty@[c] == Cell(0));
        let ghost before = b;
        b[y as usize] = empty;
        assert(forall|r: int| 0 <= r < BOARD_ROWS && r != y ==> #[trigger] b@[r] == before@[r]);
        y = y + 1;
    }
    proof {
        assert(compacted(board, mask, b));
        lemma_compact_is_compacted(board, mask);
        lemma_compacted_unique(board, mask, b, compact(board, mask));
    }
    b
}

impl LogicChip for LineClearDetectorChip {
    open spec fn can_tick(&self, pins: InputPins, bus: SystemBus) -> bool {
        true
    }

    /// Reports the full rows as a bit mask and their number.
    open spec fn ticked(&self, pins: InputPins, bus: SystemBus) -> SystemBus {
        SystemBus {
            wires: full_row_wires(
                bus.wires,
                full_mask_upto(bus.board, BOARD_ROWS as int),
                full_count_upto(bus.board, BOARD_ROWS as int) as u8,
            ),
            ..bus
        }
    }

    fn tick(&self, _pins: &InputPins, bus: &mut SystemBus) {
        let (mask, count) = scan_full_rows(&bus.board);
        let w = set_full_row_wires(bus.wires, mask, count);
        *bus = SystemBus { wires: w, ..*bus };
    }
}

impl LogicChip for LineClearCommitterChip {
    open spec fn can_tick(&self, pins: InputPins, bus: SystemBus) -> bool {
        true
    }

    /// Removes the rows marked in `full_row_mask`, shifting the rows above them down and
    /// filling the top with empty rows.
    open spec fn ticked(&self, pins: InputPins, bus: SystemBus) -> SystemBus {
        if bus.wires.full_row_mask == 0 {
            bus
        } else {
            SystemBus {
                board: compact(bus.board, bus.wires.full_row_mask),
                wires: dirty_wires(bus.wires),
                ..bus
            }
        }
    }

    fn tick(&self, _pins: &InputPins, bus: &mut SystemBus) {
        let mask = bus.wires.full_row_mask;
        if mask == 0 {
            return;
        }
        let board = compact_rows(bus.board, mask);
        let w = set_dirty_wires(bus.wires);
        *bus = SystemBus { board: board, wires: w, ..*bus };
    }
}

} // verus!
