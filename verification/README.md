# tetris_silicon

A terminal Tetris modelled as a synchronous circuit, with its game logic verified by
Verus.

Each clock tick samples the keyboard into frozen input pins, pulls every wire of the
system bus to ground, runs fifteen stateless logic chips in four layers (input decoding,
which turns fresh presses of Up/x, z, Space, c and Enter into rotate, hard-drop, hold and
pause requests and a held Down into a soft drop;
timers, collision, rotation, movement and lock delay; locking, hold, line clearing,
scoring, levels and spawning; the ghost piece), and finally latches the key edges, the
game-over transition and the tick counter.

## Layout

- `src/bus.rs` — board size, timing constants, input pins, wires and the system bus,
  with its well-formedness predicate.
- `src/chips/` — the chips. Each has a spec function `ticked` that says exactly what it
  does to the bus, and a `tick` proved to do that. `tetrominoes.rs` holds the piece and
  SRS kick tables, collision and the ghost row.
- `src/motherboard.rs` — the layered pipeline and `clock_tick`, specified as
  `clock_cycle` (ground the wires, run the chips in order, latch).
- `src/laws.rs` — properties of the whole machine, proved over every input: the bus
  stays well formed, cells stay encodable, the piece stays near the board, score and
  lines never drop, a finished game stays finished, the ghost lands where a hard drop
  would, the hold slot is never emptied, only two chips write the board, no spawn is
  left pending after a tick, gravity never slows as the level rises, a tick ignores the
  wires of the previous one, and recorded pins replay to the same bus.
- `src/placement.rs` — every tick leaves no full row on the board; and from a playing
  bus whose piece fits and whose board has no full row, a tick without a fresh press of
  the hold key that keeps the game playing keeps the piece fitting (on the board, over
  no locked cell). A hold places the held piece at the spawn position unchecked, so a
  fresh hold press is left out.
- `src/backends/` — the CPU backend, the record of where each chip ran, and the GPU
  routing decisions: which chips have a device kernel (CollisionDetector,
  LineClearDetector, GhostComputer), how a chip-list setting selects chips, and, given
  each kernel's outcome, the route each chip takes, when the device copy of the board
  goes stale and how many kernel ticks were dispatched.
- `src/terminal.rs`, `src/tui.rs` — what a key event does to the sampled pins, and what
  each playfield and preview cell shows.
- `app/` — the program: wall clock, crossterm input, ratatui drawing.
- `tests/` — scenario and stress tests run against the compiled library.

Environment: `TETRIS_BACKEND=cuda` asks for a GPU backend; this build has none and
falls back to the CPU with a notice.
