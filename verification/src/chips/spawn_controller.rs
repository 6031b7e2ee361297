use vstd::prelude::*;
use super::{LogicChip, SpawnControllerChip};
use super::tetrominoes::{collides, spec_collides};
use crate::bus::{InputPins, PieceType, SystemBus, Wires};

verus! {

/// One step of the linear congruential generator behind piece generation.
pub open spec fn lcg_step(state: u32) -> u32 {
    state.wrapping_mul(1664525).wrapping_add(1013904223)
}

/// The piece kind drawn from a generator state.
pub open spec fn draw(state: u32) -> u8 {
    ((state >> 16u32) % 7) as u8
}

/// Advance the generator and draw a piece kind (0..7) from its new state.
pub fn next_rand(state: &mut u32) -> (r: u8)
    ensures
        *final(state) == lcg_step(*old(state)),
        r == draw(*final(state)),
        r < 7,
{
    let s = state.wrapping_mul(1664525).wrapping_add(1013904223);
    *state = s;
    ((s >> 16) % 7) as u8
}

/// The wires after a blocked spawn: game over, and no spawn left pending.
pub open spec fn spawn_blocked_wires(w: Wires) -> Wires {
    Wires { game_over_triggered: true, should_spawn_next: false, ..w }
}

/// The wires after a successful spawn.
pub open spec fn spawned_wires(w: Wires) -> Wires {
    Wires { should_spawn_next: false, render_dirty: true, ..w }
}

fn set_spawn_blocked_wires(w: Wires) -> (r: Wires)
    ensures
        r == spawn_blocked_wires(w),
{
    let mut r = w;
    r.game_over_triggered = true;
    r.should_spawn_next = false;
    r
}

fn set_spawned_wires(w: Wires) -> (r: Wires)
    ensures
        r == spawned_wires(w),
{
    let mut r = w;
    r.should_spawn_next = false;
    r.render_dirty = true;
    r
}

/// The next piece placed at the spawn position, with the hold unlocked.
pub open spec fn placed(bus: SystemBus) -> SystemBus {
    SystemBus {
        piece_type: bus.next_piece_type,
        piece_x: 3,
        piece_y: 0,
        piece_rotation: 0,
        hold_used: false,
        ..bus
    }
}

impl LogicChip for SpawnControllerChip {
    /// A spawn request needs the next piece kind to index the shape table.
    open spec fn can_tick(&self, pins: InputPins, bus: SystemBus) -> bool {
        bus.wires.should_spawn_next ==> bus.next_piece_type.0 < 7
    }

    /// On a spawn request the next piece enters at column 3, row 0, rotation 0, and the
    /// hold unlocks. If it overlaps anything there, game over is raised and the request
    /// is dropped; otherwise a new next piece is drawn from the generator and the request
    /// is cleared.
    open spec fn ticked(&self, pins: InputPins, bus: SystemBus) -> SystemBus {
        let p = placed(bus);
        if !bus.wires.should_spawn_next {
            bus
        } else if spec_collides(3, 0, bus.next_piece_type.0, 0, bus.board) {
            SystemBus { wires: spawn_blocked_wires(bus.wires), ..p }
        } else {
            let s = lcg_step(bus.prng_state);
            SystemBus {
                next_piece_type: PieceType(draw(s)),
                prng_state: s,
                wires: spawned_wires(bus.wires),
                ..p
            }
        }
    }

    fn tick(&self, _pins: &InputPins, bus: &mut SystemBus) {
        if !bus.wires.should_spawn_next {
            return;
        }
        let blocked = collides(3, 0, bus.next_piece_type.0, 0, &bus.board);
        if blocked {
            let w = set_spawn_blocked_wires(bus.wires);
            *bus = SystemBus {
                piece_type: bus.next_piece_type,
                piece_x: 3,
                piece_y: 0,
                piece_rotation: 0,
                hold_used: false,
                wires: w,
                ..*bus
            };
            return;
        }
        let mut state = bus.prng_state;
        let next = next_rand(&mut state);
        let w = set_spawned_wires(bus.wires);
        *bus = SystemBus {
            piece_type: bus.next_piece_type,
            piece_x: 3,
            piece_y: 0,
            piece_rotation: 0,
            hold_used: false,
            next_piece_type: PieceType(next),
            prng_state: state,
            wires: w,
            ..*bus
        };
    }
}

/// The next piece always enters at the fixed spawn position, column 3, row 0, rotation
/// 0, and whether the spawn is blocked is judged there. A spawn that is not blocked
/// leaves the new piece there, fitting, with the request cleared; a blocked one raises
/// game over and drops the request.
#[verifier::spinoff_prover]
pub proof fn lemma_spawn_at_fixed_position(pins: InputPins, bus: SystemBus)
    requires
        bus.wires.should_spawn_next,
    ensures
        ({
            let r = SpawnControllerChip.ticked(pins, bus);
            &&& r.piece_type == bus.next_piece_type
            &&& r.piece_x == 3 && r.piece_y == 0 && r.piece_rotation == 0
            &&& !r.hold_used
            &&& r.board == bus.board
            &&& r.wires.game_over_triggered == (bus.wires.game_over_triggered
                || spec_collides(3, 0, bus.next_piece_type.0, 0, bus.board))
            &&& !r.wires.should_spawn_next
            &&& !spec_collides(3, 0, bus.next_piece_type.0, 0, bus.board) ==> !spec_collides(
                r.piece_x as int,
                r.piece_y as int,
                r.piece_type.0,
                r.piece_rotation,
                r.board,
            )
        }),
{
    let r = SpawnControllerChip.ticked(pins, bus);
    assert(r.piece_x as int == 3 && r.piece_y as int == 0);
}

/// Where the previous piece stood, its kind and its rotation have no effect on a spawn:
/// the result depends on the board and the next piece alone.
#[verifier::spinoff_prover]
#[verifier::rlimit(40)]
pub proof fn lemma_spawn_ignores_previous_piece(
    pins: InputPins,
    bus: SystemBus,
    kind: PieceType,
    x: i8,
    y: i8,
    rotation: u8,
)
    requires
        bus.wires.should_spawn_next,
    ensures
        SpawnControllerChip.ticked(
            pins,
            SystemBus { piece_type: kind, piece_x: x, piece_y: y, piece_rotation: rotation, ..bus },
        ) == SpawnControllerChip.ticked(pins, bus),
{
    let other = SystemBus { piece_type: kind, piece_x: x, piece_y: y, piece_rotation: rotation, ..bus };
    assert(placed(other) == placed(bus));
}

} // verus!
