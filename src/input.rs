//! The input reducer: decoded commands applied to the session.
use vstd::prelude::*;

use crate::map::{grid_view, tile_at, units_in_place, Tile, Unit, UnitType};
use crate::State;

verus! {

/// A direction of cursor movement.
#[derive(Debug, Clone, Copy, PartialEq, Eq, Structural)]
pub enum Direction {
    Left,
    Right,
    Up,
    Down,
}

/// A decoded input command.
#[derive(Debug, Clone, Copy, PartialEq, Eq, Structural)]
pub enum Command {
    /// Move the cursor one step, or a fast step with the modifier held.
    Move { direction: Direction, fast: bool },
    /// Put a unit of this kind on the tile under the cursor.
    PlaceOccupant(UnitType),
    /// End the session.
    Quit,
}

/// The cursor's step without the modifier.
pub const STEP: u64 = 1;

/// The cursor's step with the modifier held.
pub const FAST_STEP: u64 = 5;

/// The length of one step.
pub open spec fn step_of(fast: bool) -> u64 {
    if fast {
        FAST_STEP
    } else {
        STEP
    }
}

/// `a - b`, saturating at zero.
pub open spec fn sat_sub(a: u64, b: u64) -> u64 {
    if a >= b {
        (a - b) as u64
    } else {
        0
    }
}

/// `a + b`, saturating at the largest coordinate.
pub open spec fn sat_add(a: u64, b: u64) -> u64 {
    if a + b <= u64::MAX {
        (a + b) as u64
    } else {
        u64::MAX
    }
}

/// The cursor after one move: only the moved axis changes, saturating at
/// zero below and at the largest coordinate above.
pub open spec fn moved(pos: (u64, u64), direction: Direction, fast: bool) -> (u64, u64) {
    let s = step_of(fast);
    match direction {
        Direction::Left => (sat_sub(pos.0, s), pos.1),
        Direction::Right => (sat_add(pos.0, s), pos.1),
        Direction::Up => (pos.0, sat_sub(pos.1, s)),
        Direction::Down => (pos.0, sat_add(pos.1, s)),
    }
}

/// The grid after a unit of `kind` is put at `pos`: the unit replaces any
/// unit there, and a position outside the grid changes nothing.
pub open spec fn placed(grid: Seq<Seq<Tile>>, pos: (u64, u64), kind: UnitType) -> Seq<Seq<Tile>> {
    let x = pos.0 as int;
    let y = pos.1 as int;
    match tile_at(grid, x, y) {
        Some(t) => grid.update(
            x,
            grid[x].update(y, Tile { unit: Some(Unit { unit_type: kind, position: pos }), ..t }),
        ),
        None => grid,
    }
}

/// The cursor after one move; see `moved`.
pub fn move_pointer(pos: (u64, u64), direction: Direction, fast: bool) -> (r: (u64, u64))
    ensures
        r == moved(pos, direction, fast),
{
    let step: u64 = if fast {
        FAST_STEP
    } else {
        STEP
    };
    match direction {
        Direction::Left => (pos.0.saturating_sub(step), pos.1),
        Direction::Right => (pos.0.saturating_add(step), pos.1),
        Direction::Up => (pos.0, pos.1.saturating_sub(step)),
        Direction::Down => (pos.0, pos.1.saturating_add(step)),
    }
}

/// Puts a unit of `kind` on the tile at `pos`, replacing any unit there; a
/// position outside the grid leaves the grid as it was.
pub fn place_unit(tiles: &mut Vec<Vec<Tile>>, pos: (u64, u64), kind: UnitType)
    ensures
        grid_view(final(tiles)@) == placed(grid_view(old(tiles)@), pos, kind),
{
    let ghost g = grid_view(tiles@);
    if pos.0 < tiles.len() as u64 && pos.1 < tiles[pos.0 as usize].len() as u64 {
        let x = pos.0 as usize;
        let y = pos.1 as usize;
        assert(g[x as int] == tiles@[x as int]@);
        tiles[x][y].unit = Some(Unit { unit_type: kind, position: pos });
        assert(grid_view(tiles@) =~= placed(g, pos, kind)) by {
            assert(grid_view(tiles@)[x as int] =~= placed(g, pos, kind)[x as int]);
        }
    } else {
        assert(tile_at(g, pos.0 as int, pos.1 as int) is None) by {
            if pos.0 < tiles@.len() {
                assert(g[pos.0 as int] == tiles@[pos.0 as int]@);
            }
        }
    }
}

/// Applies one command to the session and returns whether it was `Quit`.
/// A move changes only the cursor; placing a unit changes only the tile
/// under the cursor, and nothing where the cursor is off the grid; `Quit`
/// changes nothing. Every unit keeps recording its own tile.
pub fn apply_command(state: &mut State, command: Command) -> (quit: bool)
    ensures
        quit == (command is Quit),
        match command {
            Command::Move { direction, fast } => {
                &&& final(state).pointer_pos == moved(old(state).pointer_pos, direction, fast)
                &&& final(state).grid() == old(state).grid()
            },
            Command::PlaceOccupant(kind) => {
                &&& final(state).pointer_pos == old(state).pointer_pos
                &&& final(state).grid() == placed(old(state).grid(), old(state).pointer_pos, kind)
            },
            Command::Quit => {
                &&& final(state).pointer_pos == old(state).pointer_pos
                &&& final(state).grid() == old(state).grid()
            },
        },
        units_in_place(old(state).grid()) ==> units_in_place(final(state).grid()),
{
    let ghost g = old(state).grid();
    match command {
        Command::Move { direction, fast } => {
            state.pointer_pos = move_pointer(state.pointer_pos, direction, fast);
            false
        },
        Command::PlaceOccupant(kind) => {
            let pos = state.pointer_pos;
            place_unit(&mut state.tiles, pos, kind);
            proof {
                if units_in_place(g) {
                    lemma_place_keeps_units_in_place(g, pos, kind);
                }
            }
            false
        },
        Command::Quit => true,
    }
}

/// Placing a unit keeps every unit recording its own tile.
pub proof fn lemma_place_keeps_units_in_place(grid: Seq<Seq<Tile>>, pos: (u64, u64), kind: UnitType)
    requires
        units_in_place(grid),
    ensures
        units_in_place(placed(grid, pos, kind)),
{
    let g2 = placed(grid, pos, kind);
    assert forall|x: int, y: int|
        0 <= x < g2.len() && 0 <= y < g2[x].len() && (#[trigger] g2[x][y]).unit is Some implies g2[x][y].unit->0.position
            == (x as u64, y as u64) by {
        if tile_at(grid, pos.0 as int, pos.1 as int) is Some && x == pos.0 as int && y == pos.1 as int {
        } else {
            assert(g2[x][y] == grid[x][y]);
        }
    }
}

/// A unit put outside the grid changes nothing: the grid keeps its size and
/// every tile.
pub proof fn lemma_place_outside_grid_unchanged(grid: Seq<Seq<Tile>>, pos: (u64, u64), kind: UnitType)
    requires
        tile_at(grid, pos.0 as int, pos.1 as int) is None,
    ensures
        placed(grid, pos, kind) == grid,
{
}

/// Two units put on the same tile do not accumulate: the second replaces the
/// first, and the result is as if only the second had been put there.
pub proof fn lemma_place_overwrites(
    grid: Seq<Seq<Tile>>,
    pos: (u64, u64),
    first: UnitType,
    second: UnitType,
)
    requires
        tile_at(grid, pos.0 as int, pos.1 as int) is Some,
    ensures
        placed(placed(grid, pos, first), pos, second) == placed(grid, pos, second),
        tile_at(placed(placed(grid, pos, first), pos, second), pos.0 as int, pos.1 as int)->0.unit
            == Some(Unit { unit_type: second, position: pos }),
{
    let x = pos.0 as int;
    let y = pos.1 as int;
    let a = placed(placed(grid, pos, first), pos, second);
    let b = placed(grid, pos, second);
    assert(a[x] =~= b[x]);
    assert(a =~= b);
}

} // verus!
