//! The viewport mapper, the tile renderer and the frame compositor.
use vstd::prelude::*;

use crate::map::{grid_view, tile_at, Tile, TileType, UnitType};
use crate::State;

verus! {

/// The colours that the renderer uses.
#[derive(Debug, Clone, Copy, PartialEq, Eq, Structural)]
pub enum Color {
    Black,
    White,
    Green,
    DarkGreen,
    Yellow,
}

pub const PLAINS_COLOR: Color = Color::Green;

pub const HILLS_COLOR: Color = Color::DarkGreen;

pub const DESERT_COLOR: Color = Color::Yellow;

/// The colour of the world outside the generated grid.
pub const VOID_COLOR: Color = Color::Black;

/// The foreground of every tile glyph.
pub const TILE_FOREGROUND: Color = Color::Black;

/// The colour of the cursor glyph.
pub const CURSOR_COLOR: Color = Color::White;

/// The glyph drawn at the cursor: a full block.
pub const SOLID_RECTANGLE_CHAR: char = '\u{2588}';

/// What one screen cell shows.
#[derive(Debug, Clone, Copy, PartialEq, Eq, Structural)]
pub struct Cell {
    pub glyph: char,
    pub fg: Color,
    pub bg: Color,
}

/// A cell placed at an absolute screen column and row.
#[derive(Debug, Clone, Copy, PartialEq, Eq, Structural)]
pub struct PlacedCell {
    pub col: u16,
    pub row: u16,
    pub cell: Cell,
}

// ---------------------------------------------------------------------------
// Viewport mapping
// ---------------------------------------------------------------------------

/// One axis of the visible rectangle's origin: the cursor minus half the
/// screen, saturating at zero.
pub open spec fn origin_axis(cursor: int, screen: int) -> int {
    if cursor >= screen / 2 {
        cursor - screen / 2
    } else {
        0
    }
}

/// The world position shown at screen cell `(sx, sy)` of a viewport whose
/// top-left is `origin`.
pub open spec fn screen_to_world(origin: (int, int), sx: int, sy: int) -> (int, int) {
    (origin.0 + sx, origin.1 + sy)
}

/// The screen cell that shows world position `(wx, wy)`, or `None` where it
/// lies outside a `width` by `height` viewport whose top-left is `origin`.
pub open spec fn world_to_screen(origin: (int, int), width: int, height: int, wx: int, wy: int) -> Option<
    (int, int),
> {
    if origin.0 <= wx < origin.0 + width && origin.1 <= wy < origin.1 + height {
        Some((wx - origin.0, wy - origin.1))
    } else {
        None
    }
}

/// The top-left world position of the rectangle that a `width` by `height`
/// screen shows around the cursor. Each axis is the cursor minus half the
/// screen, saturating at zero: near the world's edge the cursor drifts off
/// the screen's centre.
pub fn get_visible_world_rect_left_top(state: &State, width: u16, height: u16) -> (r: (u64, u64))
    ensures
        r.0 == origin_axis(state.pointer_pos.0 as int, width as int),
        r.1 == origin_axis(state.pointer_pos.1 as int, height as int),
        0 <= r.0 <= state.pointer_pos.0,
        0 <= r.1 <= state.pointer_pos.1,
{
    let half_screen_w: u64 = (width / 2) as u64;
    let half_screen_h: u64 = (height / 2) as u64;
    let left_top_x = state.pointer_pos.0.saturating_sub(half_screen_w);
    let left_top_y = state.pointer_pos.1.saturating_sub(half_screen_h);
    (left_top_x, left_top_y)
}

/// The screen cell of a `width` by `height` viewport with top-left `origin`
/// that shows world position `pos`, or `None` where `pos` is off-screen.
pub fn world_to_screen_cell(origin: (u64, u64), width: u16, height: u16, pos: (u64, u64)) -> (r:
    Option<(u16, u16)>)
    ensures
        match world_to_screen(
            (origin.0 as int, origin.1 as int),
            width as int,
            height as int,
            pos.0 as int,
            pos.1 as int,
        ) {
            Some(c) => r == Some((c.0 as u16, c.1 as u16)),
            None => r is None,
        },
{
    if origin.0 <= pos.0 && pos.0 - origin.0 < width as u64 && origin.1 <= pos.1 && pos.1
        - origin.1 < height as u64 {
        Some(((pos.0 - origin.0) as u16, (pos.1 - origin.1) as u16))
    } else {
        None
    }
}

/// Viewport mapping is a translation: the world position shown at a screen
/// cell maps back to that same cell.
pub proof fn lemma_screen_world_round_trip(origin: (int, int), width: int, height: int, sx: int, sy: int)
    requires
        0 <= sx < width,
        0 <= sy < height,
    ensures
        ({
            let w = screen_to_world(origin, sx, sy);
            world_to_screen(origin, width, height, w.0, w.1) == Some((sx, sy))
        }),
{
}

/// The visible origin is never negative and never past the cursor, on
/// either axis.
pub proof fn lemma_origin_in_range(cursor: int, screen: int)
    requires
        cursor >= 0,
        screen >= 0,
    ensures
        0 <= origin_axis(cursor, screen) <= cursor,
{
}

// ---------------------------------------------------------------------------
// Tile rendering
// ---------------------------------------------------------------------------

/// The glyph of a tile: its unit's letter, or blank.
pub open spec fn character_of(tile: Tile) -> char {
    match tile.unit {
        Some(unit) => match unit.unit_type {
            UnitType::Civilian => 'c',
            UnitType::Builder => 'b',
        },
        None => ' ',
    }
}

/// The background of a tile, fixed by its terrain.
pub open spec fn color_of(tile: Tile) -> Color {
    match tile.tile_type {
        TileType::Plains => PLAINS_COLOR,
        TileType::Desert => DESERT_COLOR,
        TileType::Hills => HILLS_COLOR,
    }
}

/// What a screen cell shows: the cursor first, then the void outside the
/// grid, then the tile's unit glyph over its terrain colour.
pub open spec fn resolve(tile: Option<Tile>, is_cursor: bool) -> Cell {
    if is_cursor {
        Cell { glyph: SOLID_RECTANGLE_CHAR, fg: CURSOR_COLOR, bg: VOID_COLOR }
    } else {
        match tile {
            None => Cell { glyph: ' ', fg: TILE_FOREGROUND, bg: VOID_COLOR },
            Some(t) => Cell { glyph: character_of(t), fg: TILE_FOREGROUND, bg: color_of(t) },
        }
    }
}

/// The glyph of a tile: `c` for a civilian, `b` for a builder, blank where no
/// unit stands on it.
pub fn get_character(tile: &Tile) -> (r: char)
    ensures
        r == character_of(*tile),
{
    match &tile.unit {
        Some(unit) => match unit.unit_type {
            UnitType::Civilian => 'c',
            UnitType::Builder => 'b',
        },
        None => ' ',
    }
}

/// The background colour of a tile, one per terrain.
pub fn get_color(tile: &Tile) -> (r: Color)
    ensures
        r == color_of(*tile),
{
    match tile.tile_type {
        TileType::Plains => PLAINS_COLOR,
        TileType::Desert => DESERT_COLOR,
        TileType::Hills => HILLS_COLOR,
    }
}

/// Resolves a screen cell from the tile under it (`None` outside the grid)
/// and whether the cursor is there. Total: every combination gives a cell.
pub fn resolve_cell(tile: Option<Tile>, is_cursor: bool) -> (r: Cell)
    ensures
        r == resolve(tile, is_cursor),
{
    if is_cursor {
        Cell { glyph: SOLID_RECTANGLE_CHAR, fg: CURSOR_COLOR, bg: VOID_COLOR }
    } else {
        match tile {
            None => Cell { glyph: ' ', fg: TILE_FOREGROUND, bg: VOID_COLOR },
            Some(t) => Cell { glyph: get_character(&t), fg: TILE_FOREGROUND, bg: get_color(&t) },
        }
    }
}

/// Every tile and cursor combination resolves to a cell, and the cursor
/// hides whatever lies under it.
pub proof fn lemma_resolve_total(tile: Option<Tile>, is_cursor: bool)
    ensures
        is_cursor ==> resolve(tile, is_cursor).glyph == SOLID_RECTANGLE_CHAR && resolve(
            tile,
            is_cursor,
        ).fg == CURSOR_COLOR,
        !is_cursor && tile is None ==> resolve(tile, is_cursor) == (Cell {
            glyph: ' ',
            fg: TILE_FOREGROUND,
            bg: VOID_COLOR,
        }),
        !is_cursor && tile is Some ==> resolve(tile, is_cursor).bg == color_of(tile->0),
{
}

// ---------------------------------------------------------------------------
// Frame composition
// ---------------------------------------------------------------------------

/// The top-left of the visible rectangle, as integers.
pub open spec fn visible_origin(state: State, width: int, height: int) -> (int, int) {
    (origin_axis(state.pointer_pos.0 as int, width), origin_axis(state.pointer_pos.1 as int, height))
}

/// What screen cell `(sx, sy)` of the map shows when the viewport's top-left
/// is `origin`.
pub open spec fn frame_cell(state: State, origin: (int, int), sx: int, sy: int) -> Cell {
    let w = screen_to_world(origin, sx, sy);
    resolve(
        tile_at(state.grid(), w.0, w.1),
        w == (state.pointer_pos.0 as int, state.pointer_pos.1 as int),
    )
}

/// The tile at world position `(x, y)`, or `None` outside the grid; never
/// fails.
pub fn lookup_tile(tiles: &Vec<Vec<Tile>>, x: u64, y: u64) -> (r: Option<Tile>)
    ensures
        r == tile_at(grid_view(tiles@), x as int, y as int),
{
    if x < tiles.len() as u64 {
        let column = &tiles[x as usize];
        assert(grid_view(tiles@)[x as int] == column@);
        if y < column.len() as u64 {
            Some(column[y as usize])
        } else {
            None
        }
    } else {
        None
    }
}

/// What screen cell `(sx, sy)` of the map shows when the viewport's top-left
/// is `origin`. A world position past the largest coordinate holds no tile.
pub fn compose_cell(state: &State, origin: (u64, u64), sx: u16, sy: u16) -> (r: Cell)
    ensures
        r == frame_cell(*state, (origin.0 as int, origin.1 as int), sx as int, sy as int),
{
    let ghost w = screen_to_world((origin.0 as int, origin.1 as int), sx as int, sy as int);
    let columns: usize = state.tiles.len();
    assert(state.grid().len() == columns);
    if sx as u64 > u64::MAX - origin.0 {
        // Past the largest coordinate: no column is that far out.
        return resolve_cell(None, false);
    }
    let tx: u64 = origin.0 + sx as u64;
    if sy as u64 > u64::MAX - origin.1 {
        // Past the largest coordinate: no column is that long.
        if tx < columns as u64 {
            let rows: usize = state.tiles[tx as usize].len();
            assert(state.grid()[w.0] == state.tiles@[w.0]@);
            assert(state.grid()[w.0].len() == rows);
        }
        return resolve_cell(None, false);
    }
    let ty: u64 = origin.1 + sy as u64;
    let is_cursor = tx == state.pointer_pos.0 && ty == state.pointer_pos.1;
    resolve_cell(lookup_tile(&state.tiles, tx, ty), is_cursor)
}

/// Composes the map area of a frame: `height` rows of `width` cells, the cell
/// at screen offset `(x, y)` placed at `(offset.0 + x, offset.1 + y)` and
/// showing the world at the visible origin plus `(x, y)`.
pub fn draw_map(state: &State, screen_left_top_offset: (u16, u16), width: u16, height: u16) -> (rows:
    Vec<Vec<PlacedCell>>)
    requires
        screen_left_top_offset.0 + width <= 0x10000,
        screen_left_top_offset.1 + height <= 0x10000,
    ensures
        rows@.len() == height,
        forall|y: int| 0 <= y < height ==> #[trigger] rows@[y]@.len() == width,
        forall|y: int, x: int|
            0 <= y < height && 0 <= x < width ==> #[trigger] rows@[y]@[x] == (PlacedCell {
                col: (screen_left_top_offset.0 + x) as u16,
                row: (screen_left_top_offset.1 + y) as u16,
                cell: frame_cell(*state, visible_origin(*state, width as int, height as int), x, y),
            }),
{
    let origin = get_visible_world_rect_left_top(state, width, height);
    let ghost o = visible_origin(*state, width as int, height as int);
    let mut rows: Vec<Vec<PlacedCell>> = Vec::new();
    let mut y: u16 = 0;
    while y < height
        invariant
            y <= height,
            o == (origin.0 as int, origin.1 as int),
            screen_left_top_offset.0 + width <= 0x10000,
            screen_left_top_offset.1 + height <= 0x10000,
            rows@.len() == y,
            forall|j: int| 0 <= j < y ==> #[trigger] rows@[j]@.len() == width,
            forall|j: int, i: int|
                0 <= j < y && 0 <= i < width ==> #[trigger] rows@[j]@[i] == (PlacedCell {
                    col: (screen_left_top_offset.0 + i) as u16,
                    row: (screen_left_top_offset.1 + j) as u16,
                    cell: frame_cell(*state, o, i, j),
                }),
        decreases height - y,
    {
        let mut row: Vec<PlacedCell> = Vec::new();
        let mut x: u16 = 0;
        while x < width
            invariant
                x <= width,
                y < height,
                o == (origin.0 as int, origin.1 as int),
                screen_left_top_offset.0 + width <= 0x10000,
                screen_left_top_offset.1 + height <= 0x10000,
                row@.len() == x,
                forall|i: int|
                    0 <= i < x ==> #[trigger] row@[i] == (PlacedCell {
                        col: (screen_left_top_offset.0 + i) as u16,
                        row: (screen_left_top_offset.1 + y) as u16,
                        cell: frame_cell(*state, o, i, y as int),
                    }),
            decreases width - x,
        {
            let cell = compose_cell(state, origin, x, y);
            row.push(
                PlacedCell {
                    col: x + screen_left_top_offset.0,
                    row: y + screen_left_top_offset.1,
                    cell,
                },
            );
            x = x + 1;
        }
        rows.push(row);
        y = y + 1;
    }
    rows
}

// ---------------------------------------------------------------------------
// Side panel
// ---------------------------------------------------------------------------

/// The decimal digit `d`.
pub open spec fn digit_char(d: nat) -> char {
    seq!['0', '1', '2', '3', '4', '5', '6', '7', '8', '9'][d as int]
}

/// The decimal numeral of `n`, without leading zeros.
pub open spec fn decimal(n: nat) -> Seq<char>
    decreases n,
{
    if n < 10 {
        seq![digit_char(n)]
    } else {
        decimal(n / 10).push(digit_char(n % 10))
    }
}

/// The panel's text: `x: <x>, y: <y>`.
pub open spec fn coordinates_label(x: u64, y: u64) -> Seq<char> {
    seq!['x', ':', ' '] + decimal(x as nat) + seq![',', ' ', 'y', ':', ' '] + decimal(y as nat)
}

/// `n` blanks.
pub open spec fn blanks(n: int) -> Seq<char> {
    Seq::new(if n > 0 { n as nat } else { 0 }, |i: int| ' ')
}

/// The panel row of a `width` wide panel: the label over a blank row, so
/// that no glyph of an earlier, longer label stays.
pub open spec fn panel_row(state: State, width: int) -> Seq<char> {
    let label = coordinates_label(state.pointer_pos.0, state.pointer_pos.1);
    label + blanks(width - label.len())
}

fn digit(d: u64) -> (c: char)
    requires
        d < 10,
    ensures
        c == digit_char(d as nat),
{
    match d {
        0 => '0',
        1 => '1',
        2 => '2',
        3 => '3',
        4 => '4',
        5 => '5',
        6 => '6',
        7 => '7',
        8 => '8',
        _ => '9',
    }
}

/// Appends the decimal numeral of `n` to `out`.
fn push_decimal(out: &mut Vec<char>, n: u64)
    ensures
        final(out)@ == old(out)@ + decimal(n as nat),
    decreases n,
{
    if n >= 10 {
        push_decimal(out, n / 10);
    }
    out.push(digit(n % 10));
    proof {
        assert(old(out)@ + decimal(n as nat) =~= final(out)@);
    }
}

/// Composes the side panel's row for a panel `width` cells wide: the cursor's
/// coordinates as `x: <x>, y: <y>`, padded with blanks to the panel's width.
pub fn draw_ui(state: &State, width: u16) -> (row: Vec<char>)
    ensures
        row@ == panel_row(*state, width as int),
{
    let mut row: Vec<char> = Vec::new();
    row.push('x');
    row.push(':');
    row.push(' ');
    push_decimal(&mut row, state.pointer_pos.0);
    row.push(',');
    row.push(' ');
    row.push('y');
    row.push(':');
    row.push(' ');
    push_decimal(&mut row, state.pointer_pos.1);
    let ghost label = row@;
    assert(label =~= coordinates_label(state.pointer_pos.0, state.pointer_pos.1));
    while row.len() < width as usize
        invariant
            label.len() <= row@.len(),
            row@.len() <= label.len() || row@.len() <= width,
            row@ =~= label + blanks(row@.len() - label.len()),
        decreases width - row@.len(),
    {
        row.push(' ');
        assert(row@ =~= label + blanks(row@.len() - label.len()));
    }
    assert(row@ =~= label + blanks(width - label.len()));
    row
}

} // verus!
