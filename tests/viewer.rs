use t4x::display::{
    draw_map, draw_ui, get_character, get_color, get_visible_world_rect_left_top, lookup_tile,
    resolve_cell, world_to_screen_cell, Cell, Color, SOLID_RECTANGLE_CHAR,
};
use t4x::input::{apply_command, move_pointer, place_unit, Command, Direction};
use t4x::map::{generate_map, terrain_for, Tile, TileType, Unit, UnitType};
use t4x::State;

fn plain_tile() -> Tile {
    Tile { tile_type: TileType::Plains, unit: None, building: None }
}

fn grid(width: usize, height: usize) -> Vec<Vec<Tile>> {
    vec![vec![plain_tile(); height]; width]
}

fn state_at(x: u64, y: u64, tiles: Vec<Vec<Tile>>) -> State {
    State { pointer_pos: (x, y), tiles }
}

#[test]
fn origin_is_cursor_minus_half_screen() {
    let s = state_at(100, 50, grid(0, 0));
    assert_eq!(get_visible_world_rect_left_top(&s, 20, 10), (90, 45));
    let s = state_at(100, 50, grid(0, 0));
    assert_eq!(get_visible_world_rect_left_top(&s, 21, 11), (90, 45));
}

#[test]
fn origin_saturates_at_zero() {
    let s = state_at(3, 2, grid(0, 0));
    assert_eq!(get_visible_world_rect_left_top(&s, 20, 10), (0, 0));
    let s = state_at(0, 0, grid(0, 0));
    assert_eq!(get_visible_world_rect_left_top(&s, u16::MAX, u16::MAX), (0, 0));
    let s = state_at(u64::MAX, 7, grid(0, 0));
    assert_eq!(get_visible_world_rect_left_top(&s, 4, 20), (u64::MAX - 2, 0));
}

#[test]
fn screen_world_round_trip() {
    let origin = (90u64, 45u64);
    for sx in 0..20u16 {
        for sy in 0..10u16 {
            let world = (origin.0 + sx as u64, origin.1 + sy as u64);
            assert_eq!(world_to_screen_cell(origin, 20, 10, world), Some((sx, sy)));
        }
    }
    assert_eq!(world_to_screen_cell(origin, 20, 10, (89, 45)), None);
    assert_eq!(world_to_screen_cell(origin, 20, 10, (110, 45)), None);
    assert_eq!(world_to_screen_cell(origin, 20, 10, (100, 55)), None);
}

#[test]
fn characters_follow_units() {
    let mut t = plain_tile();
    assert_eq!(get_character(&t), ' ');
    t.unit = Some(Unit { unit_type: UnitType::Civilian, position: (0, 0) });
    assert_eq!(get_character(&t), 'c');
    t.unit = Some(Unit { unit_type: UnitType::Builder, position: (0, 0) });
    assert_eq!(get_character(&t), 'b');
}

#[test]
fn colors_follow_terrain() {
    let mut t = plain_tile();
    assert_eq!(get_color(&t), Color::Green);
    t.tile_type = TileType::Hills;
    assert_eq!(get_color(&t), Color::DarkGreen);
    t.tile_type = TileType::Desert;
    assert_eq!(get_color(&t), Color::Yellow);
}

#[test]
fn renderer_is_total() {
    let cursor = Cell { glyph: SOLID_RECTANGLE_CHAR, fg: Color::White, bg: Color::Black };
    let void = Cell { glyph: ' ', fg: Color::Black, bg: Color::Black };
    let builder = Tile {
        tile_type: TileType::Hills,
        unit: Some(Unit { unit_type: UnitType::Builder, position: (1, 1) }),
        building: None,
    };
    assert_eq!(resolve_cell(None, true), cursor);
    assert_eq!(resolve_cell(Some(builder), true), cursor);
    assert_eq!(resolve_cell(None, false), void);
    assert_eq!(
        resolve_cell(Some(plain_tile()), false),
        Cell { glyph: ' ', fg: Color::Black, bg: Color::Green }
    );
    assert_eq!(
        resolve_cell(Some(builder), false),
        Cell { glyph: 'b', fg: Color::Black, bg: Color::DarkGreen }
    );
}

#[test]
fn lookup_outside_grid_is_none() {
    let tiles = grid(3, 2);
    assert_eq!(lookup_tile(&tiles, 2, 1), Some(plain_tile()));
    assert_eq!(lookup_tile(&tiles, 3, 0), None);
    assert_eq!(lookup_tile(&tiles, 0, 2), None);
    assert_eq!(lookup_tile(&tiles, u64::MAX, u64::MAX), None);
}

#[test]
fn map_frame_places_cursor_tiles_and_void() {
    let mut tiles = grid(3, 3);
    tiles[1][2].tile_type = TileType::Hills;
    tiles[1][2].unit = Some(Unit { unit_type: UnitType::Civilian, position: (1, 2) });
    let s = state_at(1, 1, tiles);
    let rows = draw_map(&s, (2, 5), 4, 4);
    assert_eq!(rows.len(), 4);
    for (y, row) in rows.iter().enumerate() {
        assert_eq!(row.len(), 4);
        for (x, placed) in row.iter().enumerate() {
            assert_eq!(placed.col as usize, 2 + x);
            assert_eq!(placed.row as usize, 5 + y);
        }
    }
    // origin is (1 - 2, 1 - 2) saturated: (0, 0)
    assert_eq!(rows[1][1].cell.glyph, SOLID_RECTANGLE_CHAR);
    assert_eq!(rows[1][1].cell.fg, Color::White);
    assert_eq!(rows[0][0].cell, Cell { glyph: ' ', fg: Color::Black, bg: Color::Green });
    assert_eq!(rows[2][1].cell, Cell { glyph: 'c', fg: Color::Black, bg: Color::DarkGreen });
    assert_eq!(rows[3][0].cell, Cell { glyph: ' ', fg: Color::Black, bg: Color::Black });
    assert_eq!(rows[0][3].cell, Cell { glyph: ' ', fg: Color::Black, bg: Color::Black });
}

#[test]
fn map_frame_past_largest_coordinate_is_void() {
    let s = state_at(u64::MAX, u64::MAX, grid(2, 2));
    let rows = draw_map(&s, (0, 0), 4, 4);
    // origin is (MAX - 2, MAX - 2): the cursor sits at screen (2, 2)
    assert_eq!(rows[2][2].cell.glyph, SOLID_RECTANGLE_CHAR);
    assert_eq!(rows[3][3].cell, Cell { glyph: ' ', fg: Color::Black, bg: Color::Black });
    assert_eq!(rows[0][0].cell, Cell { glyph: ' ', fg: Color::Black, bg: Color::Black });
}

#[test]
fn panel_shows_coordinates_padded() {
    let s = state_at(12, 3, grid(0, 0));
    let row: String = draw_ui(&s, 15).into_iter().collect();
    assert_eq!(row, "x: 12, y: 3    ");
    let row: String = draw_ui(&s, 4).into_iter().collect();
    assert_eq!(row, "x: 12, y: 3");
    let s = state_at(0, u64::MAX, grid(0, 0));
    let row: String = draw_ui(&s, 0).into_iter().collect();
    assert_eq!(row, format!("x: 0, y: {}", u64::MAX));
}

#[test]
fn left_moves_saturate_at_zero() {
    let mut s = state_at(5, 5, grid(0, 0));
    let left = Command::Move { direction: Direction::Left, fast: false };
    for _ in 0..5 {
        assert!(!apply_command(&mut s, left));
    }
    assert_eq!(s.pointer_pos, (0, 5));
    for _ in 0..3 {
        apply_command(&mut s, left);
        assert_eq!(s.pointer_pos, (0, 5));
    }
}

#[test]
fn fast_right_moves_five() {
    let mut s = state_at(0, 0, grid(0, 0));
    apply_command(&mut s, Command::Move { direction: Direction::Right, fast: true });
    assert_eq!(s.pointer_pos, (5, 0));
    assert_eq!(move_pointer((0, 0), Direction::Right, false), (1, 0));
}

#[test]
fn vertical_moves() {
    assert_eq!(move_pointer((4, 7), Direction::Up, true), (4, 2));
    assert_eq!(move_pointer((4, 3), Direction::Up, true), (4, 0));
    assert_eq!(move_pointer((4, 3), Direction::Down, false), (4, 4));
    assert_eq!(move_pointer((4, u64::MAX - 2), Direction::Down, true), (4, u64::MAX));
    assert_eq!(move_pointer((u64::MAX, 0), Direction::Right, false), (u64::MAX, 0));
}

#[test]
fn place_outside_grid_changes_nothing() {
    let mut s = state_at(3, 0, grid(3, 2));
    let before = s.tiles.clone();
    assert!(!apply_command(&mut s, Command::PlaceOccupant(UnitType::Builder)));
    assert_eq!(s.tiles, before);
    s.pointer_pos = (0, 2);
    apply_command(&mut s, Command::PlaceOccupant(UnitType::Civilian));
    assert_eq!(s.tiles, before);
    assert_eq!(s.tiles.len(), 3);
}

#[test]
fn second_place_overwrites_first() {
    let mut s = state_at(1, 1, grid(3, 2));
    apply_command(&mut s, Command::PlaceOccupant(UnitType::Civilian));
    assert_eq!(
        s.tiles[1][1].unit,
        Some(Unit { unit_type: UnitType::Civilian, position: (1, 1) })
    );
    apply_command(&mut s, Command::PlaceOccupant(UnitType::Builder));
    assert_eq!(
        s.tiles[1][1].unit,
        Some(Unit { unit_type: UnitType::Builder, position: (1, 1) })
    );
    let units = s.tiles.iter().flatten().filter(|t| t.unit.is_some()).count();
    assert_eq!(units, 1);
}

#[test]
fn place_unit_keeps_terrain() {
    let mut tiles = grid(2, 2);
    tiles[0][1].tile_type = TileType::Desert;
    place_unit(&mut tiles, (0, 1), UnitType::Builder);
    assert_eq!(tiles[0][1].tile_type, TileType::Desert);
    assert_eq!(tiles[0][1].unit, Some(Unit { unit_type: UnitType::Builder, position: (0, 1) }));
    assert_eq!(tiles[0][0], plain_tile());
}

#[test]
fn quit_is_reported_and_changes_nothing() {
    let mut s = state_at(2, 2, grid(3, 3));
    let before = s.tiles.clone();
    assert!(apply_command(&mut s, Command::Quit));
    assert_eq!(s.pointer_pos, (2, 2));
    assert_eq!(s.tiles, before);
}

fn samples(width: usize, height: usize) -> Vec<Vec<bool>> {
    (0..width).map(|x| (0..height).map(|y| (x + 2 * y) % 3 == 0).collect()).collect()
}

#[test]
fn generated_grid_has_size_and_terrain() {
    let hills = samples(4, 3);
    let map = generate_map(4, 3, &hills);
    assert_eq!(map.len(), 4);
    for x in 0..4 {
        assert_eq!(map[x].len(), 3);
        for y in 0..3 {
            let expected = if hills[x][y] { TileType::Hills } else { TileType::Plains };
            assert_eq!(map[x][y].tile_type, expected);
            assert!(map[x][y].unit.is_none());
            assert!(map[x][y].building.is_none());
        }
    }
    assert_eq!(terrain_for(true), TileType::Hills);
    assert_eq!(terrain_for(false), TileType::Plains);
}

#[test]
fn generation_is_deterministic() {
    let hills = samples(7, 5);
    assert_eq!(generate_map(7, 5, &hills), generate_map(7, 5, &hills));
    assert!(generate_map(0, 0, &Vec::new()).is_empty());
}
