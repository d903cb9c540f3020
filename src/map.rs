//! The world model and the terrain generator.
use vstd::prelude::*;

verus! {

/// The terrain of a tile.
#[derive(Debug, Clone, Copy, PartialEq, Eq, Structural)]
pub enum TileType {
    Plains,
    Desert,
    Hills,
}

/// The kind of a unit standing on a tile.
#[derive(Debug, Clone, Copy, PartialEq, Eq, Structural)]
pub enum UnitType {
    Civilian,
    Builder,
}

/// A unit, with the world position of the tile that holds it.
#[derive(Debug, Clone, Copy, PartialEq, Eq)]
pub struct Unit {
    pub unit_type: UnitType,
    pub position: (u64, u64),
}

/// A building on a tile (no attributes yet).
#[derive(Debug, Clone, Copy, PartialEq, Eq)]
pub struct Building {}

/// One cell of the world: its terrain and what stands on it.
#[derive(Debug, Clone, Copy, PartialEq, Eq)]
pub struct Tile {
    pub tile_type: TileType,
    pub unit: Option<Unit>,
    pub building: Option<Building>,
}

/// A grid of columns as nested sequences, indexed `[x][y]`.
pub open spec fn grid_view(tiles: Seq<Vec<Tile>>) -> Seq<Seq<Tile>> {
    tiles.map_values(|column: Vec<Tile>| column@)
}

/// The tile at world position `(x, y)`, or `None` outside the grid.
pub open spec fn tile_at(grid: Seq<Seq<Tile>>, x: int, y: int) -> Option<Tile> {
    if 0 <= x < grid.len() && 0 <= y < grid[x].len() {
        Some(grid[x][y])
    } else {
        None
    }
}

/// The terrain of a cell whose noise sample is (or is not) at or above the
/// cutoff.
pub open spec fn terrain_of(hills: bool) -> TileType {
    if hills {
        TileType::Hills
    } else {
        TileType::Plains
    }
}

/// A freshly generated tile: its terrain, and nothing on it.
pub open spec fn fresh_tile(hills: bool) -> Tile {
    Tile { tile_type: terrain_of(hills), unit: None, building: None }
}

/// `hills` holds `width` columns of `height` samples each.
pub open spec fn samples_shaped(hills: Seq<Seq<bool>>, width: nat, height: nat) -> bool {
    &&& hills.len() == width
    &&& forall|x: int| 0 <= x < width ==> #[trigger] hills[x].len() == height
}

/// The grid generated from the samples: `width` columns of `height` fresh
/// tiles, each with the terrain that its sample gives.
pub open spec fn generated(grid: Seq<Seq<Tile>>, width: nat, height: nat, hills: Seq<Seq<bool>>) -> bool {
    &&& grid.len() == width
    &&& forall|x: int| 0 <= x < width ==> #[trigger] grid[x].len() == height
    &&& forall|x: int, y: int|
        0 <= x < width && 0 <= y < height ==> #[trigger] grid[x][y] == fresh_tile(hills[x][y])
}

/// Every unit records the position of the tile that holds it.
pub open spec fn units_in_place(grid: Seq<Seq<Tile>>) -> bool {
    forall|x: int, y: int|
        0 <= x < grid.len() && 0 <= y < grid[x].len() && (#[trigger] grid[x][y]).unit is Some
            ==> grid[x][y].unit->0.position == (x as u64, y as u64)
}

/// The samples as nested sequences.
pub open spec fn samples_view(hills: Seq<Vec<bool>>) -> Seq<Seq<bool>> {
    hills.map_values(|column: Vec<bool>| column@)
}

/// The terrain for one noise sample: hills at or above the cutoff, plains below.
pub fn terrain_for(hills: bool) -> (r: TileType)
    ensures
        r == terrain_of(hills),
{
    if hills {
        TileType::Hills
    } else {
        TileType::Plains
    }
}

/// Builds a world of `width` columns and `height` rows from the noise
/// samples: `hills[x][y]` holds whether the coherent-noise value at `(x, y)`
/// reaches the cutoff. Every tile starts with no unit and no building.
pub fn generate_map(width: u16, height: u16, hills: &Vec<Vec<bool>>) -> (map: Vec<Vec<Tile>>)
    requires
        samples_shaped(samples_view(hills@), width as nat, height as nat),
    ensures
        generated(grid_view(map@), width as nat, height as nat, samples_view(hills@)),
        units_in_place(grid_view(map@)),
{
    let mut map: Vec<Vec<Tile>> = Vec::new();
    let mut x: u16 = 0;
    while x < width
        invariant
            x <= width,
            samples_shaped(samples_view(hills@), width as nat, height as nat),
            map@.len() == x,
            forall|i: int| 0 <= i < x ==> #[trigger] map@[i]@.len() == height,
            forall|i: int, j: int|
                0 <= i < x && 0 <= j < height ==> #[trigger] map@[i]@[j] == fresh_tile(
                    hills@[i]@[j],
                ),
        decreases width - x,
    {
        let ghost sx = x as int;
        assert(samples_view(hills@)[sx] == hills@[sx]@);
        assert(samples_view(hills@)[sx].len() == height);
        let mut column: Vec<Tile> = Vec::new();
        let mut y: u16 = 0;
        while y < height
            invariant
                x < width,
                y <= height,
                hills@.len() == width,
                hills@[x as int]@.len() == height,
                column@.len() == y,
                forall|j: int|
                    0 <= j < y ==> #[trigger] column@[j] == fresh_tile(hills@[x as int]@[j]),
            decreases height - y,
        {
            let tile_type = terrain_for(hills[x as usize][y as usize]);
            column.push(Tile { tile_type, unit: None, building: None });
            y = y + 1;
        }
        map.push(column);
        x = x + 1;
    }
    proof {
        let g = grid_view(map@);
        let h = samples_view(hills@);
        assert forall|i: int| 0 <= i < width implies #[trigger] g[i].len() == height by {
            assert(g[i] == map@[i]@);
        }
        assert forall|i: int, j: int|
            0 <= i < width && 0 <= j < height implies #[trigger] g[i][j] == fresh_tile(
                h[i][j],
            ) by {
            assert(g[i] == map@[i]@);
            assert(h[i] == hills@[i]@);
        }
    }
    map
}

/// Generation depends on its inputs alone: two grids generated from the same
/// size and the same noise samples are equal.
pub proof fn lemma_generation_deterministic(
    a: Seq<Seq<Tile>>,
    b: Seq<Seq<Tile>>,
    width: nat,
    height: nat,
    hills: Seq<Seq<bool>>,
)
    requires
        generated(a, width, height, hills),
        generated(b, width, height, hills),
    ensures
        a == b,
{
    assert forall|x: int| 0 <= x < a.len() implies a[x] == b[x] by {
        assert(a[x] =~= b[x]);
    }
    assert(a =~= b);
}

} // verus!
