//! A terminal viewer for a tile world: the world model, the viewport mapping,
//! the tile renderer, the frame compositor and the input reducer.
use vstd::prelude::*;

pub mod display;
pub mod input;
pub mod map;

use crate::map::{grid_view, Tile};

verus! {

/// The whole session: the cursor in world space and the tile grid, indexed
/// as `tiles[x][y]`.
pub struct State {
    pub pointer_pos: (u64, u64),
    pub tiles: Vec<Vec<Tile>>,
}

impl State {
    /// The tile grid as nested sequences.
    pub open spec fn grid(&self) -> Seq<Seq<Tile>> {
        grid_view(self.tiles@)
    }
}

} // verus!
