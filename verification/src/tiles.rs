//! The static tile grid: per-tile behaviour, world/tile coordinate
//! conversion, and the side-tagged tile collision record.

use vstd::prelude::*;
use crate::aabb::Aabb;
use crate::num::{div_floor, mul_i128, sat64, sat_i64};
use crate::vec2::Vec2i;

verus! {

/// Widest admissible tile grid (cells per axis).
pub const GRID_DIM_MAX: u32 = 65535;

/// Largest admissible tile cell size, in world units.
pub const CELL_MAX: i64 = 1048576;

/// Per-tile classification, fixed at map-build time. `is_solid` decides
/// whether the tile blocks movement.
#[derive(Clone, Copy, Debug, PartialEq, Eq, Structural)]
pub enum Behaviour {
    Empty,
    Ground,
    Brick,
    Coin,
}

/// Whether a behaviour blocks body movement.
pub open spec fn spec_is_solid(b: Behaviour) -> bool {
    match b {
        Behaviour::Empty => false,
        Behaviour::Ground => true,
        Behaviour::Brick => true,
        Behaviour::Coin => false,
    }
}

impl Behaviour {
    /// True for terrain that blocks movement (ground and bricks), false for
    /// decoration and collectibles.
    pub fn is_solid(&self) -> (r: bool)
        ensures
            r == spec_is_solid(*self),
    {
        match self {
            Behaviour::Empty => false,
            Behaviour::Ground => true,
            Behaviour::Brick => true,
            Behaviour::Coin => false,
        }
    }
}

/// Which vertical tile edge a body crossed on the x axis: `Left` means the
/// body ran rightward into the tile's left edge, `Right` leftward into its
/// right edge.
#[derive(Clone, Copy, Debug, PartialEq, Eq, Structural)]
pub enum XSide {
    Left,
    Right,
}

/// Which horizontal tile edge a body crossed on the y axis: `Top` means the
/// body fell onto the tile's top edge (a landing), `Bottom` that it rose into
/// the tile's bottom edge (a head bump).
#[derive(Clone, Copy, Debug, PartialEq, Eq, Structural)]
pub enum YSide {
    Top,
    Bottom,
}

/// A tile coordinate in the grid.
#[derive(Clone, Copy, Debug, PartialEq, Eq, Structural)]
pub struct TilePos {
    pub x: u32,
    pub y: u32,
}

/// Ephemeral record of one body-tile crossing, produced by the detector and
/// consumed by the resolvers in the same tick. Exactly one of the two sides
/// is set, naming the tile edge that was crossed.
#[derive(Clone, Copy, Debug, PartialEq, Eq, Structural)]
pub struct TileCollision {
    pub from: usize,
    pub to: TilePos,
    pub x_side: Option<XSide>,
    pub y_side: Option<YSide>,
}

/// The static tile grid: a dense array of cells, each either empty or holding
/// a tile with its behaviour. Read-only during simulation.
#[derive(Clone, Debug)]
pub struct TileGrid {
    pub width: u32,
    pub height: u32,
    pub cell: i64,
    pub cells: Vec<Option<Behaviour>>,
}

impl TileGrid {
    /// Structural well-formedness: positive cell size within bounds and a
    /// backing array of exactly `width * height` cells.
    pub open spec fn valid(self) -> bool {
        &&& 1 <= self.cell <= CELL_MAX
        &&& self.width <= GRID_DIM_MAX
        &&& self.height <= GRID_DIM_MAX
        &&& self.cells@.len() == self.width * self.height
    }

    /// The cell at a tile coordinate.
    pub open spec fn spec_at(self, x: int, y: int) -> Option<Behaviour> {
        self.cells@[y * self.width + x]
    }

    /// An empty grid of the given dimensions.
    pub fn new(width: u32, height: u32, cell: i64) -> (r: TileGrid)
        requires
            width <= GRID_DIM_MAX,
            height <= GRID_DIM_MAX,
            1 <= cell <= CELL_MAX,
        ensures
            r.valid(),
            r.width == width,
            r.height == height,
            r.cell == cell,
            forall|x: int, y: int|
                0 <= x < width && 0 <= y < height ==> #[trigger] r.spec_at(x, y) is None,
    {
        proof {
            crate::num::lemma_mul_le(width as int, height as int, GRID_DIM_MAX as int, GRID_DIM_MAX as int);
        }
        let n: usize = (width as usize) * (height as usize);
        let mut cells: Vec<Option<Behaviour>> = Vec::new();
        let mut i: usize = 0;
        while i < n
            invariant
                0 <= i <= n,
                cells@.len() == i,
                forall|k: int| 0 <= k < i ==> cells@[k] is None,
            decreases n - i,
        {
            cells.push(Option::None);
            i = i + 1;
        }
        let r = TileGrid { width, height, cell, cells };
        proof {
            assert forall|x: int, y: int|
                0 <= x < width && 0 <= y < height implies #[trigger] r.spec_at(x, y) is None by {
                lemma_grid_index(x, y, width as int, height as int);
            }
        }
        r
    }

    /// Places (or clears) a tile at a coordinate inside the grid.
    pub fn set(&mut self, pos: TilePos, tile: Option<Behaviour>)
        requires
            old(self).valid(),
            pos.x < old(self).width,
            pos.y < old(self).height,
        ensures
            final(self).valid(),
            final(self).width == old(self).width,
            final(self).height == old(self).height,
            final(self).cell == old(self).cell,
            final(self).spec_at(pos.x as int, pos.y as int) == tile,
            forall|x: int, y: int|
                0 <= x < old(self).width && 0 <= y < old(self).height && !(x == pos.x && y
                    == pos.y) ==> #[trigger] final(self).spec_at(x, y) == old(self).spec_at(x, y),
    {
        proof {
            lemma_grid_index(pos.x as int, pos.y as int, self.width as int, self.height as int);
        }
        let idx: usize = (pos.y as usize) * (self.width as usize) + (pos.x as usize);
        self.cells[idx] = tile;
        proof {
            assert forall|x: int, y: int|
                0 <= x < self.width && 0 <= y < self.height && !(x == pos.x && y == pos.y) implies #[trigger] self
                .spec_at(x, y) == old(self).spec_at(x, y) by {
                lemma_grid_index(x, y, self.width as int, self.height as int);
                lemma_grid_index_injective(
                    x,
                    y,
                    pos.x as int,
                    pos.y as int,
                    self.width as int,
                    self.height as int,
                );
            }
        }
    }

    /// Looks the cell up at a tile coordinate: the tile's behaviour, or
    /// nothing where no tile was placed.
    pub fn get(&self, pos: TilePos) -> (r: Option<Behaviour>)
        requires
            self.valid(),
            pos.x < self.width,
            pos.y < self.height,
        ensures
            r == self.spec_at(pos.x as int, pos.y as int),
    {
        proof {
            lemma_grid_index(pos.x as int, pos.y as int, self.width as int, self.height as int);
        }
        let idx: usize = (pos.y as usize) * (self.width as usize) + (pos.x as usize);
        self.cells[idx]
    }

    /// The world-space box of one tile cell.
    pub fn tile_aabb(&self, pos: TilePos) -> (r: Aabb)
        requires
            self.valid(),
        ensures
            r == spec_tile_aabb(*self, pos),
    {
        proof {
            crate::num::lemma_mul_le(pos.x as int, self.cell as int, 0x100000000, CELL_MAX as int);
            crate::num::lemma_mul_le(pos.y as int, self.cell as int, 0x100000000, CELL_MAX as int);
        }
        let x: i128 = mul_i128(pos.x as i128, self.cell as i128);
        let y: i128 = mul_i128(pos.y as i128, self.cell as i128);
        Aabb {
            min: Vec2i { x: sat_i64(x), y: sat_i64(y) },
            max: Vec2i { x: sat_i64(x + self.cell as i128), y: sat_i64(y + self.cell as i128) },
        }
    }
}

/// The world-space box of the tile at `pos`: cell-sized, anchored at
/// `pos * cell`.
pub open spec fn spec_tile_aabb(grid: TileGrid, pos: TilePos) -> Aabb {
    Aabb {
        min: Vec2i {
            x: sat64(pos.x * grid.cell) as i64,
            y: sat64(pos.y * grid.cell) as i64,
        },
        max: Vec2i {
            x: sat64(pos.x * grid.cell + grid.cell) as i64,
            y: sat64(pos.y * grid.cell + grid.cell) as i64,
        },
    }
}

/// The tile coordinate whose cell contains a world position, if it lies
/// inside the grid. Coordinates floor toward negative infinity, so positions
/// left of or below the grid are outside it, not clamped into it.
pub open spec fn spec_from_world_pos(world: Vec2i, grid: TileGrid) -> Option<TilePos> {
    let tx = world.x as int / grid.cell as int;
    let ty = world.y as int / grid.cell as int;
    if 0 <= tx < grid.width && 0 <= ty < grid.height {
        Some(TilePos { x: tx as u32, y: ty as u32 })
    } else {
        None
    }
}

/// Converts a world position to the tile coordinate containing it; nothing
/// when the position lies outside the grid.
pub fn from_world_pos(world: Vec2i, grid: &TileGrid) -> (r: Option<TilePos>)
    requires
        grid.valid(),
    ensures
        r == spec_from_world_pos(world, *grid),
{
    let tx: i128 = div_floor(world.x as i128, grid.cell as i128);
    let ty: i128 = div_floor(world.y as i128, grid.cell as i128);
    if 0 <= tx && tx < grid.width as i128 && 0 <= ty && ty < grid.height as i128 {
        Some(TilePos { x: tx as u32, y: ty as u32 })
    } else {
        None
    }
}

/// A row-major cell index is inside the backing array (and fits `u32` for a
/// grid within [`GRID_DIM_MAX`]).
pub proof fn lemma_grid_index(x: int, y: int, width: int, height: int)
    requires
        0 <= x < width,
        0 <= y < height,
        width <= 0x10000,
        height <= 0x10000,
    ensures
        0 <= y * width + x < width * height,
        y * width + x < 0x100000000,
{
    assert(0 <= y * width + x < width * height && y * width + x < 0x100000000)
        by (nonlinear_arith)
        requires
            0 <= x < width,
            0 <= y < height,
            width <= 0x10000,
            height <= 0x10000,
    ;
}

/// Distinct coordinates have distinct row-major indices.
pub proof fn lemma_grid_index_injective(x1: int, y1: int, x2: int, y2: int, width: int, height: int)
    requires
        0 <= x1 < width,
        0 <= y1 < height,
        0 <= x2 < width,
        0 <= y2 < height,
        !(x1 == x2 && y1 == y2),
    ensures
        y1 * width + x1 != y2 * width + x2,
{
    assert(y1 * width + x1 != y2 * width + x2) by (nonlinear_arith)
        requires
            0 <= x1 < width,
            0 <= y1 < height,
            0 <= x2 < width,
            0 <= y2 < height,
            !(x1 == x2 && y1 == y2),
    ;
}

} // verus!
