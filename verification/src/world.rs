use vstd::prelude::*;
use vstd::arithmetic::div_mod::{
    lemma_fundamental_div_mod, lemma_fundamental_div_mod_converse, lemma_multiply_divide_lt,
};
use crate::catalog::TileKind;
use crate::rng::random_bool;

verus! {

/// One grid cell: its terrain kind and its grid coordinate, in tile-index
/// units (not pixels).
#[derive(Clone, Copy, Debug, PartialEq, Eq, Structural)]
pub struct Tile {
    pub kind: TileKind,
    pub grid_x: i32,
    pub grid_y: i32,
}

/// The generated world: `width * height` tiles, one per coordinate of the
/// rectangle, stored row-major and keyed by coordinate. Built once at
/// startup, read-only afterwards.
#[derive(Debug)]
pub struct World {
    pub width: i32,
    pub height: i32,
    pub tiles: Vec<Tile>,
}

impl World {
    /// Well-formed: exactly one tile per cell of the rectangle, no gaps and
    /// no duplicates, each tile labelled with its own coordinate.
    pub open spec fn wf(&self) -> bool {
        &&& 0 <= self.width
        &&& 0 <= self.height
        &&& self.tiles@.len() == self.width * self.height
        &&& forall|i: int| 0 <= i < self.tiles@.len() ==> {
                &&& (#[trigger] self.tiles@[i]).grid_x == i % (self.width as int)
                &&& self.tiles@[i].grid_y == i / (self.width as int)
            }
    }

    /// The collision predicate: a coordinate is enterable iff the world
    /// generated a tile there, which for a gap-free grid means it lies
    /// inside the generated rectangle.
    pub open spec fn occupiable_spec(&self, x: int, y: int) -> bool {
        0 <= x < self.width && 0 <= y < self.height
    }

    /// Row-major index of cell (x, y).
    pub open spec fn cell_index(&self, x: int, y: int) -> int {
        y * self.width + x
    }

    /// What lookup returns: the cell's tile inside the generated rectangle,
    /// nothing outside it.
    pub open spec fn tile_at_spec(&self, x: int, y: int) -> Option<Tile> {
        if self.occupiable_spec(x, y) {
            Some(self.tiles@[self.cell_index(x, y)])
        } else {
            None
        }
    }

    /// Inside the rectangle, the row-major index is in range and inverts to
    /// the coordinate it came from.
    proof fn lemma_cell_index_bounds(&self, x: int, y: int)
        requires
            self.wf(),
            self.occupiable_spec(x, y),
        ensures
            0 <= self.cell_index(x, y) < self.tiles@.len(),
            self.cell_index(x, y) % (self.width as int) == x,
            self.cell_index(x, y) / (self.width as int) == y,
    {
        let w = self.width as int;
        let h = self.height as int;
        assert(0 <= y * w + x < w * h) by (nonlinear_arith)
            requires
                0 <= x < w,
                0 <= y < h,
        ;
        lemma_fundamental_div_mod_converse(y * w + x, w, y, x);
    }

    /// Coordinate-keyed tile lookup: the tile at (x, y), or nothing when the
    /// coordinate lies outside the generated rectangle.
    pub fn tile_at(&self, x: i32, y: i32) -> (r: Option<Tile>)
        requires
            self.wf(),
        ensures
            r == self.tile_at_spec(x as int, y as int),
            r is Some <==> self.occupiable_spec(x as int, y as int),
            (r matches Some(t) ==> t.grid_x == x && t.grid_y == y),
    {
        if x >= 0 && x < self.width && y >= 0 && y < self.height {
            proof {
                self.lemma_cell_index_bounds(x as int, y as int);
            }
            let n: usize = self.tiles.len();
            let idx: usize = (y as usize) * (self.width as usize) + (x as usize);
            if idx < n {
                Some(self.tiles[idx])
            } else {
                None
            }
        } else {
            None
        }
    }

    /// The sole collision query: true iff `tile_at` would return a tile.
    pub fn is_occupiable(&self, x: i32, y: i32) -> (b: bool)
        requires
            self.wf(),
        ensures
            b == self.occupiable_spec(x as int, y as int),
            b == (self.tile_at_spec(x as int, y as int) is Some),
    {
        x >= 0 && x < self.width && y >= 0 && y < self.height
    }

    /// Builds the grid from one boolean pick per cell, row-major: `true`
    /// chooses dirt, `false` sand. The deterministic half of generation,
    /// verified for every sequence of picks.
    pub fn generate_from(width: i32, height: i32, picks: &Vec<bool>) -> (w: World)
        requires
            0 <= width,
            0 <= height,
            picks@.len() == width * height,
        ensures
            w.wf(),
            w.width == width,
            w.height == height,
            w.tiles@.len() == width * height,
            forall|i: int| 0 <= i < picks@.len() ==>
                (#[trigger] w.tiles@[i]).kind
                    == (if picks@[i] { TileKind::Dirt } else { TileKind::Sand }),
    {
        let n: usize = picks.len();
        let mut tiles: Vec<Tile> = Vec::new();
        let mut i: usize = 0;
        while i < n
            invariant
                0 <= width,
                0 <= height,
                n == picks@.len(),
                n == width * height,
                i <= n,
                tiles@.len() == i,
                forall|k: int| 0 <= k < i ==> {
                    &&& (#[trigger] tiles@[k]).grid_x == k % (width as int)
                    &&& tiles@[k].grid_y == k / (width as int)
                    &&& tiles@[k].kind
                            == (if picks@[k] { TileKind::Dirt } else { TileKind::Sand })
                },
            decreases n - i,
        {
            proof {
                assert(width > 0) by (nonlinear_arith)
                    requires
                        0 <= width,
                        (i as int) < width * height,
                ;
                lemma_multiply_divide_lt(i as int, width as int, height as int);
            }
            let wu: usize = width as usize;
            let gx: i32 = (i % wu) as i32;
            let gy: i32 = (i / wu) as i32;
            let kind = if picks[i] { TileKind::Dirt } else { TileKind::Sand };
            tiles.push(Tile { kind, grid_x: gx, grid_y: gy });
            i = i + 1;
        }
        World { width, height, tiles }
    }

    /// Map generation: one independent uniform pick per cell between the two
    /// terrain kinds — a flat random scatter, no spatial correlation. The
    /// result always holds exactly `width * height` tiles, one per
    /// coordinate, whatever the picks were.
    pub fn generate(width: i32, height: i32) -> (w: World)
        requires
            0 <= width,
            0 <= height,
            width * height <= usize::MAX,
        ensures
            w.wf(),
            w.width == width,
            w.height == height,
            w.tiles@.len() == width * height,
    {
        let n: usize = (width as usize) * (height as usize);
        let mut picks: Vec<bool> = Vec::new();
        let mut i: usize = 0;
        while i < n
            invariant
                i <= n,
                picks@.len() == i,
            decreases n - i,
        {
            picks.push(random_bool());
            i = i + 1;
        }
        World::generate_from(width, height, &picks)
    }

    /// No two distinct tiles of a well-formed world share a grid coordinate:
    /// the row-major labelling is injective.
    pub proof fn lemma_no_duplicate_coords(&self)
        requires
            self.wf(),
        ensures
            forall|i: int, j: int|
                0 <= i < self.tiles@.len() && 0 <= j < self.tiles@.len() && i != j
                    ==> (#[trigger] self.tiles@[i]).grid_x != (#[trigger] self.tiles@[j]).grid_x
                        || self.tiles@[i].grid_y != self.tiles@[j].grid_y,
    {
        let w = self.width as int;
        assert forall|i: int, j: int|
            0 <= i < self.tiles@.len() && 0 <= j < self.tiles@.len() && i != j
                implies (#[trigger] self.tiles@[i]).grid_x != (#[trigger] self.tiles@[j]).grid_x
                    || self.tiles@[i].grid_y != self.tiles@[j].grid_y by {
            if self.tiles@[i].grid_x == self.tiles@[j].grid_x
                && self.tiles@[i].grid_y == self.tiles@[j].grid_y {
                assert(w > 0) by (nonlinear_arith)
                    requires
                        0 <= w,
                        0 <= i,
                        (i as int) < w * (self.height as int),
                ;
                lemma_fundamental_div_mod(i, w);
                lemma_fundamental_div_mod(j, w);
                assert(i == j);
            }
        }
    }
}

} // verus!
