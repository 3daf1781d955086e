use vstd::prelude::*;
use vstd::arithmetic::div_mod::{lemma_div_is_ordered, lemma_div_pos_is_pos};
use crate::catalog::TILE_SIZE;

verus! {

/// Upper bound on a configured viewport edge, in pixels. Keeps every pixel
/// coordinate the camera computes inside `i32`.
pub const MAX_VIEWPORT: u32 = 1048576;

/// The camera: just the configured viewport size in pixels. It holds no
/// cross-frame state; the visible window is recomputed from an anchor — the
/// actor position at which a frame is composed. A full redraw anchors the
/// window on the actor's current position; every later incremental frame
/// keeps that anchor, so its repaints land pixel-for-pixel on the standing
/// frame.
#[derive(Clone, Copy, Debug, PartialEq, Eq, Structural)]
pub struct Camera {
    pub viewport_width: u32,
    pub viewport_height: u32,
}

/// A rectangle of grid coordinates: origin and size in tile units.
#[derive(Clone, Copy, Debug, PartialEq, Eq, Structural)]
pub struct GridRect {
    pub x: i32,
    pub y: i32,
    pub w: u32,
    pub h: u32,
}

impl Camera {
    /// Well-formed: the configured size stays within the supported bound.
    pub open spec fn wf(&self) -> bool {
        &&& self.viewport_width <= MAX_VIEWPORT
        &&& self.viewport_height <= MAX_VIEWPORT
    }

    /// A camera for a drawing surface of the given pixel size.
    pub fn new(viewport_width: u32, viewport_height: u32) -> (c: Camera)
        requires
            viewport_width <= MAX_VIEWPORT,
            viewport_height <= MAX_VIEWPORT,
        ensures
            c.viewport_width == viewport_width,
            c.viewport_height == viewport_height,
            c.wf(),
    {
        Camera { viewport_width, viewport_height }
    }

    /// How many whole tiles fit across the viewport.
    pub open spec fn tiles_w(self) -> int {
        self.viewport_width as int / TILE_SIZE as int
    }

    /// How many whole tiles fit down the viewport.
    pub open spec fn tiles_h(self) -> int {
        self.viewport_height as int / TILE_SIZE as int
    }

    /// Grid x of the left edge of the visible window, centred on the anchor.
    pub open spec fn origin_x_spec(self, anchor_x: int) -> int {
        anchor_x - self.tiles_w() / 2
    }

    /// Grid y of the top edge of the visible window, centred on the anchor.
    pub open spec fn origin_y_spec(self, anchor_y: int) -> int {
        anchor_y - self.tiles_h() / 2
    }

    /// The window of grid coordinates visible around the anchor. It is not
    /// clamped to world bounds: near an edge it may name coordinates for
    /// which the world has no tile, and a renderer treats those as nothing
    /// to draw.
    pub open spec fn visible_region_spec(self, anchor_x: int, anchor_y: int) -> GridRect {
        GridRect {
            x: self.origin_x_spec(anchor_x) as i32,
            y: self.origin_y_spec(anchor_y) as i32,
            w: self.tiles_w() as u32,
            h: self.tiles_h() as u32,
        }
    }

    /// Computes the visible window for an anchor. Anchors are actor
    /// positions, grid coordinates of generated tiles, hence non-negative.
    pub fn visible_region(self, anchor_x: i32, anchor_y: i32) -> (r: GridRect)
        requires
            self.wf(),
            0 <= anchor_x,
            0 <= anchor_y,
        ensures
            r == self.visible_region_spec(anchor_x as int, anchor_y as int),
            r.x == self.origin_x_spec(anchor_x as int),
            r.y == self.origin_y_spec(anchor_y as int),
            r.w == self.tiles_w(),
            r.h == self.tiles_h(),
    {
        let tw: u32 = self.viewport_width / TILE_SIZE;
        let th: u32 = self.viewport_height / TILE_SIZE;
        GridRect {
            x: anchor_x - (tw / 2) as i32,
            y: anchor_y - (th / 2) as i32,
            w: tw,
            h: th,
        }
    }

    /// A well-formed camera's visible window never exceeds 65536 tiles on
    /// an edge, and its half-width offsets stay small.
    pub proof fn lemma_tiles_bounds(self)
        requires
            self.wf(),
        ensures
            0 <= self.tiles_w() <= 65536,
            0 <= self.tiles_h() <= 65536,
            0 <= self.tiles_w() / 2 <= 32768,
            0 <= self.tiles_h() / 2 <= 32768,
    {
        lemma_div_pos_is_pos(self.viewport_width as int, TILE_SIZE as int);
        lemma_div_pos_is_pos(self.viewport_height as int, TILE_SIZE as int);
        lemma_div_is_ordered(self.viewport_width as int, MAX_VIEWPORT as int, TILE_SIZE as int);
        lemma_div_is_ordered(self.viewport_height as int, MAX_VIEWPORT as int, TILE_SIZE as int);
        assert(MAX_VIEWPORT as int / TILE_SIZE as int == 65536);
        lemma_div_pos_is_pos(self.tiles_w(), 2);
        lemma_div_pos_is_pos(self.tiles_h(), 2);
        lemma_div_is_ordered(self.tiles_w(), 65536, 2);
        lemma_div_is_ordered(self.tiles_h(), 65536, 2);
    }

    /// The affine grid-to-pixel transform, as a pure function of its
    /// arguments: the cell's offset from the window origin, scaled by the
    /// tile size. Being a function, it is deterministic across frames, so
    /// redraw regions land pixel-for-pixel on the original draw.
    pub open spec fn world_to_screen_spec(self, gx: int, gy: int, anchor_x: int, anchor_y: int)
        -> (int, int) {
        (
            (gx - self.origin_x_spec(anchor_x)) * TILE_SIZE,
            (gy - self.origin_y_spec(anchor_y)) * TILE_SIZE,
        )
    }

    /// Pixel position of a grid coordinate on the screen. The bounds on the
    /// offset from the window origin only keep the pixel values inside
    /// `i32`; every coordinate a renderer draws lies far inside them.
    pub fn world_to_screen(self, gx: i32, gy: i32, anchor_x: i32, anchor_y: i32) -> (p: (i32, i32))
        requires
            self.wf(),
            0 <= anchor_x,
            0 <= anchor_y,
            -0x2000000 <= gx - self.origin_x_spec(anchor_x as int) <= 0x2000000,
            -0x2000000 <= gy - self.origin_y_spec(anchor_y as int) <= 0x2000000,
        ensures
            p.0 == self.world_to_screen_spec(gx as int, gy as int, anchor_x as int, anchor_y as int).0,
            p.1 == self.world_to_screen_spec(gx as int, gy as int, anchor_x as int, anchor_y as int).1,
    {
        let tw: u32 = self.viewport_width / TILE_SIZE;
        let th: u32 = self.viewport_height / TILE_SIZE;
        let ox: i64 = anchor_x as i64 - (tw / 2) as i64;
        let oy: i64 = anchor_y as i64 - (th / 2) as i64;
        let dx: i64 = gx as i64 - ox;
        let dy: i64 = gy as i64 - oy;
        assert(-0x2000000 <= dx <= 0x2000000);
        assert(-0x2000000 <= dy <= 0x2000000);
        let px: i64 = dx * 16;
        let py: i64 = dy * 16;
        (px as i32, py as i32)
    }
}

/// Translation consistency of the grid-to-pixel transform: one step in grid
/// x moves the screen point by exactly one tile size in x and nothing in y,
/// and symmetrically for a step in grid y, for any fixed anchor and
/// viewport.
pub proof fn lemma_world_to_screen_translation(
    cam: Camera,
    gx: int,
    gy: int,
    anchor_x: int,
    anchor_y: int,
)
    ensures
        cam.world_to_screen_spec(gx + 1, gy, anchor_x, anchor_y).0
            - cam.world_to_screen_spec(gx, gy, anchor_x, anchor_y).0 == TILE_SIZE,
        cam.world_to_screen_spec(gx + 1, gy, anchor_x, anchor_y).1
            - cam.world_to_screen_spec(gx, gy, anchor_x, anchor_y).1 == 0,
        cam.world_to_screen_spec(gx, gy + 1, anchor_x, anchor_y).0
            - cam.world_to_screen_spec(gx, gy, anchor_x, anchor_y).0 == 0,
        cam.world_to_screen_spec(gx, gy + 1, anchor_x, anchor_y).1
            - cam.world_to_screen_spec(gx, gy, anchor_x, anchor_y).1 == TILE_SIZE,
{
}

} // verus!
