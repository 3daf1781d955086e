use vstd::prelude::*;
use crate::direction::Direction;
use crate::geom::Rect;

verus! {

/// The kind of terrain in one grid cell. Chosen once at generation and
/// immutable afterwards.
#[derive(Clone, Copy, Debug, PartialEq, Eq, Structural)]
pub enum TileKind {
    Dirt,
    Sand,
}

/// Side length, in pixels, of one square tile both in the sprite sheet and on
/// screen.
pub const TILE_SIZE: u32 = 16;

/// Pixels of padding between neighbouring sprites in the sheet.
pub const TILE_MARGIN: u32 = 1;

/// Distance, in pixels, between the top-left corners of neighbouring sheet
/// cells: one tile plus one margin.
pub const SHEET_STRIDE: i32 = 17;

/// Pixel position of each terrain sprite in the sheet: the dirt sprite sits
/// in sheet cell (6, 18), the sand sprite in cell (8, 18).
pub const DIRT_SRC_X: i32 = SHEET_STRIDE * 6;
pub const SAND_SRC_X: i32 = SHEET_STRIDE * 8;
pub const TERRAIN_SRC_Y: i32 = SHEET_STRIDE * 18;

/// Pixel x of the four actor sprites, all in sheet row zero: sheet cells 23
/// (left), 24 (down), 25 (up) and 26 (right).
pub const ACTOR_LEFT_SRC_X: i32 = SHEET_STRIDE * 23;
pub const ACTOR_DOWN_SRC_X: i32 = SHEET_STRIDE * 24;
pub const ACTOR_UP_SRC_X: i32 = SHEET_STRIDE * 25;
pub const ACTOR_RIGHT_SRC_X: i32 = SHEET_STRIDE * 26;

/// The sheet rectangle of a terrain sprite.
pub open spec fn terrain_src_spec(kind: TileKind) -> Rect {
    match kind {
        TileKind::Dirt => Rect { x: DIRT_SRC_X, y: TERRAIN_SRC_Y, w: TILE_SIZE, h: TILE_SIZE },
        TileKind::Sand => Rect { x: SAND_SRC_X, y: TERRAIN_SRC_Y, w: TILE_SIZE, h: TILE_SIZE },
    }
}

/// The sheet pixel x of the actor sprite for a facing direction; `Still`
/// falls back to the down-facing sprite.
pub open spec fn actor_src_x_spec(facing: Direction) -> i32 {
    match facing {
        Direction::Up => ACTOR_UP_SRC_X,
        Direction::Left => ACTOR_LEFT_SRC_X,
        Direction::Right => ACTOR_RIGHT_SRC_X,
        Direction::Down => ACTOR_DOWN_SRC_X,
        Direction::Still => ACTOR_DOWN_SRC_X,
    }
}

/// The sheet rectangle of the actor sprite for a facing direction.
pub open spec fn actor_src_spec(facing: Direction) -> Rect {
    Rect { x: actor_src_x_spec(facing), y: 0, w: TILE_SIZE, h: TILE_SIZE }
}

/// Sprite-sheet rectangle of a terrain kind. Total: every kind has a sprite.
pub fn source_rect_for(kind: TileKind) -> (r: Rect)
    ensures
        r == terrain_src_spec(kind),
{
    match kind {
        TileKind::Dirt => Rect { x: DIRT_SRC_X, y: TERRAIN_SRC_Y, w: TILE_SIZE, h: TILE_SIZE },
        TileKind::Sand => Rect { x: SAND_SRC_X, y: TERRAIN_SRC_Y, w: TILE_SIZE, h: TILE_SIZE },
    }
}

/// Sprite-sheet rectangle of the actor for a facing direction. Total: an
/// unset (`Still`) facing draws the down-facing sprite.
pub fn actor_sprite_rect(facing: Direction) -> (r: Rect)
    ensures
        r == actor_src_spec(facing),
{
    let x: i32 = match facing {
        Direction::Up => ACTOR_UP_SRC_X,
        Direction::Left => ACTOR_LEFT_SRC_X,
        Direction::Right => ACTOR_RIGHT_SRC_X,
        Direction::Down => ACTOR_DOWN_SRC_X,
        Direction::Still => ACTOR_DOWN_SRC_X,
    };
    Rect { x, y: 0, w: TILE_SIZE, h: TILE_SIZE }
}

} // verus!
