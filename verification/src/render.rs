use vstd::prelude::*;
use vstd::arithmetic::div_mod::lemma_multiply_divide_lt;
use crate::actor::Actor;
use crate::camera::{Camera, GridRect};
use crate::catalog::{
    actor_sprite_rect, actor_src_spec, source_rect_for, terrain_src_spec, TILE_SIZE,
};
use crate::geom::Rect;
use crate::world::{Tile, World};

verus! {

/// What this frame must redraw: everything (first frame, or whenever the
/// window must be re-anchored), only the cell the actor vacated plus the
/// actor itself (after a successful move), or nothing at all (no input, no
/// move).
#[derive(Clone, Copy, Debug, PartialEq, Eq, Structural)]
pub enum FrameState {
    FullRedraw,
    ActorMoved,
    Idle,
}

/// One draw call against the abstract surface: copy `src` from the sprite
/// sheet to `dst` on the screen.
#[derive(Clone, Copy, Debug, PartialEq, Eq, Structural)]
pub struct DrawCmd {
    pub src: Rect,
    pub dst: Rect,
}

/// The renderer's fatal error: the actor's recorded previous position has no
/// generated tile under it. That can only happen if the actor ever stood
/// outside the world, so it signals an already-broken collision invariant
/// and must abort the run rather than be ignored.
#[derive(Clone, Copy, Debug, PartialEq, Eq, Structural)]
pub enum RenderError {
    MissingTileBehindActor,
}

/// How far, in tiles on either axis, the actor may drift from the standing
/// frame's anchor before an incremental repaint must give way to a full
/// redraw: the transform's pixel values stay inside `i32` up to this bound.
pub const MAX_ANCHOR_DRIFT: i32 = 0x1000000;

/// Screen destination rectangle of grid cell (gx, gy) in the frame anchored
/// at (anchor_x, anchor_y): one tile-sized square at the cell's transformed
/// pixel position.
pub open spec fn dst_rect_spec(cam: Camera, gx: int, gy: int, anchor_x: int, anchor_y: int)
    -> Rect {
    Rect {
        x: cam.world_to_screen_spec(gx, gy, anchor_x, anchor_y).0 as i32,
        y: cam.world_to_screen_spec(gx, gy, anchor_x, anchor_y).1 as i32,
        w: TILE_SIZE,
        h: TILE_SIZE,
    }
}

/// The draw command that paints one terrain tile, in the frame anchored at
/// (anchor_x, anchor_y).
pub open spec fn tile_cmd_spec(t: Tile, cam: Camera, anchor_x: int, anchor_y: int) -> DrawCmd {
    DrawCmd {
        src: terrain_src_spec(t.kind),
        dst: dst_rect_spec(cam, t.grid_x as int, t.grid_y as int, anchor_x, anchor_y),
    }
}

/// The draw command that paints the actor sprite at the actor's current
/// position, in the frame anchored at (anchor_x, anchor_y).
pub open spec fn actor_cmd_spec(actor: Actor, cam: Camera, anchor_x: int, anchor_y: int)
    -> DrawCmd {
    DrawCmd {
        src: actor_src_spec(actor.facing),
        dst: dst_rect_spec(cam, actor.grid_x as int, actor.grid_y as int, anchor_x, anchor_y),
    }
}

/// The k-th cell of a grid window, row-major.
pub open spec fn region_cell(r: GridRect, k: int) -> (int, int) {
    (r.x + k % (r.w as int), r.y + k / (r.w as int))
}

/// The terrain commands of a full redraw anchored at (anchor_x, anchor_y),
/// for the first `n` cells of the visible window in row-major order: one
/// command per cell that has a tile, nothing for cells outside the generated
/// world.
pub open spec fn full_tile_cmds_spec(world: World, cam: Camera, anchor_x: int, anchor_y: int, n: int)
    -> Seq<DrawCmd>
    decreases n,
{
    if n <= 0 {
        Seq::empty()
    } else {
        let prefix = full_tile_cmds_spec(world, cam, anchor_x, anchor_y, n - 1);
        let region = cam.visible_region_spec(anchor_x, anchor_y);
        let cell = region_cell(region, n - 1);
        match world.tile_at_spec(cell.0, cell.1) {
            Some(t) => prefix.push(tile_cmd_spec(t, cam, anchor_x, anchor_y)),
            None => prefix,
        }
    }
}

/// Exactly the draw commands a frame issues, in order, all transformed with
/// the same anchor. A full redraw paints every tile of the window anchored
/// on the actor, then the actor; a moved frame repaints the tile under the
/// previous position — landing exactly where the standing frame drew the
/// stale actor sprite, since the anchor has not changed — then the actor; an
/// idle frame paints nothing.
pub open spec fn frame_cmds_spec(
    state: FrameState,
    world: World,
    actor: Actor,
    cam: Camera,
    anchor_x: int,
    anchor_y: int,
) -> Seq<DrawCmd> {
    match state {
        FrameState::FullRedraw => {
            let region = cam.visible_region_spec(anchor_x, anchor_y);
            full_tile_cmds_spec(world, cam, anchor_x, anchor_y, region.w * region.h)
                .push(actor_cmd_spec(actor, cam, anchor_x, anchor_y))
        },
        FrameState::ActorMoved => {
            match world.tile_at_spec(actor.prev_grid_x as int, actor.prev_grid_y as int) {
                Some(t) => seq![
                    tile_cmd_spec(t, cam, anchor_x, anchor_y),
                    actor_cmd_spec(actor, cam, anchor_x, anchor_y),
                ],
                None => Seq::empty(),
            }
        },
        FrameState::Idle => Seq::empty(),
    }
}

/// The per-frame redraw discipline: the first frame redraws everything, a
/// frame whose move succeeded redraws only what the move invalidated, any
/// other frame draws nothing new.
pub fn frame_state_for(first_frame: bool, moved: bool) -> (s: FrameState)
    ensures
        s == (if first_frame {
            FrameState::FullRedraw
        } else if moved {
            FrameState::ActorMoved
        } else {
            FrameState::Idle
        }),
{
    if first_frame {
        FrameState::FullRedraw
    } else if moved {
        FrameState::ActorMoved
    } else {
        FrameState::Idle
    }
}

/// Computes the draw commands of one frame.
///
/// (anchor_x, anchor_y) is the actor position the standing frame's window is
/// centred on. A full redraw composes a fresh frame, so it requires the
/// anchor to be the actor's current position; an incremental frame reuses
/// the standing anchor, which is what makes its repaints land on the pixels
/// the standing frame drew. Succeeds with exactly `frame_cmds_spec` for
/// every state except a moved frame whose recorded previous position has no
/// tile; that one case is the fatal invariant violation and the only error.
pub fn render_frame(
    state: FrameState,
    world: &World,
    actor: &Actor,
    cam: &Camera,
    anchor_x: i32,
    anchor_y: i32,
) -> (r: Result<Vec<DrawCmd>, RenderError>)
    requires
        world.wf(),
        cam.wf(),
        actor.in_world(world),
        world.occupiable_spec(anchor_x as int, anchor_y as int),
        state is FullRedraw ==> anchor_x == actor.grid_x && anchor_y == actor.grid_y,
        state is ActorMoved ==> actor.prev_adjacent(),
        state is ActorMoved ==> {
            &&& -MAX_ANCHOR_DRIFT <= actor.grid_x - anchor_x <= MAX_ANCHOR_DRIFT
            &&& -MAX_ANCHOR_DRIFT <= actor.grid_y - anchor_y <= MAX_ANCHOR_DRIFT
        },
    ensures
        (r is Err <==> state is ActorMoved && !world.occupiable_spec(
            actor.prev_grid_x as int,
            actor.prev_grid_y as int,
        )),
        (r matches Ok(cmds) ==> cmds@ == frame_cmds_spec(
            state,
            *world,
            *actor,
            *cam,
            anchor_x as int,
            anchor_y as int,
        )),
        (r matches Err(e) ==> e == RenderError::MissingTileBehindActor),
{
    match state {
        FrameState::Idle => {
            let cmds: Vec<DrawCmd> = Vec::new();
            assert(cmds@ =~= frame_cmds_spec(
                state, *world, *actor, *cam, anchor_x as int, anchor_y as int,
            ));
            Ok(cmds)
        },
        FrameState::ActorMoved => {
            match world.tile_at(actor.prev_grid_x, actor.prev_grid_y) {
                None => Err(RenderError::MissingTileBehindActor),
                Some(t) => {
                    proof {
                        cam.lemma_tiles_bounds();
                    }
                    let mut cmds: Vec<DrawCmd> = Vec::new();
                    let src = source_rect_for(t.kind);
                    let (bx, by) = cam.world_to_screen(t.grid_x, t.grid_y, anchor_x, anchor_y);
                    cmds.push(DrawCmd { src, dst: Rect { x: bx, y: by, w: TILE_SIZE, h: TILE_SIZE } });
                    let asrc = actor_sprite_rect(actor.facing);
                    let (ax, ay) = cam.world_to_screen(
                        actor.grid_x,
                        actor.grid_y,
                        anchor_x,
                        anchor_y,
                    );
                    cmds.push(
                        DrawCmd { src: asrc, dst: Rect { x: ax, y: ay, w: TILE_SIZE, h: TILE_SIZE } },
                    );
                    assert(cmds@ =~= frame_cmds_spec(
                        state, *world, *actor, *cam, anchor_x as int, anchor_y as int,
                    ));
                    Ok(cmds)
                },
            }
        },
        FrameState::FullRedraw => {
            let region = cam.visible_region(anchor_x, anchor_y);
            proof {
                cam.lemma_tiles_bounds();
            }
            let rw: u64 = region.w as u64;
            let rh: u64 = region.h as u64;
            proof {
                assert((rw as int) * (rh as int) <= 0x100000000) by (nonlinear_arith)
                    requires
                        0 <= rw <= 65536,
                        0 <= rh <= 65536,
                ;
            }
            let total: u64 = rw * rh;
            let mut cmds: Vec<DrawCmd> = Vec::new();
            let mut k: u64 = 0;
            while k < total
                invariant
                    world.wf(),
                    cam.wf(),
                    world.occupiable_spec(anchor_x as int, anchor_y as int),
                    region == cam.visible_region_spec(anchor_x as int, anchor_y as int),
                    region.x == cam.origin_x_spec(anchor_x as int),
                    region.y == cam.origin_y_spec(anchor_y as int),
                    rw == region.w,
                    rh == region.h,
                    rw <= 65536,
                    rh <= 65536,
                    total == rw * rh,
                    k <= total,
                    cmds@ == full_tile_cmds_spec(
                        *world, *cam, anchor_x as int, anchor_y as int, k as int,
                    ),
                decreases total - k,
            {
                proof {
                    assert(rw > 0) by (nonlinear_arith)
                        requires
                            (k as int) < (rw as int) * (rh as int),
                            0 <= rw,
                            0 <= k,
                    ;
                    lemma_multiply_divide_lt(k as int, rw as int, rh as int);
                }
                let cx_wide: i64 = region.x as i64 + (k % rw) as i64;
                let cy_wide: i64 = region.y as i64 + (k / rw) as i64;
                let ghost cell = region_cell(region, k as int);
                assert(cell.0 == cx_wide && cell.1 == cy_wide);
                let t_opt: Option<Tile> = if cx_wide <= i32::MAX as i64 && cy_wide <= i32::MAX as i64
                    && cx_wide >= i32::MIN as i64 && cy_wide >= i32::MIN as i64 {
                    world.tile_at(cx_wide as i32, cy_wide as i32)
                } else {
                    proof {
                        assert(world.tile_at_spec(cell.0, cell.1) is None);
                    }
                    None
                };
                match t_opt {
                    Some(t) => {
                        let src = source_rect_for(t.kind);
                        let (px, py) = cam.world_to_screen(t.grid_x, t.grid_y, anchor_x, anchor_y);
                        cmds.push(
                            DrawCmd { src, dst: Rect { x: px, y: py, w: TILE_SIZE, h: TILE_SIZE } },
                        );
                    },
                    None => {},
                }
                k = k + 1;
            }
            let asrc = actor_sprite_rect(actor.facing);
            let (ax, ay) = cam.world_to_screen(actor.grid_x, actor.grid_y, anchor_x, anchor_y);
            cmds.push(DrawCmd { src: asrc, dst: Rect { x: ax, y: ay, w: TILE_SIZE, h: TILE_SIZE } });
            assert(cmds@ =~= frame_cmds_spec(
                state, *world, *actor, *cam, anchor_x as int, anchor_y as int,
            ));
            Ok(cmds)
        },
    }
}

/// The behind-the-actor repaint of a moved frame erases the stale actor
/// sprite: the standing frame drew the actor at the now-vacated cell with
/// some anchor, and the moved frame repaints that same cell's terrain with
/// the same anchor, so both land on the same screen rectangle.
pub proof fn lemma_repaint_erases_stale_sprite(
    t: Tile,
    stale: Actor,
    moved: Actor,
    cam: Camera,
    anchor_x: int,
    anchor_y: int,
)
    requires
        t.grid_x == moved.prev_grid_x && t.grid_y == moved.prev_grid_y,
        stale.grid_x == moved.prev_grid_x && stale.grid_y == moved.prev_grid_y,
    ensures
        tile_cmd_spec(t, cam, anchor_x, anchor_y).dst
            == actor_cmd_spec(stale, cam, anchor_x, anchor_y).dst,
{
}

/// After the full redraw of the first frame, a frame in which nothing moved
/// (`Idle`) issues zero additional draw commands: presenting the already
/// composed frame costs no draws.
pub proof fn lemma_idle_after_full_redraw(
    world: World,
    actor: Actor,
    cam: Camera,
    anchor_x: int,
    anchor_y: int,
)
    ensures
        frame_cmds_spec(FrameState::Idle, world, actor, cam, anchor_x, anchor_y).len() == 0,
{
}

} // verus!
