use vstd::prelude::*;
use crate::actor::{Actor, MoveOutcome};
use crate::camera::Camera;
use crate::direction::Direction;
use crate::render::{
    frame_cmds_spec, render_frame, DrawCmd, FrameState, RenderError, MAX_ANCHOR_DRIFT,
};
use crate::world::World;

verus! {

/// The single top-level owner of the game state: the world, the actor, the
/// configured camera, and the anchor — the actor position at which the
/// standing frame was composed. Components receive only the narrow borrows
/// they need — the world for collision queries, the anchor and actor for
/// the renderer.
pub struct Game {
    pub world: World,
    pub actor: Actor,
    pub camera: Camera,
    pub anchor_x: i32,
    pub anchor_y: i32,
}

impl Game {
    /// Well-formed: the world grid is intact, the camera size is supported,
    /// the actor stands on a generated tile with its previous position at
    /// most one step away, and the anchor is an actor position, hence on a
    /// generated tile too.
    pub open spec fn wf(&self) -> bool {
        &&& self.world.wf()
        &&& self.camera.wf()
        &&& self.actor.in_world(&self.world)
        &&& self.actor.prev_adjacent()
        &&& self.world.occupiable_spec(self.anchor_x as int, self.anchor_y as int)
    }

    /// True when the actor has drifted so far from the standing frame's
    /// anchor that an incremental repaint can no longer be computed; the
    /// next frame must then be a full redraw, which re-anchors the window.
    pub open spec fn needs_reanchor(&self) -> bool {
        ||| !(-MAX_ANCHOR_DRIFT <= self.actor.grid_x - self.anchor_x <= MAX_ANCHOR_DRIFT)
        ||| !(-MAX_ANCHOR_DRIFT <= self.actor.grid_y - self.anchor_y <= MAX_ANCHOR_DRIFT)
    }

    /// Assembles the state from a generated world, a placed actor and a
    /// configured camera; the first frame is anchored on the actor.
    pub fn new(world: World, actor: Actor, camera: Camera) -> (g: Game)
        requires
            world.wf(),
            camera.wf(),
            actor.in_world(&world),
            actor.prev_adjacent(),
        ensures
            g.wf(),
            g.world == world,
            g.actor == actor,
            g.camera == camera,
            g.anchor_x == actor.grid_x,
            g.anchor_y == actor.grid_y,
    {
        let anchor_x = actor.grid_x;
        let anchor_y = actor.grid_y;
        Game { world, actor, camera, anchor_x, anchor_y }
    }

    /// Resolves one directional input against the world: the actor steps
    /// exactly when the destination tile exists, and a blocked input
    /// changes nothing. The world, the camera and the standing frame's
    /// anchor never change here.
    pub fn handle_input(&mut self, direction: Direction) -> (r: MoveOutcome)
        requires
            old(self).wf(),
            direction.is_cardinal(),
        ensures
            final(self).wf(),
            final(self).world == old(self).world,
            final(self).camera == old(self).camera,
            final(self).anchor_x == old(self).anchor_x,
            final(self).anchor_y == old(self).anchor_y,
            (r is Blocked <==> !old(self).world.occupiable_spec(
                old(self).actor.grid_x + direction.dx(),
                old(self).actor.grid_y + direction.dy(),
            )),
            r is Blocked ==> final(self).actor == old(self).actor,
            r is Moved ==> {
                &&& final(self).actor.grid_x == old(self).actor.grid_x + direction.dx()
                &&& final(self).actor.grid_y == old(self).actor.grid_y + direction.dy()
                &&& final(self).actor.prev_grid_x == old(self).actor.grid_x
                &&& final(self).actor.prev_grid_y == old(self).actor.grid_y
                &&& final(self).actor.facing == direction
                &&& r == (MoveOutcome::Moved {
                        from_x: old(self).actor.grid_x,
                        from_y: old(self).actor.grid_y,
                        to_x: final(self).actor.grid_x,
                        to_y: final(self).actor.grid_y,
                    })
            },
    {
        self.actor.try_move(direction, &self.world)
    }

    /// Draw commands for one frame in the given state. A full redraw
    /// re-anchors the window on the actor's current position; the other
    /// states keep the standing anchor, so their repaints land on the
    /// pixels the standing frame drew. Errs only on the fatal violation: a
    /// moved frame whose recorded previous position has no tile.
    pub fn render(&mut self, state: FrameState) -> (r: Result<Vec<DrawCmd>, RenderError>)
        requires
            old(self).wf(),
            state is ActorMoved ==> !old(self).needs_reanchor(),
        ensures
            final(self).wf(),
            final(self).world == old(self).world,
            final(self).actor == old(self).actor,
            final(self).camera == old(self).camera,
            final(self).anchor_x == (if state is FullRedraw {
                old(self).actor.grid_x
            } else {
                old(self).anchor_x
            }),
            final(self).anchor_y == (if state is FullRedraw {
                old(self).actor.grid_y
            } else {
                old(self).anchor_y
            }),
            (r is Err <==> state is ActorMoved && !old(self).world.occupiable_spec(
                old(self).actor.prev_grid_x as int,
                old(self).actor.prev_grid_y as int,
            )),
            (r matches Ok(cmds) ==> cmds@ == frame_cmds_spec(
                state,
                old(self).world,
                old(self).actor,
                old(self).camera,
                final(self).anchor_x as int,
                final(self).anchor_y as int,
            )),
            (r matches Err(e) ==> e == RenderError::MissingTileBehindActor),
    {
        if let FrameState::FullRedraw = state {
            self.anchor_x = self.actor.grid_x;
            self.anchor_y = self.actor.grid_y;
        }
        render_frame(state, &self.world, &self.actor, &self.camera, self.anchor_x, self.anchor_y)
    }
}

} // verus!
