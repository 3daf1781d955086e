use vstd::prelude::*;
use crate::direction::Direction;
use crate::world::World;

verus! {

/// The controllable actor: current grid position, the position immediately
/// before it (kept for the behind-the-actor redraw), and the facing
/// direction, which drives sprite selection only.
#[derive(Clone, Copy, Debug, PartialEq, Eq, Structural)]
pub struct Actor {
    pub grid_x: i32,
    pub grid_y: i32,
    pub prev_grid_x: i32,
    pub prev_grid_y: i32,
    pub facing: Direction,
}

/// The outcome of one move intent: the actor stepped from `from` to `to`,
/// or the destination had no tile and nothing changed. A blocked move is
/// normal control flow, not an error.
#[derive(Clone, Copy, Debug, PartialEq, Eq, Structural)]
pub enum MoveOutcome {
    Moved { from_x: i32, from_y: i32, to_x: i32, to_y: i32 },
    Blocked,
}

impl Actor {
    /// The actor stands on a generated tile of `world`.
    pub open spec fn in_world(&self, world: &World) -> bool {
        world.occupiable_spec(self.grid_x as int, self.grid_y as int)
    }

    /// The previous position lies at most one tile away on each axis, as it
    /// does after any single move.
    pub open spec fn prev_adjacent(&self) -> bool {
        &&& -1 <= self.grid_x - self.prev_grid_x <= 1
        &&& -1 <= self.grid_y - self.prev_grid_y <= 1
    }

    /// A freshly placed actor: at (x, y), facing the idle default, with the
    /// previous position equal to the current one.
    pub fn new(x: i32, y: i32) -> (a: Actor)
        ensures
            a.grid_x == x,
            a.grid_y == y,
            a.prev_grid_x == x,
            a.prev_grid_y == y,
            a.facing == Direction::Still,
            a.prev_adjacent(),
    {
        Actor { grid_x: x, grid_y: y, prev_grid_x: x, prev_grid_y: y, facing: Direction::Still }
    }

    /// Move intent: step one tile in `direction` when the destination
    /// coordinate has a tile in `world`; otherwise change nothing.
    ///
    /// The call is atomic with respect to the actor's fields: `Blocked`
    /// leaves the actor unchanged field for field, and `Blocked` comes back
    /// exactly when the destination is not occupiable. On `Moved`, `prev`
    /// records the position immediately before this call, `facing` the
    /// direction just moved, and the outcome names both endpoints, which
    /// always differ.
    pub fn try_move(&mut self, direction: Direction, world: &World) -> (r: MoveOutcome)
        requires
            direction.is_cardinal(),
            world.wf(),
            old(self).in_world(world),
        ensures
            (r is Blocked <==> !world.occupiable_spec(
                old(self).grid_x + direction.dx(),
                old(self).grid_y + direction.dy(),
            )),
            r is Blocked ==> *final(self) == *old(self),
            r is Moved ==> {
                &&& final(self).grid_x == old(self).grid_x + direction.dx()
                &&& final(self).grid_y == old(self).grid_y + direction.dy()
                &&& final(self).prev_grid_x == old(self).grid_x
                &&& final(self).prev_grid_y == old(self).grid_y
                &&& final(self).facing == direction
                &&& final(self).in_world(world)
                &&& final(self).prev_adjacent()
                &&& r == (MoveOutcome::Moved {
                        from_x: old(self).grid_x,
                        from_y: old(self).grid_y,
                        to_x: final(self).grid_x,
                        to_y: final(self).grid_y,
                    })
            },
            (r matches MoveOutcome::Moved { from_x, from_y, to_x, to_y }
                ==> !(from_x == to_x && from_y == to_y)),
    {
        let (dx, dy) = direction.delta();
        let cand_x: i32 = self.grid_x + dx;
        let cand_y: i32 = self.grid_y + dy;
        if world.is_occupiable(cand_x, cand_y) {
            let from_x = self.grid_x;
            let from_y = self.grid_y;
            self.prev_grid_x = from_x;
            self.prev_grid_y = from_y;
            self.grid_x = cand_x;
            self.grid_y = cand_y;
            self.facing = direction;
            MoveOutcome::Moved { from_x, from_y, to_x: cand_x, to_y: cand_y }
        } else {
            MoveOutcome::Blocked
        }
    }
}

} // verus!
