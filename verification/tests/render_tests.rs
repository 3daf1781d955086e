use tileworld::actor::{Actor, MoveOutcome};
use tileworld::direction::Direction;
use tileworld::camera::Camera;
use tileworld::geom::Rect;
use tileworld::render::{frame_state_for, render_frame, DrawCmd, FrameState, RenderError};
use tileworld::world::World;

fn dirt_world(width: i32, height: i32) -> World {
    let picks = vec![true; (width * height) as usize];
    World::generate_from(width, height, &picks)
}

#[test]
fn idle_after_full_redraw_issues_no_draws() {
    let w = dirt_world(2, 2);
    let a = Actor::new(0, 0);
    let cam = Camera::new(64, 64);
    let full = render_frame(FrameState::FullRedraw, &w, &a, &cam, 0, 0).unwrap();
    assert!(full.len() > 0);
    let idle = render_frame(FrameState::Idle, &w, &a, &cam, 0, 0).unwrap();
    assert_eq!(idle.len(), 0);
}

#[test]
fn full_redraw_emits_every_visible_tile_then_the_actor() {
    let w = dirt_world(2, 2);
    let a = Actor::new(0, 0);
    let cam = Camera::new(64, 64);
    // 4x4 window anchored on the actor at (0, 0): origin (-2, -2); only the
    // four world cells carry tiles, row-major, then the actor sprite on top.
    let cmds = render_frame(FrameState::FullRedraw, &w, &a, &cam, 0, 0).unwrap();
    let dirt = Rect { x: 102, y: 306, w: 16, h: 16 };
    let down_actor = Rect { x: 408, y: 0, w: 16, h: 16 };
    let expected = vec![
        DrawCmd { src: dirt, dst: Rect { x: 32, y: 32, w: 16, h: 16 } },
        DrawCmd { src: dirt, dst: Rect { x: 48, y: 32, w: 16, h: 16 } },
        DrawCmd { src: dirt, dst: Rect { x: 32, y: 48, w: 16, h: 16 } },
        DrawCmd { src: dirt, dst: Rect { x: 48, y: 48, w: 16, h: 16 } },
        DrawCmd { src: down_actor, dst: Rect { x: 32, y: 32, w: 16, h: 16 } },
    ];
    assert_eq!(cmds, expected);
}

#[test]
fn moved_frame_redraws_behind_then_the_actor() {
    let w = dirt_world(2, 2);
    let mut a = Actor::new(0, 0);
    let r = a.try_move(Direction::Right, &w);
    assert!(matches!(r, MoveOutcome::Moved { .. }));
    let cam = Camera::new(64, 64);
    // The standing frame was anchored at (0, 0), and the anchor does not
    // move with the actor: the vacated cell (0, 0) is repainted at its
    // original screen rectangle (32, 32), then the right-facing actor at
    // (1, 0) one tile to the right of it.
    let cmds = render_frame(FrameState::ActorMoved, &w, &a, &cam, 0, 0).unwrap();
    let dirt = Rect { x: 102, y: 306, w: 16, h: 16 };
    let right_actor = Rect { x: 442, y: 0, w: 16, h: 16 };
    let expected = vec![
        DrawCmd { src: dirt, dst: Rect { x: 32, y: 32, w: 16, h: 16 } },
        DrawCmd { src: right_actor, dst: Rect { x: 48, y: 32, w: 16, h: 16 } },
    ];
    assert_eq!(cmds, expected);
}

#[test]
fn repaint_lands_on_the_stale_actor_sprite() {
    let w = dirt_world(3, 3);
    let mut a = Actor::new(1, 1);
    let cam = Camera::new(64, 64);
    let full = render_frame(FrameState::FullRedraw, &w, &a, &cam, 1, 1).unwrap();
    let stale_actor_dst = full.last().unwrap().dst;
    let r = a.try_move(Direction::Down, &w);
    assert!(matches!(r, MoveOutcome::Moved { .. }));
    let cmds = render_frame(FrameState::ActorMoved, &w, &a, &cam, 1, 1).unwrap();
    assert_eq!(cmds.len(), 2);
    // The behind-the-actor repaint erases exactly the stale actor sprite.
    assert_eq!(cmds[0].dst, stale_actor_dst);
}

#[test]
fn missing_tile_behind_the_actor_is_a_fatal_error() {
    let w = dirt_world(1, 1);
    let a = Actor {
        grid_x: 0,
        grid_y: 0,
        prev_grid_x: 1,
        prev_grid_y: 0,
        facing: Direction::Right,
    };
    let cam = Camera::new(64, 64);
    let r = render_frame(FrameState::ActorMoved, &w, &a, &cam, 0, 0);
    assert_eq!(r, Err(RenderError::MissingTileBehindActor));
}

#[test]
fn frame_state_decision() {
    assert_eq!(frame_state_for(true, false), FrameState::FullRedraw);
    assert_eq!(frame_state_for(true, true), FrameState::FullRedraw);
    assert_eq!(frame_state_for(false, true), FrameState::ActorMoved);
    assert_eq!(frame_state_for(false, false), FrameState::Idle);
}
