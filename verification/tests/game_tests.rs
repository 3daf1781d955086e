use tileworld::actor::{Actor, MoveOutcome};
use tileworld::camera::Camera;
use tileworld::direction::Direction;
use tileworld::game::Game;
use tileworld::render::{frame_state_for, FrameState};
use tileworld::world::World;

fn new_game() -> Game {
    let picks = vec![true, false, false, true];
    let world = World::generate_from(2, 2, &picks);
    Game::new(world, Actor::new(0, 0), Camera::new(64, 64))
}

#[test]
fn a_frame_cycle_full_then_idle() {
    let mut game = new_game();
    let first = game
        .render(frame_state_for(true, false))
        .expect("a full redraw never fails");
    assert!(first.len() > 0);
    let second = game
        .render(frame_state_for(false, false))
        .expect("an idle frame never fails");
    assert_eq!(second.len(), 0);
}

#[test]
fn input_moves_then_blocks() {
    let mut game = new_game();
    game.render(FrameState::FullRedraw).expect("first frame");
    let r = game.handle_input(Direction::Down);
    assert_eq!(
        r,
        MoveOutcome::Moved { from_x: 0, from_y: 0, to_x: 0, to_y: 1 }
    );
    let state = frame_state_for(false, matches!(r, MoveOutcome::Moved { .. }));
    assert_eq!(state, FrameState::ActorMoved);
    let cmds = game.render(state).expect("the vacated cell has a tile");
    assert_eq!(cmds.len(), 2);

    let r2 = game.handle_input(Direction::Down);
    assert_eq!(r2, MoveOutcome::Blocked);
    assert_eq!((game.actor.grid_x, game.actor.grid_y), (0, 1));
}

#[test]
fn the_anchor_follows_full_redraws_only() {
    let mut game = new_game();
    game.render(FrameState::FullRedraw).expect("first frame");
    assert_eq!((game.anchor_x, game.anchor_y), (0, 0));
    game.handle_input(Direction::Right);
    game.render(FrameState::ActorMoved).expect("incremental frame");
    // The standing frame's window did not move with the actor.
    assert_eq!((game.anchor_x, game.anchor_y), (0, 0));
    game.render(FrameState::FullRedraw).expect("re-anchoring frame");
    assert_eq!((game.anchor_x, game.anchor_y), (1, 0));
}
