use tileworld::catalog::{actor_sprite_rect, source_rect_for, TileKind};
use tileworld::direction::Direction;
use tileworld::geom::Rect;

#[test]
fn terrain_sprites_sit_at_their_sheet_cells() {
    // Stride 17 = 16-pixel tile + 1-pixel margin; dirt in cell (6, 18),
    // sand in cell (8, 18).
    assert_eq!(
        source_rect_for(TileKind::Dirt),
        Rect { x: 102, y: 306, w: 16, h: 16 }
    );
    assert_eq!(
        source_rect_for(TileKind::Sand),
        Rect { x: 136, y: 306, w: 16, h: 16 }
    );
}

#[test]
fn actor_sprites_sit_in_sheet_row_zero() {
    assert_eq!(
        actor_sprite_rect(Direction::Left),
        Rect { x: 391, y: 0, w: 16, h: 16 }
    );
    assert_eq!(
        actor_sprite_rect(Direction::Down),
        Rect { x: 408, y: 0, w: 16, h: 16 }
    );
    assert_eq!(
        actor_sprite_rect(Direction::Up),
        Rect { x: 425, y: 0, w: 16, h: 16 }
    );
    assert_eq!(
        actor_sprite_rect(Direction::Right),
        Rect { x: 442, y: 0, w: 16, h: 16 }
    );
}

#[test]
fn idle_facing_draws_the_down_sprite() {
    assert_eq!(
        actor_sprite_rect(Direction::Still),
        actor_sprite_rect(Direction::Down)
    );
}
