use tileworld::catalog::TileKind;
use tileworld::world::World;

#[test]
fn generate_from_counts_and_coords() {
    let picks = vec![true, false, true, false, false, true];
    let w = World::generate_from(3, 2, &picks);
    assert_eq!(w.width, 3);
    assert_eq!(w.height, 2);
    assert_eq!(w.tiles.len(), 6);
    for (i, t) in w.tiles.iter().enumerate() {
        assert_eq!(t.grid_x, (i % 3) as i32);
        assert_eq!(t.grid_y, (i / 3) as i32);
        let expected = if picks[i] { TileKind::Dirt } else { TileKind::Sand };
        assert_eq!(t.kind, expected);
    }
}

#[test]
fn no_two_tiles_share_a_coordinate() {
    let picks = vec![true; 12];
    let w = World::generate_from(4, 3, &picks);
    for i in 0..w.tiles.len() {
        for j in 0..w.tiles.len() {
            if i != j {
                let a = &w.tiles[i];
                let b = &w.tiles[j];
                assert!(a.grid_x != b.grid_x || a.grid_y != b.grid_y);
            }
        }
    }
}

#[test]
fn generate_random_fills_the_whole_grid() {
    let w = World::generate(4, 4);
    assert_eq!(w.tiles.len(), 16);
    for (i, t) in w.tiles.iter().enumerate() {
        assert_eq!(t.grid_x, (i % 4) as i32);
        assert_eq!(t.grid_y, (i / 4) as i32);
        assert!(t.kind == TileKind::Dirt || t.kind == TileKind::Sand);
    }
}

#[test]
fn tile_at_inside_and_outside() {
    let picks = vec![true, false, false, true];
    let w = World::generate_from(2, 2, &picks);
    let t = w.tile_at(1, 0).expect("tile inside the grid");
    assert_eq!(t.grid_x, 1);
    assert_eq!(t.grid_y, 0);
    assert_eq!(t.kind, TileKind::Sand);
    assert!(w.tile_at(2, 0).is_none());
    assert!(w.tile_at(0, 2).is_none());
    assert!(w.tile_at(-1, 0).is_none());
    assert!(w.tile_at(0, -1).is_none());
}

#[test]
fn is_occupiable_matches_tile_at() {
    let picks = vec![true, true];
    let w = World::generate_from(2, 1, &picks);
    for x in -1..3 {
        for y in -1..2 {
            assert_eq!(w.is_occupiable(x, y), w.tile_at(x, y).is_some());
        }
    }
}

#[test]
fn empty_world_has_no_tiles() {
    let picks: Vec<bool> = vec![];
    let w = World::generate_from(0, 5, &picks);
    assert_eq!(w.tiles.len(), 0);
    assert!(w.tile_at(0, 0).is_none());
}
