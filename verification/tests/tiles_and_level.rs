use platformer_physics::level::LevelFile;
use platformer_physics::tile_table::{AnimationTileBuilder, Tile, TileName};
use platformer_physics::tiles::{from_world_pos, Behaviour, TileGrid, TilePos};
use platformer_physics::vec2::Vec2i;

fn v(x: i64, y: i64) -> Vec2i {
    Vec2i { x, y }
}

#[test]
fn behaviour_solidity() {
    assert!(!Behaviour::Empty.is_solid());
    assert!(Behaviour::Ground.is_solid());
    assert!(Behaviour::Brick.is_solid());
    assert!(!Behaviour::Coin.is_solid());
}

#[test]
fn grid_set_and_get() {
    let mut grid = TileGrid::new(8, 4, 16);
    assert_eq!(grid.get(TilePos { x: 3, y: 2 }), None);
    grid.set(TilePos { x: 3, y: 2 }, Some(Behaviour::Ground));
    assert_eq!(grid.get(TilePos { x: 3, y: 2 }), Some(Behaviour::Ground));
    assert_eq!(grid.get(TilePos { x: 2, y: 3 }), None);
}

#[test]
fn tile_aabb_is_cell_sized() {
    let grid = TileGrid::new(8, 4, 16);
    let a = grid.tile_aabb(TilePos { x: 3, y: 2 });
    assert_eq!((a.min.x, a.min.y), (48, 32));
    assert_eq!((a.max.x, a.max.y), (64, 48));
}

#[test]
fn world_to_tile_floors_and_rejects_outside() {
    let grid = TileGrid::new(8, 4, 16);
    assert_eq!(from_world_pos(v(0, 0), &grid), Some(TilePos { x: 0, y: 0 }));
    assert_eq!(from_world_pos(v(47, 63), &grid), Some(TilePos { x: 2, y: 3 }));
    // Negative coordinates floor away from zero and fall outside.
    assert_eq!(from_world_pos(v(-1, 0), &grid), None);
    assert_eq!(from_world_pos(v(0, 64), &grid), None);
    assert_eq!(from_world_pos(v(128, 0), &grid), None);
}

#[test]
fn level_file_splits_non_empty_lines() {
    let level = LevelFile::new("##.\n\n.#.\n");
    assert_eq!(level.n_rows, 2);
    assert_eq!(level.n_columns, 3);
    assert_eq!(level.get(0, 0), '#');
    assert_eq!(level.get(0, 2), '.');
    assert_eq!(level.get(1, 1), '#');
}

#[test]
fn level_file_keeps_final_unterminated_line() {
    let level = LevelFile::new("ab\ncd");
    assert_eq!(level.n_rows, 2);
    assert_eq!(level.get(1, 0), 'c');
    assert_eq!(level.get(1, 1), 'd');
}

#[test]
fn style_table_ground_and_bricks_are_solid() {
    let t = Tile::from_style("ground");
    assert_eq!(t.name, TileName::Ground);
    assert_eq!(t.behaviour, Behaviour::Ground);
    assert_eq!(t.animation, AnimationTileBuilder::Single(0));

    let t = Tile::from_style("bricks");
    assert_eq!(t.name, TileName::Bricks);
    assert_eq!(t.behaviour, Behaviour::Brick);
    assert_eq!(t.animation, AnimationTileBuilder::Single(1));
}

#[test]
fn style_table_animated_tiles_loop_frames() {
    let t = Tile::from_style("chance");
    assert_eq!(t.name, TileName::Chance);
    assert_eq!(t.behaviour, Behaviour::Empty);
    assert_eq!(
        t.animation,
        AnimationTileBuilder::Multiple { frames: vec![4, 5, 6], frame_duration_ms: 200 },
    );

    let t = Tile::from_style("coin");
    assert_eq!(t.name, TileName::Chance);
    assert_eq!(
        t.animation,
        AnimationTileBuilder::Multiple { frames: vec![15, 31, 47], frame_duration_ms: 200 },
    );
}

#[test]
fn style_table_unknown_styles_fall_back() {
    let t = Tile::from_style("not-a-style");
    assert_eq!(t.name, TileName::Waves);
    assert_eq!(t.behaviour, Behaviour::Empty);
    assert_eq!(t.animation, AnimationTileBuilder::Single(112));
}

#[test]
fn style_table_decoration_is_not_solid() {
    assert_eq!(Tile::from_style("sky").behaviour, Behaviour::Empty);
    assert_eq!(Tile::from_style("cloud-tile").behaviour, Behaviour::Empty);
    assert_eq!(Tile::from_style("pipe-vert-left").behaviour, Behaviour::Ground);
    assert_eq!(Tile::from_style("metal").behaviour, Behaviour::Brick);
}
