use mapgen::collision::{
    boundary_in_level, bounded_scroll, check_boundary, path_down_blocked, path_left_blocked,
    path_right_blocked, path_up_blocked, scroll_step, sideways_probe_in_map,
    upright_probe_in_map, START_X, START_Y, WALKABLE_TILE, WALL_TILE,
};
use mapgen::motion::Tri;

fn open_map() -> [[usize; 32]; 32] {
    [[WALKABLE_TILE; 32]; 32]
}

fn map_with(obstacles: &[(usize, usize)]) -> [[usize; 32]; 32] {
    let mut map = open_map();
    for &(row, col) in obstacles {
        map[row][col] = 0;
    }
    map
}

fn level_with(walls: &[(usize, usize)]) -> [[usize; 64]; 32] {
    let mut level = [[0usize; 64]; 32];
    for &(row, col) in walls {
        level[row][col] = WALL_TILE;
    }
    level
}

#[test]
fn sprite_starts_on_a_tile_corner() {
    assert_eq!((START_X, START_Y), (104, 64));
    assert_eq!(START_X % 8, 0);
    assert_eq!(START_Y % 8, 0);
    assert_eq!(WALKABLE_TILE, 5);
    assert_eq!(WALL_TILE, 1);
}

#[test]
fn open_ground_blocks_nowhere() {
    let map = open_map();
    assert!(!path_right_blocked((0, 0), map));
    assert!(!path_left_blocked((0, 0), map));
    assert!(!path_up_blocked((0, 0), map));
    assert!(!path_down_blocked((0, 0), map));
}

#[test]
fn right_probe_reads_three_cells_three_tiles_ahead() {
    for row in [9, 10, 11] {
        assert!(path_right_blocked((0, 0), map_with(&[(row, 16)])));
    }
    for cell in [(8, 16), (12, 16), (9, 15), (9, 17), (10, 13)] {
        assert!(!path_right_blocked((0, 0), map_with(&[cell])));
    }
    assert!(path_right_blocked((8, 0), map_with(&[(10, 17)])));
    assert!(!path_right_blocked((8, 0), map_with(&[(10, 16)])));
    assert!(path_right_blocked((0, 16), map_with(&[(13, 16)])));
}

#[test]
fn left_probe_reads_three_cells_in_the_sprite_column() {
    for row in [9, 10, 11] {
        assert!(path_left_blocked((0, 0), map_with(&[(row, 13)])));
    }
    for cell in [(8, 13), (12, 13), (9, 12), (9, 14), (9, 16)] {
        assert!(!path_left_blocked((0, 0), map_with(&[cell])));
    }
    assert!(path_left_blocked((-8, 0), map_with(&[(11, 12)])));
}

#[test]
fn up_probe_reads_three_cells_in_the_sprite_row() {
    for col in [14, 15, 16] {
        assert!(path_up_blocked((0, 0), map_with(&[(8, col)])));
    }
    for cell in [(8, 13), (8, 17), (7, 14), (9, 14), (11, 15)] {
        assert!(!path_up_blocked((0, 0), map_with(&[cell])));
    }
    assert!(path_up_blocked((0, -8), map_with(&[(7, 16)])));
}

#[test]
fn down_probe_reads_three_cells_three_tiles_below() {
    for col in [14, 15, 16] {
        assert!(path_down_blocked((0, 0), map_with(&[(11, col)])));
    }
    for cell in [(11, 13), (11, 17), (10, 14), (12, 14), (8, 15)] {
        assert!(!path_down_blocked((0, 0), map_with(&[cell])));
    }
    assert!(path_down_blocked((8, 8), map_with(&[(12, 17)])));
}

#[test]
fn between_tile_boundaries_nothing_blocks() {
    let walls = [[0usize; 32]; 32];
    for off in 1..8 {
        assert!(!path_right_blocked((off, 0), walls));
        assert!(!path_left_blocked((-off, 0), walls));
        assert!(!path_up_blocked((0, -off), walls));
        assert!(!path_down_blocked((0, off), walls));
    }
    assert!(path_right_blocked((8, 0), walls));
    assert!(path_left_blocked((-8, 0), walls));
    assert!(path_up_blocked((0, -8), walls));
    assert!(path_down_blocked((0, 8), walls));
}

#[test]
fn unaligned_cross_offset_rounds_towards_the_origin() {
    // Four pixels above the map's top edge count as tile zero, not as tile
    // minus one: the cells read are rows one to three.
    assert!(path_right_blocked((0, -68), map_with(&[(3, 16)])));
    assert!(!path_right_blocked((0, -68), map_with(&[(0, 16)])));
    assert!(path_down_blocked((-108, 0), map_with(&[(11, 3)])));
    assert!(!path_down_blocked((-108, 0), map_with(&[(11, 0)])));
    // Inside the map the offset rounds down.
    assert!(path_right_blocked((0, 7), map_with(&[(9, 16)])));
    assert!(!path_right_blocked((0, 7), map_with(&[(12, 16)])));
}

#[test]
fn probe_stops_at_the_first_obstacle() {
    // Rows 30, 31 and 32 would be read; the obstacle in row 30 ends the probe
    // before it leaves the map.
    let map = map_with(&[(30, 16)]);
    assert!(sideways_probe_in_map((0, 168), &map, 3));
    assert!(path_right_blocked((0, 168), map));
    assert!(!sideways_probe_in_map((0, 168), &open_map(), 3));
    let map = map_with(&[(11, 31)]);
    assert!(upright_probe_in_map((128, 0), &map, 3));
    assert!(path_down_blocked((128, 0), map));
    assert!(!upright_probe_in_map((128, 0), &open_map(), 3));
}

#[test]
fn probes_know_the_edges_of_the_map() {
    let map = open_map();
    assert!(sideways_probe_in_map((0, 0), &map, 3));
    assert!(sideways_probe_in_map((0, 0), &map, 0));
    assert!(sideways_probe_in_map((120, 160), &map, 3));
    assert!(!sideways_probe_in_map((128, 0), &map, 3));
    assert!(sideways_probe_in_map((128, 0), &map, 0));
    assert!(!sideways_probe_in_map((-112, 0), &map, 0));
    assert!(sideways_probe_in_map((-104, 0), &map, 0));
    assert!(!sideways_probe_in_map((0, -80), &map, 3));
    assert!(sideways_probe_in_map((0, -79), &map, 3));
    assert!(!sideways_probe_in_map((i16::MAX, 0), &map, 3));
    assert!(!sideways_probe_in_map((0, i16::MAX), &map, 3));
    assert!(sideways_probe_in_map((1, i16::MAX), &map, 3));
    assert!(sideways_probe_in_map((0, 0), &map, 18));
    assert!(!sideways_probe_in_map((0, 0), &map, 19));
    assert!(sideways_probe_in_map((0, 0), &map, -13));
    assert!(!sideways_probe_in_map((0, 0), &map, -14));
    assert!(!sideways_probe_in_map((0, 0), &map, i16::MAX));
    assert!(!sideways_probe_in_map((0, 0), &map, i16::MIN));
    assert!(upright_probe_in_map((0, 0), &map, 3));
    assert!(upright_probe_in_map((0, 0), &map, 23));
    assert!(!upright_probe_in_map((0, 0), &map, 24));
    assert!(upright_probe_in_map((0, 0), &map, -8));
    assert!(!upright_probe_in_map((0, 0), &map, -9));
    assert!(!upright_probe_in_map((0, 168), &map, 3));
    assert!(upright_probe_in_map((0, 168), &map, 0));
    assert!(!upright_probe_in_map((0, i16::MAX), &map, 0));
    assert!(upright_probe_in_map((i16::MAX, 1), &map, 0));
    assert!(!upright_probe_in_map((i16::MAX, 0), &map, 0));
}

#[test]
fn boundary_reads_four_cells_around_the_sprite() {
    assert!(!check_boundary((0, 0), level_with(&[])));
    for cell in [(10, 15), (10, 14), (12, 15), (8, 15)] {
        assert!(check_boundary((0, 0), level_with(&[cell])));
    }
    for cell in [(9, 15), (11, 15), (10, 16), (10, 13), (12, 14), (8, 14)] {
        assert!(!check_boundary((0, 0), level_with(&[cell])));
    }
    assert!(check_boundary((8, 16), level_with(&[(12, 16)])));
    assert!(check_boundary((8, 16), level_with(&[(12, 15)])));
    assert!(check_boundary((8, 16), level_with(&[(14, 16)])));
    assert!(check_boundary((8, 16), level_with(&[(10, 16)])));
    assert!(!check_boundary((8, 16), level_with(&[(10, 15)])));
}

#[test]
fn boundary_counts_only_walls() {
    let mut level = [[5usize; 64]; 32];
    assert!(!check_boundary((0, 0), level));
    level[10][14] = 2;
    assert!(!check_boundary((0, 0), level));
    level[10][14] = 1;
    assert!(check_boundary((0, 0), level));
}

#[test]
fn boundary_rounds_scroll_towards_zero() {
    let level = level_with(&[(10, 15)]);
    assert!(check_boundary((7, 7), level));
    assert!(check_boundary((-7, -7), level));
    assert!(!check_boundary((8, 0), level_with(&[(8, 15)])));
    assert!(check_boundary((-8, -8), level_with(&[(9, 14)])));
    assert!(!check_boundary((-7, -7), level_with(&[(9, 14)])));
}

#[test]
fn boundary_knows_the_edges_of_the_level() {
    assert!(boundary_in_level((0, 0)));
    assert!(boundary_in_level((0, -64)));
    assert!(boundary_in_level((0, -71)));
    assert!(!boundary_in_level((0, -72)));
    assert!(boundary_in_level((0, 159)));
    assert!(!boundary_in_level((0, 160)));
    assert!(boundary_in_level((-112, 0)));
    assert!(boundary_in_level((-119, 0)));
    assert!(!boundary_in_level((-120, 0)));
    assert!(boundary_in_level((391, 0)));
    assert!(!boundary_in_level((392, 0)));
    assert!(!boundary_in_level((i16::MIN, i16::MAX)));
}

#[test]
fn boundary_reads_the_corners_of_the_level() {
    assert!(check_boundary((-112, -64), level_with(&[(0, 1)])));
    assert!(check_boundary((-112, -64), level_with(&[(2, 0)])));
    assert!(check_boundary((391, 159), level_with(&[(31, 63)])));
    assert!(check_boundary((391, 159), level_with(&[(29, 62)])));
}

#[test]
fn scroll_moves_one_pixel_where_nothing_blocks() {
    let map = open_map();
    assert_eq!(scroll_step((0, 0), Tri::Positive, Tri::Zero, map), Some((1, 0)));
    assert_eq!(scroll_step((0, 0), Tri::Negative, Tri::Zero, map), Some((-1, 0)));
    assert_eq!(scroll_step((0, 0), Tri::Zero, Tri::Positive, map), Some((0, 1)));
    assert_eq!(scroll_step((0, 0), Tri::Zero, Tri::Negative, map), Some((0, -1)));
    assert_eq!(scroll_step((7, 7), Tri::Positive, Tri::Positive, map), Some((8, 8)));
    assert_eq!(scroll_step((5, 5), Tri::Negative, Tri::Negative, map), Some((4, 4)));
}

#[test]
fn scroll_rests_while_the_pad_rests() {
    assert_eq!(scroll_step((3, -4), Tri::Zero, Tri::Zero, open_map()), Some((3, -4)));
    assert_eq!(
        scroll_step((i16::MAX, i16::MIN), Tri::Zero, Tri::Zero, open_map()),
        Some((i16::MAX, i16::MIN))
    );
}

#[test]
fn scroll_stops_at_obstacles() {
    assert_eq!(scroll_step((7, 0), Tri::Positive, Tri::Zero, map_with(&[(10, 17)])), Some((7, 0)));
    assert_eq!(scroll_step((9, 0), Tri::Negative, Tri::Zero, map_with(&[(9, 14)])), Some((9, 0)));
    assert_eq!(scroll_step((0, 7), Tri::Zero, Tri::Positive, map_with(&[(12, 15)])), Some((0, 7)));
    assert_eq!(scroll_step((0, 9), Tri::Zero, Tri::Negative, map_with(&[(9, 14)])), Some((0, 9)));
    // The same obstacles let the other direction pass.
    assert_eq!(scroll_step((9, 0), Tri::Negative, Tri::Zero, map_with(&[(10, 17)])), Some((8, 0)));
    assert_eq!(scroll_step((7, 0), Tri::Positive, Tri::Zero, map_with(&[(9, 14)])), Some((8, 0)));
}

#[test]
fn scroll_probes_upright_from_the_new_column() {
    // The downward probe from x = 8 reads columns 15 to 17, from x = 7
    // columns 14 to 16.
    let map = map_with(&[(12, 17)]);
    assert_eq!(scroll_step((7, 7), Tri::Positive, Tri::Positive, map), Some((8, 7)));
    assert_eq!(scroll_step((7, 7), Tri::Zero, Tri::Positive, map), Some((7, 8)));
    let map = map_with(&[(12, 14)]);
    assert_eq!(scroll_step((7, 7), Tri::Positive, Tri::Positive, map), Some((8, 8)));
    assert_eq!(scroll_step((7, 7), Tri::Zero, Tri::Positive, map), Some((7, 7)));
}

#[test]
fn scroll_refuses_steps_off_the_map() {
    let map = open_map();
    assert_eq!(scroll_step((127, 0), Tri::Positive, Tri::Zero, map), None);
    assert_eq!(scroll_step((126, 0), Tri::Positive, Tri::Zero, map), Some((127, 0)));
    assert_eq!(scroll_step((-111, 0), Tri::Negative, Tri::Zero, map), None);
    assert_eq!(scroll_step((0, 161), Tri::Zero, Tri::Negative, map), Some((0, 160)));
    assert_eq!(scroll_step((0, 167), Tri::Zero, Tri::Positive, map), None);
    assert_eq!(scroll_step((i16::MAX, 0), Tri::Positive, Tri::Zero, map), None);
    assert_eq!(scroll_step((i16::MIN, 0), Tri::Negative, Tri::Zero, map), None);
    assert_eq!(scroll_step((0, i16::MAX), Tri::Zero, Tri::Positive, map), None);
    assert_eq!(scroll_step((0, i16::MIN), Tri::Zero, Tri::Negative, map), None);
}

#[test]
fn bounded_scroll_moves_along_both_axes_at_once() {
    let level = level_with(&[]);
    assert_eq!(bounded_scroll((0, 0), Tri::Positive, Tri::Negative, level), Some((1, -1)));
    assert_eq!(bounded_scroll((0, 0), Tri::Negative, Tri::Positive, level), Some((-1, 1)));
    assert_eq!(bounded_scroll((4, 4), Tri::Zero, Tri::Zero, level), Some((4, 4)));
    assert_eq!(bounded_scroll((4, 4), Tri::Zero, Tri::Positive, level), Some((4, 5)));
}

#[test]
fn bounded_scroll_stays_where_a_wall_is_near() {
    let level = level_with(&[(10, 16)]);
    assert_eq!(bounded_scroll((7, 0), Tri::Positive, Tri::Zero, level), Some((7, 0)));
    assert_eq!(bounded_scroll((6, 0), Tri::Positive, Tri::Zero, level), Some((7, 0)));
    assert_eq!(bounded_scroll((7, 3), Tri::Positive, Tri::Positive, level), Some((7, 3)));
    // Next to a wall already, the sprite can still back off.
    assert_eq!(bounded_scroll((8, 0), Tri::Negative, Tri::Zero, level), Some((7, 0)));
    assert_eq!(bounded_scroll((8, 0), Tri::Zero, Tri::Zero, level), Some((8, 0)));
}

#[test]
fn bounded_scroll_refuses_steps_off_the_level() {
    let level = level_with(&[]);
    assert_eq!(bounded_scroll((391, 0), Tri::Positive, Tri::Zero, level), None);
    assert_eq!(bounded_scroll((390, 0), Tri::Positive, Tri::Zero, level), Some((391, 0)));
    assert_eq!(bounded_scroll((392, 0), Tri::Zero, Tri::Zero, level), None);
    assert_eq!(bounded_scroll((0, -71), Tri::Zero, Tri::Negative, level), None);
    assert_eq!(bounded_scroll((i16::MAX, 0), Tri::Positive, Tri::Zero, level), None);
    assert_eq!(bounded_scroll((0, i16::MIN), Tri::Zero, Tri::Negative, level), None);
}
