use shipwrecked::world::{all_player_walkable, any_tide_flooded};
use shipwrecked::actions::{
    find_coconut_drop_tile, move_player_out_of_placed_tile, placement_target_tile,
};
use shipwrecked::inventory::Item;
use shipwrecked::objects::ObjectPlacement;
use shipwrecked::world::{
    classify_terrain, tide_border_byte, tide_full_byte, Terrain, TideStage, World, MAP_BYTES,
    MAP_H, MAP_W,
};
use std::collections::HashSet;

fn tiny_world(full_byte: u8) -> World {
    let mut full = vec![0; MAP_BYTES];
    full[0] = full_byte;
    World {
        full: full.clone(),
        borders: vec![0; MAP_BYTES],
        decor: vec![None; MAP_BYTES],
        objects: vec![None; MAP_BYTES],
        rocks: vec![0; MAP_BYTES],
        original_full: full,
        original_borders: vec![0; MAP_BYTES],
        tide_low: false,
        tide_rising: false,
        player_built: HashSet::new(),
    }
}

#[test]
fn tide_shallows_are_player_walkable_only_while_rising() {
    let mut world = tiny_world(4);

    assert!(world.is_tide_flooded(0, 0));
    assert!(!world.walkable(0, 0));
    assert!(!world.walkable_for_player(0, 0));

    world.tide_rising = true;

    assert!(world.walkable_for_player(0, 0));
    assert!(!world.walkable(0, 0));
}

#[test]
fn tide_stages_dry_the_shallows_band_by_band() {
    assert_eq!(tide_full_byte(4, TideStage::High), 4);
    assert_eq!(tide_full_byte(4, TideStage::Mid), 0);
    assert_eq!(tide_full_byte(5, TideStage::Mid), 4);
    assert_eq!(tide_full_byte(6, TideStage::Mid), 6);
    assert_eq!(tide_full_byte(6, TideStage::Low), 5);
    assert_eq!(tide_full_byte(14, TideStage::Low), 14);
    assert_eq!(tide_border_byte(22, TideStage::Mid), 22);
    assert_eq!(tide_border_byte(22, TideStage::Low), 19);
    assert_eq!(tide_border_byte(17, TideStage::Mid), 5);
    assert_eq!(tide_border_byte(9, TideStage::Low), 9);
}

#[test]
fn low_tide_uncovers_a_shallow_tile_and_high_tide_restores_it() {
    let mut world = tiny_world(4);
    assert!(world.set_tide_target(true));
    assert!(!world.set_tide_target(true));
    world.apply_tide_stage(TideStage::Low);
    assert_eq!(world.full[0], 0);
    assert!(world.walkable(0, 0));
    assert!(!world.is_tide_flooded(0, 0));

    world.apply_tide_stage(TideStage::High);
    assert_eq!(world.full[0], 4);
    assert!(!world.walkable(0, 0));
}

#[test]
fn terrain_bytes_classify_as_documented() {
    assert_eq!(classify_terrain(0), Terrain::Sand);
    assert_eq!(classify_terrain(9), Terrain::Grass);
    assert_eq!(classify_terrain(7), Terrain::Dirt);
    assert_eq!(classify_terrain(11), Terrain::Forest);
    assert_eq!(classify_terrain(5), Terrain::ShallowWater);
    assert_eq!(classify_terrain(13), Terrain::LilyWater);
    assert_eq!(classify_terrain(14), Terrain::DeepWater);
    assert_eq!(classify_terrain(16), Terrain::Empty);
    assert!(Terrain::Sand.walkable());
    assert!(!Terrain::DeepWater.walkable());
    assert!(!Terrain::ShallowWater.walkable());
    assert!(!Terrain::LilyWater.walkable());
    assert!(Terrain::Empty.walkable());
}

#[test]
fn animals_and_markers_never_block_the_tile() {
    let mut world = tiny_world(0);
    for (x, key) in [(20, "spawn_marker"), (21, "dummi_marker"), (22, "raft_marker"), (23, "animal_crab")] {
        assert!(world.place_object_key(x, 30, key, false));
        assert!(world.walkable(x, 30));
    }
    assert!(world.place_object_key(24, 30, "tent", false));
    assert!(!world.walkable(24, 30));
}

#[test]
fn repeated_tide_target_reports_no_change() {
    let mut world = tiny_world(0);
    assert!(!world.set_tide_target(false));
    assert!(world.set_tide_target(true));
    assert!(!world.set_tide_target(true));
    assert!(world.set_tide_target(false));
    assert!(!world.set_tide_target(false));
}

#[test]
fn tile_index_is_row_major_and_bounded() {
    assert_eq!(World::index(0, 0), Some(0));
    assert_eq!(World::index(3, 2), Some(2 * MAP_W + 3));
    assert_eq!(World::index(MAP_W as i32 - 1, MAP_H as i32 - 1), Some(MAP_BYTES - 1));
    assert_eq!(World::index(-1, 0), None);
    assert_eq!(World::index(0, MAP_H as i32), None);
}

#[test]
fn blocking_rocks_block_and_others_do_not() {
    let mut world = tiny_world(0);
    let idx = World::index(5, 5).unwrap();
    world.rocks[idx] = 7;
    assert!(world.has_rock(5, 5));
    assert!(!world.walkable(5, 5));
    world.rocks[idx] = 10;
    assert!(!world.has_rock(5, 5));
    world.rocks[idx] = 50;
    assert!(!world.has_rock(5, 5));
    assert!(world.walkable(5, 5));
    assert_eq!(world.consume_rock(5, 5), None);
    assert_eq!(world.rocks[idx], 50);
}

#[test]
fn placed_objects_are_found_and_unknown_keys_refused() {
    let mut world = tiny_world(0);
    assert!(world.place_object_key(10, 11, "tent", true));
    let placed = world.object_at(10, 11).unwrap();
    assert_eq!(placed.key, "tent");
    assert!(placed.built);
    assert!(world.player_built.contains(&World::index(10, 11).unwrap()));

    assert!(!world.place_object_key(10, 12, "no_such_key", false));
    assert!(world.object_at(10, 12).is_none());
    assert!(!world.place_object_key(-3, 12, "tent", false));
}

#[test]
fn structures_are_found_within_the_radius_only() {
    let mut world = tiny_world(0);
    assert!(world.place_object_key(20, 20, "tent", true));
    assert!(world.has_structure_near(22, 21, Item::Tent, 2));
    assert!(!world.has_structure_near(23, 20, Item::Tent, 2));
    assert!(!world.has_structure_near(20, 20, Item::Tent, -1));
    assert!(!world.has_structure_near(20, 20, Item::Stone, 3));
}

#[test]
fn spawn_tile_is_the_beach_start() {
    let world = tiny_world(0);
    assert_eq!(world.spawn_tile(), (8, 148));
}

#[test]
fn camp_home_placement_can_target_current_reserved_tile() {
    let current = (24, 130);
    let facing = (24, 131);
    assert_eq!(placement_target_tile(Item::Tent, current, facing, true, false), (24, 130));
    assert_eq!(placement_target_tile(Item::Cabin, current, facing, true, false), (24, 130));
}

#[test]
fn normal_placement_still_targets_facing_tile() {
    let current = (24, 130);
    let facing = (24, 131);
    assert_eq!(placement_target_tile(Item::Fire, current, facing, true, false), (24, 131));
    assert_eq!(placement_target_tile(Item::Tent, current, facing, true, true), (24, 131));
    assert_eq!(placement_target_tile(Item::Tent, current, facing, false, false), (24, 131));
}

#[test]
fn placing_on_current_tile_moves_player_to_clear_neighbor() {
    let mut world = tiny_world(0);
    world.place_object_key(24, 130, "tent", true);
    let moved = move_player_out_of_placed_tile(&world, (24, 130), (24, 130)).unwrap();

    assert_ne!(moved, (24, 130));
    assert!(world.walkable_for_player(moved.0, moved.1));
    assert_eq!(moved, (24, 131));
}

#[test]
fn placing_elsewhere_leaves_the_player_alone() {
    let world = tiny_world(0);
    assert_eq!(move_player_out_of_placed_tile(&world, (24, 130), (24, 131)), None);
}

#[test]
fn player_escapes_to_the_next_free_neighbour() {
    let mut world = tiny_world(0);
    world.place_object_key(24, 130, "tent", true);
    // Deep water south of the tent, so the east tile comes next.
    world.full[World::index(24, 131).unwrap()] = 14;
    let moved = move_player_out_of_placed_tile(&world, (24, 130), (24, 130)).unwrap();
    assert_eq!(moved, (25, 130));
}

#[test]
fn coconuts_fall_on_the_first_free_tile() {
    let mut world = tiny_world(0);
    assert_eq!(find_coconut_drop_tile(&world, 30, 30), Some((30, 31)));
    world.objects[World::index(30, 31).unwrap()] = Some(ObjectPlacement {
        key: "coconut",
        stage: 0,
        built: false,
    });
    assert_eq!(find_coconut_drop_tile(&world, 30, 30), Some((31, 30)));
}

#[test]
fn corner_tiles_decide_walking_and_tide_exposure() {
    let mut world = tiny_world(4);
    assert!(!all_player_walkable(&world, &[(0, 0), (1, 0)]));
    assert!(all_player_walkable(&world, &[(1, 0), (1, 1)]));
    assert!(any_tide_flooded(&world, &[(1, 1), (0, 0)]));
    assert!(!any_tide_flooded(&world, &[(1, 1)]));
    world.tide_rising = true;
    assert!(all_player_walkable(&world, &[(0, 0), (1, 0)]));
}
