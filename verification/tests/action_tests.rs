use shipwrecked::actions::{try_action, ActionResult};
use shipwrecked::inventory::{Inventory, Item};
use shipwrecked::objects::ObjectPlacement;
use shipwrecked::player::{facing_tile, Facing};
use shipwrecked::world::{World, MAP_BYTES};
use std::collections::HashSet;

fn create_dummy_world() -> World {
    World {
        full: vec![0; MAP_BYTES],
        borders: vec![0; MAP_BYTES],
        decor: vec![None; MAP_BYTES],
        objects: vec![None; MAP_BYTES],
        rocks: vec![0; MAP_BYTES],
        original_full: vec![0; MAP_BYTES],
        original_borders: vec![0; MAP_BYTES],
        tide_low: false,
        tide_rising: false,
        player_built: HashSet::new(),
    }
}

/// The tile in front of a player who has just spawned at (8, 148).
fn player_facing() -> (i32, i32) {
    facing_tile((8, 148), Facing::South)
}

fn decor_on_target(world: &mut World, key: &'static str) -> usize {
    let target_idx = World::index(8, 149).unwrap();
    world.decor[target_idx] = Some(ObjectPlacement {
        key,
        stage: 0,
        built: false,
    });
    target_idx
}

fn assert_decor_harvest(key: &'static str, item: Item) {
    let mut world = create_dummy_world();
    let mut inv = Inventory::default();
    let target_idx = decor_on_target(&mut world, key);

    let res: ActionResult = try_action(player_facing(), &mut world, &mut inv).unwrap();
    assert_eq!(res.item, item);
    assert_eq!(res.count, 1);
    assert!(world.decor[target_idx].is_none());
    assert_eq!(inv.count(item), 1);
}

#[test]
fn test_do_not_harvest_rocks_layer() {
    for rock_id in [7, 21, 36, 37, 44, 48, 50, 51, 52, 62] {
        let mut world = create_dummy_world();
        let mut inv = Inventory::default();

        let target_idx = World::index(8, 149).unwrap();
        world.rocks[target_idx] = rock_id;

        let res = try_action(player_facing(), &mut world, &mut inv);
        assert!(res.is_none(), "rock {rock_id} should not be consumable");
        assert_eq!(world.rocks[target_idx], rock_id);
        assert!(inv.is_empty());
    }
}

#[test]
fn test_harvest_gray_fish_from_objects() {
    let mut world = create_dummy_world();
    let mut inv = Inventory::default();

    let target_idx = World::index(8, 149).unwrap();
    world.place_object_key(8, 149, "gray_fish", false);

    let res = try_action(player_facing(), &mut world, &mut inv).unwrap();
    assert_eq!(res.item, Item::GrayFish);
    assert_eq!(res.count, 1);
    assert!(world.objects[target_idx].is_none());
    assert_eq!(inv.count(Item::GrayFish), 1);
}

#[test]
fn test_do_not_harvest_dummi_marker_from_objects() {
    let mut world = create_dummy_world();
    let mut inv = Inventory::default();

    let target_idx = World::index(8, 149).unwrap();
    world.place_object_key(8, 149, "dummi_marker", false);

    let res = try_action(player_facing(), &mut world, &mut inv);
    assert!(res.is_none());
    assert!(world.objects[target_idx].is_some());
    assert!(inv.is_empty());
}

#[test]
fn test_harvest_plank_from_decor() {
    assert_decor_harvest("plank_debris", Item::Plank);
}

#[test]
fn test_harvest_log_from_decor() {
    assert_decor_harvest("log_debris", Item::Log);
}

#[test]
fn test_do_not_harvest_tree_from_decor() {
    let mut world = create_dummy_world();
    let mut inv = Inventory::default();
    let target_idx = decor_on_target(&mut world, "tree_stump");

    let res = try_action(player_facing(), &mut world, &mut inv);
    assert!(res.is_none());
    assert!(world.decor[target_idx].is_some());
    assert!(inv.is_empty());
}

#[test]
fn test_harvest_log_stump_from_decor() {
    assert_decor_harvest("stump_log_debris", Item::Log);
}

#[test]
fn test_harvest_plank_debris_from_decor() {
    assert_decor_harvest("plank_wreckage", Item::Plank);
}

#[test]
fn test_harvest_moss_debris_from_decor() {
    assert_decor_harvest("moss_debris", Item::Moss);
}

#[test]
fn test_harvest_sail_debris_from_decor() {
    assert_decor_harvest("sail_wreckage", Item::Sail);
}

#[test]
fn test_harvest_barrel_debris_from_decor() {
    assert_decor_harvest("barrel_wreckage", Item::Barrel);
}

#[test]
fn test_harvest_shell_debris_from_decor() {
    assert_decor_harvest("conch_debris", Item::Conch);
}

#[test]
fn test_do_not_harvest_scenery_from_decor() {
    for decor_key in [
        "palm_tree",
        "broad_palm",
        "fallen_palm",
        "young_palm",
        "leaning_palm",
        "decor_028",
        "decor_031",
        "decor_032",
        "cliff_edge",
    ] {
        let mut world = create_dummy_world();
        let mut inv = Inventory::default();
        let target_idx = decor_on_target(&mut world, decor_key);

        let res = try_action(player_facing(), &mut world, &mut inv);
        assert!(res.is_none(), "decor {decor_key} should not be consumable");
        assert!(world.decor[target_idx].is_some());
        assert!(inv.is_empty());
    }
}

#[test]
fn harvesting_twice_finds_nothing_the_second_time() {
    let mut world = create_dummy_world();
    let mut inv = Inventory::default();
    decor_on_target(&mut world, "log_debris");

    assert!(try_action(player_facing(), &mut world, &mut inv).is_some());
    assert!(try_action(player_facing(), &mut world, &mut inv).is_none());
    assert_eq!(inv.count(Item::Log), 1);
}

#[test]
fn objects_are_harvested_before_decor_on_the_same_tile() {
    let mut world = create_dummy_world();
    let mut inv = Inventory::default();
    let target_idx = decor_on_target(&mut world, "log_debris");
    world.place_object_key(8, 149, "gray_fish", false);

    let res = try_action(player_facing(), &mut world, &mut inv).unwrap();
    assert_eq!(res.item, Item::GrayFish);
    assert!(world.decor[target_idx].is_some());
    assert_eq!(inv.count(Item::Log), 0);
}

#[test]
fn acting_off_the_map_does_nothing() {
    let mut world = create_dummy_world();
    let mut inv = Inventory::default();
    assert!(try_action((-1, 0), &mut world, &mut inv).is_none());
    assert!(inv.is_empty());
}
