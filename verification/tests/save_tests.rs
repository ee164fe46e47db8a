use shipwrecked::objects::ObjectPlacement;
use shipwrecked::save::{
    apply_placements, placements_to_save, save_version_supported, PlacementSave, ProgressState,
    TerminalState, WorldSave, SAVE_VERSION,
};
use shipwrecked::inventory::{Inventory, Item};
use shipwrecked::player::{Facing, Outfit};
use shipwrecked::save::{AnimalRecord, AnimalSave, SaveData};
use shipwrecked::world::{World, MAP_BYTES};
use std::collections::HashSet;

fn empty_world() -> World {
    World {
        full: vec![0; MAP_BYTES],
        borders: vec![0; MAP_BYTES],
        decor: vec![None; MAP_BYTES],
        objects: vec![None; MAP_BYTES],
        rocks: vec![0; MAP_BYTES],
        original_full: vec![0; MAP_BYTES],
        original_borders: vec![0; MAP_BYTES],
        tide_low: false,
        tide_rising: false,
        player_built: HashSet::new(),
    }
}

fn contents(layer: &[Option<ObjectPlacement>]) -> Vec<Option<(&'static str, u8, bool)>> {
    layer.iter().map(|p| p.map(|p| (p.key, p.stage, p.built))).collect()
}

#[test]
fn world_snapshot_round_trips() {
    let mut world = empty_world();
    assert!(world.place_object_key(12, 42, "raft", true));
    assert!(world.place_object_key(3, 4, "palm_tree", false));
    world.decor[77] = Some(ObjectPlacement { key: "log_debris", stage: 1, built: false });
    world.rocks[5] = 21;

    let snap = WorldSave::from_world(&world);
    assert_eq!(snap.objects.len(), 2);
    assert_eq!(snap.decor.len(), 1);
    assert_eq!(snap.rocks, vec![(5, 21)]);
    assert_eq!(snap.player_built, vec![World::index(12, 42).unwrap()]);

    let mut other = empty_world();
    other.objects[9] = Some(ObjectPlacement { key: "tent", stage: 0, built: true });
    other.rocks[6] = 7;
    other.player_built.insert(9);
    snap.apply_to_world(&mut other);

    assert_eq!(contents(&other.objects), contents(&world.objects));
    assert_eq!(contents(&other.decor), contents(&world.decor));
    assert_eq!(other.rocks, world.rocks);
    assert_eq!(other.player_built, world.player_built);
}

#[test]
fn placements_are_saved_in_tile_order() {
    let mut layer = vec![None; 10];
    layer[7] = Some(ObjectPlacement { key: "tent", stage: 2, built: true });
    layer[2] = Some(ObjectPlacement { key: "fire", stage: 0, built: false });
    let saved = placements_to_save(&layer);
    assert_eq!(saved.len(), 2);
    assert_eq!((saved[0].index, saved[0].key.as_str(), saved[0].stage, saved[0].built), (2, "fire", 0, false));
    assert_eq!((saved[1].index, saved[1].key.as_str(), saved[1].stage, saved[1].built), (7, "tent", 2, true));
}

#[test]
fn unknown_or_misplaced_saved_entries_are_skipped() {
    let mut layer = vec![None; 10];
    let saved = vec![
        PlacementSave { index: 1, key: "no_such_thing".to_string(), stage: 0, built: false },
        PlacementSave { index: 99, key: "tent".to_string(), stage: 0, built: false },
        PlacementSave { index: 3, key: "tent".to_string(), stage: 4, built: true },
    ];
    apply_placements(&mut layer, &saved);
    assert!(layer[1].is_none());
    assert_eq!(layer.iter().filter(|p| p.is_some()).count(), 1);
    let tent = layer[3].unwrap();
    assert_eq!((tent.key, tent.stage, tent.built), ("tent", 4, true));
}

#[test]
fn progress_flags_are_recorded_once() {
    let mut progress = ProgressState::new();
    assert!(!progress.has_tutorial_flag("marker_50_intro"));
    assert!(progress.insert_tutorial_flag("marker_50_intro"));
    assert!(!progress.insert_tutorial_flag("marker_50_intro"));
    assert!(progress.has_tutorial_flag("marker_50_intro"));
    assert_eq!(progress.tutorial_flags.len(), 1);

    assert!(progress.insert_help_topic("fishing"));
    assert!(!progress.insert_help_topic("fishing"));
    assert!(progress.has_help_topic("fishing"));
    assert!(!progress.has_tutorial_flag("fishing"));

    let fresh = ProgressState::default();
    assert!(!fresh.raft_repaired && fresh.fish_caught == 0);
}

#[test]
fn only_the_current_save_version_is_read() {
    assert_eq!(SAVE_VERSION, 2);
    assert!(save_version_supported(2));
    assert!(!save_version_supported(1));
    assert!(!save_version_supported(3));
}

#[test]
fn a_game_starts_running() {
    assert_eq!(TerminalState::default(), TerminalState::Running);
}

#[test]
fn game_save_round_trips_everything_but_floats() {

    let mut world = empty_world();
    assert!(world.place_object_key(12, 42, "raft", true));
    world.rocks[8] = 3;
    world.tide_low = true;
    let mut inventory = Inventory::new();
    inventory.add(Item::Stone, 4);
    inventory.add(Item::Coconut, 2);
    inventory.store_one(Item::Coconut);
    let mut progress = ProgressState::new();
    progress.insert_tutorial_flag("intro");
    progress.insert_help_topic("fishing");
    progress.fish_caught = 3;
    progress.raft_repaired = true;
    let outfit = Outfit { hat: Some(Item::Hide), jacket: None, pants: None, shoes: Some(Item::Fur) };
    let animals = vec![
        AnimalRecord { key: "animal_crab", drop: Item::Crab, sprite: 40 },
        AnimalRecord { key: "animal_boa", drop: Item::Boa, sprite: 46 },
    ];
    let terminal = TerminalState::GameOver { reason: "Drowned.".to_owned() };

    let mut data = SaveData::from_game(
        Facing::West, true, outfit, 7, &inventory, &world, &progress, &animals, &terminal,
    );
    assert_eq!(data.version, SAVE_VERSION);
    assert_eq!(data.level, "island");
    assert_eq!(data.animals.len(), 2);
    data.animals.push(AnimalSave { key: "no_such_animal".to_owned(), drop: Item::Crab, sprite: 1 });

    let mut facing = Facing::North;
    let mut sleeping = false;
    let mut outfit2 = Outfit::new();
    let mut day = 1;
    let mut inventory2 = Inventory::new();
    inventory2.add(Item::Log, 9);
    let mut world2 = empty_world();
    world2.rocks[2] = 5;
    let mut progress2 = ProgressState::new();
    let mut restored = Vec::new();
    let terminal2 = data.apply_to_game(
        &mut facing, &mut sleeping, &mut outfit2, &mut day, &mut inventory2, &mut world2,
        &mut progress2, &mut restored,
    );

    assert_eq!(facing, Facing::West);
    assert!(sleeping);
    assert_eq!(outfit2, outfit);
    assert_eq!(day, 7);
    assert_eq!(inventory2.count(Item::Stone), 4);
    assert_eq!(inventory2.count(Item::Coconut), 1);
    assert_eq!(inventory2.chest_count(Item::Coconut), 1);
    assert_eq!(inventory2.count(Item::Log), 0);
    assert_eq!(contents(&world2.objects), contents(&world.objects));
    assert_eq!(world2.rocks, world.rocks);
    assert_eq!(world2.player_built, world.player_built);
    assert!(world2.tide_low);
    assert!(progress2.has_tutorial_flag("intro"));
    assert!(progress2.has_help_topic("fishing"));
    assert_eq!(progress2.fish_caught, 3);
    assert!(progress2.raft_repaired);
    assert_eq!(terminal2, terminal);
    let got: Vec<(usize, &str, Item, u32)> =
        restored.iter().map(|&(i, a)| (i, a.key, a.drop, a.sprite)).collect();
    assert_eq!(got, vec![(0, "animal_crab", Item::Crab, 40), (1, "animal_boa", Item::Boa, 46)]);
}
