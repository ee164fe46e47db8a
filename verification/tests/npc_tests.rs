use shipwrecked::inventory::Item;
use shipwrecked::npc::{
    animal_animation_frames, animal_examine_text, animal_sprite, direct_interaction_text,
    is_dangerous_animal, is_fleeing_bird, take_animal_spawns, Facing,
};
use shipwrecked::world::{World, MAP_BYTES, MAP_W};
use std::collections::HashSet;

fn empty_world() -> World {
    World {
        full: vec![0; MAP_BYTES],
        borders: vec![0; MAP_BYTES],
        decor: vec![None; MAP_BYTES],
        objects: vec![None; MAP_BYTES],
        rocks: vec![0; MAP_BYTES],
        original_full: vec![0; MAP_BYTES],
        original_borders: vec![0; MAP_BYTES],
        tide_low: false,
        tide_rising: false,
        player_built: HashSet::new(),
    }
}

/// The frame step an animation phase in [0, 1) picks, as the game loop
/// computes it.
fn step_for_phase(key: &str, facing: Facing, phase: f32) -> usize {
    let frames = animal_animation_frames(key, facing);
    (phase * frames.len() as f32) as usize
}

#[test]
fn moving_animals_advance_between_sheet_frames() {
    assert_eq!(animal_sprite("animal_wild_goat", Facing::South, 0, false, 0), 0);

    let step = step_for_phase("animal_wild_goat", Facing::East, 0.0);
    assert_eq!(animal_sprite("animal_wild_goat", Facing::East, 0, true, step), 2);

    let step = step_for_phase("animal_wild_goat", Facing::East, 0.55);
    assert_eq!(animal_sprite("animal_wild_goat", Facing::East, 0, true, step), 3);
}

#[test]
fn shark_uses_three_frame_swim_cycle() {
    let sprite_at = |phase: f32| {
        let step = step_for_phase("animal_shark", Facing::West, phase);
        animal_sprite("animal_shark", Facing::West, 90, true, step)
    };
    assert_eq!(sprite_at(0.0), 90);
    assert_eq!(sprite_at(0.4), 91);
    assert_eq!(sprite_at(0.8), 92);
}

#[test]
fn harmless_direct_interaction_makes_animal_flee() {
    let outcome = direct_interaction_text("animal_wild_goat", Item::WildGoat, true, true);
    assert!(outcome.text.contains("bolts away"));
    assert!(outcome.flees);
}

#[test]
fn dangerous_direct_interaction_warns_about_attack() {
    let outcome = direct_interaction_text("animal_jaguar", Item::Jaguar, true, true);
    assert!(outcome.text.contains("attacks"));
    assert!(!outcome.flees);
}

#[test]
fn birds_flee_when_player_gets_close() {
    assert!(is_fleeing_bird("animal_green_parrot"));
    assert!(is_fleeing_bird("animal_seagull"));
}

#[test]
fn non_birds_do_not_auto_flee_on_proximity() {
    assert!(!is_fleeing_bird("animal_wild_goat"));
    assert!(!is_fleeing_bird("animal_jaguar"));
}

#[test]
fn dangerous_animals_are_the_predators() {
    for key in ["animal_alligator", "animal_jaguar", "animal_green_snake", "animal_boa", "animal_shark"] {
        assert!(is_dangerous_animal(key), "{key}");
    }
    assert!(!is_dangerous_animal("animal_wild_goat"));
}

#[test]
fn direct_interaction_advice_depends_on_weapons() {
    let no_arrows = direct_interaction_text("animal_wild_goat", Item::WildGoat, true, false);
    assert!(no_arrows.text.ends_with("You need arrows to hunt it."));
    let nothing = direct_interaction_text("animal_wild_goat", Item::WildGoat, false, false);
    assert!(nothing.text.ends_with("You need a bow and arrows."));
}

#[test]
fn examine_text_names_the_animal_and_the_advice() {
    let label = Item::Jaguar.label();
    let text = animal_examine_text("animal_jaguar", Item::Jaguar, false, false);
    assert_eq!(
        text,
        format!("Dangerous {label}. Keep your distance. Craft a bow and arrows before hunting it.")
    );
    let crab = animal_examine_text("animal_crab", Item::Crab, true, true);
    assert!(crab.ends_with("It is small, quick, and hard to grab. Face it and press E to hunt it."));
}

#[test]
fn animals_without_animation_keep_their_sprite() {
    assert!(animal_animation_frames("palm_tree", Facing::North).is_empty());
    assert_eq!(animal_sprite("palm_tree", Facing::North, 77, true, 5), 77);
}

#[test]
fn taking_animal_spawns_clears_them_once() {
    let mut world = empty_world();
    assert!(world.place_object_key(3, 2, "animal_wild_goat", false));
    assert!(world.place_object_key(4, 2, "gray_fish", false));

    let spawns = take_animal_spawns(&mut world);
    assert_eq!(spawns.len(), 1);
    assert_eq!(spawns[0].key, "animal_wild_goat");
    assert_eq!((spawns[0].x, spawns[0].y), (3, 2));
    assert!(world.objects[2 * MAP_W + 3].is_none());
    assert!(world.objects[2 * MAP_W + 4].is_some());

    assert!(take_animal_spawns(&mut world).is_empty());
}
