use shipwrecked::actions::ContextualAction;
use shipwrecked::game::{
    cast_net, cast_rod, clamp_selection, clear_rock_with_gunpowder, clothing_items,
    clothing_slot_label, clothing_status_text, death_message, e_action_label, eat,
    escape_transition, find_recipe, fish_with_net, fish_with_rod, food_effect, grid_step,
    is_worn, item_detail_text, list_start_row, list_step, menu_tab_labels, net_catch,
    next_menu_tab, place_construction, placement_error, previous_menu_tab, quick_food_item,
    recipe_grid_start_row, repair_raft, repair_ship, resolve_bow_shot, resolve_coconut_throw,
    rod_catch, screen_after_load, tide_change_message, title_choice, title_menu_move,
    toggle_if_owned, ArrowKeys, CoconutOutcome, FishingOutcome, HuntOutcome, Screen,
    TitleChoice, MENU_COLUMNS, NET_CATCH_COUNT, ROD_CATCH_COUNT,
};
use shipwrecked::inventory::{Inventory, Item};
use shipwrecked::objects::ObjectPlacement;
use shipwrecked::player::Outfit;
use shipwrecked::recipes::constructions_recipes;
use shipwrecked::save::{ProgressState, TerminalState};
use shipwrecked::world::{World, MAP_BYTES};
use std::collections::HashSet;

fn empty_world() -> World {
    World {
        full: vec![0; MAP_BYTES],
        borders: vec![0; MAP_BYTES],
        decor: vec![None; MAP_BYTES],
        objects: vec![None; MAP_BYTES],
        rocks: vec![0; MAP_BYTES],
        original_full: vec![0; MAP_BYTES],
        original_borders: vec![0; MAP_BYTES],
        tide_low: false,
        tide_rising: false,
        player_built: HashSet::new(),
    }
}

fn keys(left: bool, right: bool, up: bool, down: bool) -> ArrowKeys {
    ArrowKeys { left, right, up, down }
}

#[test]
fn escape_moves_between_screens() {
    assert_eq!(escape_transition(Screen::Playing), Screen::Paused);
    assert_eq!(escape_transition(Screen::Paused), Screen::Playing);
    assert_eq!(escape_transition(Screen::Help), Screen::TitleMenu);
    assert_eq!(escape_transition(Screen::TitleMenu), Screen::TitleMenu);
    assert_eq!(escape_transition(Screen::InventoryMenu), Screen::Playing);
    assert_eq!(escape_transition(Screen::Placing(Item::Tent)), Screen::Playing);
    assert_eq!(escape_transition(Screen::Victory), Screen::TitleMenu);
}

#[test]
fn title_menu_selection_stays_in_range() {
    assert_eq!(title_menu_move(0, true, false), 0);
    assert_eq!(title_menu_move(0, false, true), 1);
    assert_eq!(title_menu_move(4, false, true), 4);
    assert_eq!(title_menu_move(2, true, true), 2);
    assert_eq!(title_choice(0), Some(TitleChoice::LoadGame));
    assert_eq!(title_choice(1), Some(TitleChoice::NewGame));
    assert_eq!(title_choice(4), Some(TitleChoice::Credits));
    assert_eq!(title_choice(5), None);
}

#[test]
fn a_loaded_game_resumes_where_it_ended() {
    assert_eq!(screen_after_load(&TerminalState::Running), Screen::Playing);
    assert_eq!(screen_after_load(&TerminalState::Victory), Screen::Victory);
    assert_eq!(
        screen_after_load(&TerminalState::GameOver { reason: "x".to_string() }),
        Screen::GameOver
    );
}

#[test]
fn menu_tabs_cycle_through_six() {
    assert_eq!(next_menu_tab(0), 1);
    assert_eq!(next_menu_tab(5), 0);
    assert_eq!(previous_menu_tab(0), 5);
    assert_eq!(previous_menu_tab(3), 2);
    assert_eq!(menu_tab_labels(0).len(), 6);
    let storage = menu_tab_labels(6);
    assert_eq!(storage.len(), 7);
    assert_eq!(storage[6], "STORAGE");
}

#[test]
fn grid_selection_moves_within_rows_and_columns() {
    let cols = MENU_COLUMNS;
    assert_eq!(grid_step(5, 10, cols, keys(true, false, false, false)), 4);
    assert_eq!(grid_step(4, 10, cols, keys(true, false, false, false)), 4);
    assert_eq!(grid_step(3, 10, cols, keys(false, true, false, false)), 3);
    assert_eq!(grid_step(9, 10, cols, keys(false, true, false, false)), 9);
    assert_eq!(grid_step(5, 10, cols, keys(false, false, true, false)), 1);
    assert_eq!(grid_step(1, 10, cols, keys(false, false, true, false)), 1);
    assert_eq!(grid_step(6, 10, cols, keys(false, false, false, true)), 9);
    assert_eq!(grid_step(9, 10, cols, keys(false, false, false, true)), 9);
    assert_eq!(grid_step(5, 10, cols, keys(true, false, true, false)), 0);
    assert_eq!(clamp_selection(7, 3), 2);
    assert_eq!(clamp_selection(7, 0), 0);
    assert_eq!(list_step(0, 3, true, false), 0);
    assert_eq!(list_step(1, 3, false, true), 2);
    assert_eq!(list_step(2, 3, false, true), 2);
}

#[test]
fn long_lists_scroll_to_keep_the_selection_visible() {
    assert_eq!(recipe_grid_start_row(0, 32, 4), 0);
    assert_eq!(recipe_grid_start_row(16, 32, 4), 1);
    assert_eq!(recipe_grid_start_row(31, 32, 4), 3);
    assert_eq!(recipe_grid_start_row(12, 13, 4), 0);
    assert_eq!(list_start_row(15, 20, true), 4);
    assert_eq!(list_start_row(19, 20, true), 8);
    assert_eq!(list_start_row(19, 20, false), 0);
    assert_eq!(list_start_row(5, 8, true), 0);
}

#[test]
fn food_restores_what_its_label_says() {
    let coconut = food_effect(Item::Coconut).unwrap();
    assert_eq!((coconut.hunger, coconut.thirst, coconut.poisonous), (20, 25, false));
    assert_eq!(coconut.label, "Ate Coconut (+20 Hunger, +25 Thirst)");
    assert!(food_effect(Item::RedMushroom).unwrap().poisonous);
    assert!(food_effect(Item::Stone).is_none());
    assert_eq!(quick_food_item(4), Some(Item::WhiteMushroom));
    assert_eq!(quick_food_item(9), None);
    assert_eq!(item_detail_text(Item::Coconut).1, "Press [SPACE] to Drink");
    assert_eq!(item_detail_text(Item::Log), ("Material / Crafting Ingredient", ""));
}

#[test]
fn eating_uses_up_one_carried_food() {
    let mut inv = Inventory::default();
    assert!(eat(&mut inv, Item::Banana).is_none());
    inv.add(Item::Banana, 2);
    let effect = eat(&mut inv, Item::Banana).unwrap();
    assert_eq!(effect.hunger, 25);
    assert_eq!(inv.count(Item::Banana), 1);
    inv.add(Item::Stone, 1);
    assert!(eat(&mut inv, Item::Stone).is_none());
    assert_eq!(inv.count(Item::Stone), 1);
}

#[test]
fn clothes_are_worn_only_when_carried() {
    let clothes = clothing_items();
    assert_eq!(clothes.len(), 16);
    assert_eq!(clothes[0], Item::TShirt);
    assert_eq!(clothes[15], Item::FurHat);
    let mut inv = Inventory::default();
    let mut outfit = Outfit::new();
    toggle_if_owned(&mut outfit, &inv, Item::Hat);
    assert!(!is_worn(&outfit, Item::Hat));
    inv.add(Item::Hat, 1);
    toggle_if_owned(&mut outfit, &inv, Item::Hat);
    assert!(is_worn(&outfit, Item::Hat));
    assert_eq!(clothing_status_text(true, true).1, "Press [SPACE] to Unequip");
    assert_eq!(clothing_status_text(false, false).0, "Status: Not Owned");
    assert_eq!(clothing_slot_label(Item::Loincloth), "Slot: Pants / Bottom");
    assert_eq!(clothing_slot_label(Item::Axe), "");
}

#[test]
fn messages_match_the_situation() {
    assert_eq!(death_message(true, true), "That food was poisonous - you're dead!");
    assert_eq!(death_message(false, true), "The tide took you - you're dead!");
    assert_eq!(death_message(false, false), "Collapsed from exhaustion!");
    assert!(tide_change_message(true).contains("receding"));
    assert!(tide_change_message(false).contains("rising"));
    assert_eq!(e_action_label(ContextualAction::ThrowStone), "Throw");
    assert_eq!(e_action_label(ContextualAction::HuntAnimal(3)), "Hunt");
    assert_eq!(e_action_label(ContextualAction::FishDeep), "Look");
}

#[test]
fn a_net_needs_potatoes_and_brings_in_shellfish() {
    let mut inv = Inventory::default();
    let mut progress = ProgressState::new();
    inv.add(Item::Net, 1);
    assert_eq!(fish_with_net(&mut inv, &mut progress, 3), FishingOutcome::NoBait);
    inv.add(Item::Potato, 2);
    assert_eq!(fish_with_net(&mut inv, &mut progress, 3), FishingOutcome::Caught(Item::Conch));
    assert_eq!(inv.count(Item::Potato), 1);
    assert_eq!(inv.count(Item::Conch), 1);
    assert_eq!(progress.fish_caught, 1);
    assert_eq!(net_catch(0), Item::Whelk);
    assert_eq!(net_catch(NET_CATCH_COUNT - 1), Item::SeaSnail);

    match cast_net(&mut inv, &mut progress) {
        FishingOutcome::Caught(item) => {
            assert!((0..NET_CATCH_COUNT).any(|i| net_catch(i) == item));
            assert_eq!(inv.count(Item::Potato), 0);
            assert_eq!(progress.fish_caught, 2);
        }
        other => panic!("expected a catch, got {other:?}"),
    }
    assert_eq!(cast_net(&mut inv, &mut progress), FishingOutcome::NoBait);
}

#[test]
fn a_rod_needs_worms_and_a_bite() {
    let mut inv = Inventory::default();
    let mut progress = ProgressState::new();
    inv.add(Item::FishingRod, 1);
    inv.add(Item::Worms, 3);
    assert_eq!(fish_with_rod(&mut inv, &mut progress, false, 0), FishingOutcome::Lost);
    assert_eq!(inv.count(Item::Worms), 2);
    assert_eq!(fish_with_rod(&mut inv, &mut progress, true, 4), FishingOutcome::Caught(Item::Goldfish));
    assert_eq!(progress.fish_caught, 1);
    assert_eq!(rod_catch(0), Item::BrownFish);
    match cast_rod(&mut inv, &mut progress, true) {
        FishingOutcome::Caught(item) => assert!((0..ROD_CATCH_COUNT).any(|i| rod_catch(i) == item)),
        other => panic!("expected a catch, got {other:?}"),
    }
    assert_eq!(inv.count(Item::Worms), 0);
    assert_eq!(cast_rod(&mut inv, &mut progress, true), FishingOutcome::NoBait);
}

#[test]
fn a_coconut_falls_after_two_hits() {
    let mut world = empty_world();
    let mut inv = Inventory::default();
    let mut progress = ProgressState::new();
    inv.add(Item::Stone, 3);

    assert_eq!(
        resolve_coconut_throw(&mut world, &mut inv, &mut progress, 30, 30, 0, false),
        CoconutOutcome::Missed
    );
    assert_eq!(
        resolve_coconut_throw(&mut world, &mut inv, &mut progress, 30, 30, 0, true),
        CoconutOutcome::HitOnce(1)
    );
    assert_eq!(
        resolve_coconut_throw(&mut world, &mut inv, &mut progress, 30, 30, 1, true),
        CoconutOutcome::Dropped(30, 31)
    );
    assert_eq!(inv.count(Item::Stone), 0);
    assert_eq!(progress.coconuts_won, 1);
    let dropped = world.object_at(30, 31).unwrap();
    assert_eq!(dropped.key, "dropped_coconut");
}

#[test]
fn a_coconut_with_nowhere_to_land_is_won_directly() {
    let mut world = empty_world();
    for (dx, dy) in [(0, 1), (1, 0), (-1, 0), (1, 1), (-1, 1), (0, 2)] {
        world.full[World::index(30 + dx, 30 + dy).unwrap()] = 14;
    }
    let mut inv = Inventory::default();
    let mut progress = ProgressState::new();
    inv.add(Item::Stone, 1);
    assert_eq!(
        resolve_coconut_throw(&mut world, &mut inv, &mut progress, 30, 30, 1, true),
        CoconutOutcome::Won
    );
    assert_eq!(inv.count(Item::Coconut), 1);
}

#[test]
fn arrows_hunt_or_anger_animals() {
    let mut inv = Inventory::default();
    let mut progress = ProgressState::new();
    inv.add(Item::Arrow, 3);
    assert_eq!(
        resolve_bow_shot(&mut inv, &mut progress, Some(("animal_wild_goat", Item::WildGoat)), true),
        HuntOutcome::Hunted(Item::WildGoat)
    );
    assert_eq!(inv.count(Item::WildGoat), 1);
    assert_eq!(progress.animals_hunted, 1);
    assert_eq!(
        resolve_bow_shot(&mut inv, &mut progress, Some(("animal_jaguar", Item::Jaguar)), false),
        HuntOutcome::Killed
    );
    assert_eq!(resolve_bow_shot(&mut inv, &mut progress, None, true), HuntOutcome::Missed);
    assert_eq!(inv.count(Item::Arrow), 0);
}

#[test]
fn gunpowder_clears_rocks_and_repairs_need_their_builds() {
    let mut world = empty_world();
    let mut inv = Inventory::default();
    let mut progress = ProgressState::new();
    let idx = World::index(40, 40).unwrap();
    world.rocks[idx] = 7;
    assert!(!clear_rock_with_gunpowder(&mut inv, &mut world, &mut progress, 40, 40));
    assert_eq!(world.rocks[idx], 7);
    inv.add(Item::Barrel, 1);
    inv.add(Item::Gunpowder, 1);
    assert!(clear_rock_with_gunpowder(&mut inv, &mut world, &mut progress, 40, 40));
    assert_eq!(world.rocks[idx], 0);
    assert!(progress.rock_cleared_with_gunpowder);
    assert_eq!(inv.count(Item::Barrel), 0);

    assert!(!repair_raft(&inv, &mut progress));
    inv.add(Item::Raft, 1);
    assert!(repair_raft(&inv, &mut progress));
    assert!(progress.raft_repaired && progress.swamp_access);
    assert!(!repair_ship(&inv, &mut progress));
    inv.add(Item::PirateShip, 1);
    assert!(repair_ship(&inv, &mut progress));
    assert!(progress.ship_repaired);
}

#[test]
fn constructions_need_clear_land_and_use_their_ingredients() {
    let mut world = empty_world();
    let recipes = constructions_recipes();
    let fire_idx = find_recipe(&recipes, Item::Fire).unwrap();
    assert_eq!(recipes[fire_idx].result, Item::Fire);
    assert_eq!(find_recipe(&recipes, Item::Axe), None);

    assert_eq!(
        placement_error(&world, Item::Tent, 5, 5, false),
        Some("Place Tent or Cabin on the clear camp spots beside the flag.")
    );
    assert_eq!(
        placement_error(&world, Item::Fire, 5, 5, true),
        Some("Keep this camp spot clear for a Tent or Cabin.")
    );
    world.full[World::index(5, 6).unwrap()] = 14;
    assert_eq!(
        placement_error(&world, Item::Fire, 5, 6, false),
        Some("Cannot build there! Target must be clear land.")
    );
    assert_eq!(placement_error(&world, Item::Fire, 5, 5, false), None);
    assert_eq!(placement_error(&world, Item::Tent, 5, 5, true), None);

    let mut inv = Inventory::default();
    inv.add(Item::DryGrass, 3);
    inv.add(Item::Branch, 2);
    inv.add(Item::Stone, 5);
    assert!(place_construction(&recipes[fire_idx], &mut inv, &mut world, 5, 5));
    assert_eq!(inv.count(Item::Stone), 3);
    assert_eq!(inv.count(Item::DryGrass), 0);
    let fire: ObjectPlacement = *world.object_at(5, 5).unwrap();
    assert_eq!(fire.key, "fire");
    assert!(fire.built);
    assert!(world.player_built.contains(&World::index(5, 5).unwrap()));
    assert!(placement_error(&world, Item::Fire, 5, 5, false).is_some());
}
