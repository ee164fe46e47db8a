use shipwrecked::inventory::{item_by_label_rank, object_sprite_palette, Inventory, Item};
use shipwrecked::recipes::{constructions_recipes, creations_recipes, is_construction, Recipe};
use shipwrecked::save::inventory_weight;

#[test]
fn a_new_inventory_is_empty() {
    let inv = Inventory::new();
    assert!(inv.is_empty());
    assert_eq!(inv.count(Item::Stone), 0);
    assert_eq!(inv.chest_count(Item::Stone), 0);
    assert!(inv.items_ordered().is_empty());
    assert_eq!(inv.carried_total(), 0);
}

#[test]
fn items_are_listed_by_label_with_their_counts() {
    let mut inv = Inventory::default();
    inv.add(Item::Stone, 3);
    inv.add(Item::Axe, 1);
    inv.add(Item::Coconut, 2);
    inv.add(Item::Coconut, 1);
    assert_eq!(
        inv.items_ordered(),
        vec![(Item::Axe, 1), (Item::Coconut, 3), (Item::Stone, 3)]
    );
    assert_eq!(inv.carried_total(), 7);
    assert_eq!(inventory_weight(&inv), 7);
    assert!(!inv.is_empty());
}

#[test]
fn adding_then_removing_restores_the_counts() {
    let mut inv = Inventory::default();
    inv.add(Item::Log, 2);
    inv.add(Item::Vine, 4);
    inv.remove(Item::Vine, 4);
    assert_eq!(inv.count(Item::Vine), 0);
    assert_eq!(inv.count(Item::Log), 2);
    assert_eq!(inv.items_ordered(), vec![(Item::Log, 2)]);
}

#[test]
fn storing_and_retrieving_moves_one_item_each_way() {
    let mut inv = Inventory::default();
    inv.add(Item::Rope, 2);
    inv.store_one(Item::Rope);
    assert_eq!(inv.count(Item::Rope), 1);
    assert_eq!(inv.chest_count(Item::Rope), 1);
    assert_eq!(inv.chest_items_ordered(), vec![(Item::Rope, 1)]);
    inv.retrieve_one(Item::Rope);
    assert_eq!(inv.count(Item::Rope), 2);
    assert_eq!(inv.chest_count(Item::Rope), 0);
    assert!(inv.chest_items_ordered().is_empty());
}

#[test]
fn original_item_numbers_round_trip() {
    assert_eq!(Item::Mango.j2me_index(), 0);
    assert_eq!(Item::Coconut.j2me_index(), 1);
    assert_eq!(Item::Axe.j2me_index(), 5);
    for idx in 0..200usize {
        if let Some(item) = Item::from_j2me_index(idx) {
            assert_eq!(item.j2me_index(), idx);
        }
    }
    assert_eq!(Item::from_j2me_index(5), Some(Item::Axe));
    assert_eq!(Item::from_j2me_index(5000), None);
}

#[test]
fn icons_unpack_the_palette_entry() {
    assert_eq!(object_sprite_palette(0), 851971);
    assert_eq!(Item::Mango.icon_sprite(), (13, 3));
    assert_eq!(Item::Mango.icon_index(), 3);
    assert_eq!(Item::GrayFish.icon_sprite(), (2, 58));
    assert_eq!(object_sprite_palette(15), -1);
    let missing = Item::from_j2me_index(15);
    if let Some(item) = missing {
        assert_eq!(item.icon_sprite(), (13, 0));
    }
}

#[test]
fn labels_and_label_order_agree() {
    assert_eq!(Item::Axe.label(), "Axe");
    assert_eq!(item_by_label_rank(0), Item::Alligator);
    let mut prev = item_by_label_rank(0).label();
    for r in 1..119usize {
        let next = item_by_label_rank(r).label();
        assert!(prev < next, "{prev} before {next}");
        prev = next;
    }
}

fn recipe_for(item: Item, list: &[Recipe]) -> &Recipe {
    list.iter().find(|r| r.result == item).unwrap()
}

#[test]
fn crafting_consumes_ingredients_and_adds_the_result() {
    let recipes = creations_recipes();
    let axe = recipe_for(Item::Axe, &recipes);
    let mut inv = Inventory::default();
    inv.add(Item::Stone, 2);
    inv.add(Item::Branch, 1);
    assert!(!axe.can_craft(&inv, |_| false));
    assert!(!axe.try_craft(&mut inv, |_| false));
    assert_eq!(inv.count(Item::Stone), 2);

    inv.add(Item::Vine, 1);
    assert!(axe.can_craft(&inv, |_| false));
    assert!(axe.try_craft(&mut inv, |_| false));
    assert_eq!(inv.count(Item::Axe), 1);
    assert_eq!(inv.count(Item::Stone), 1);
    assert_eq!(inv.count(Item::Branch), 0);
    assert_eq!(inv.count(Item::Vine), 0);
}

#[test]
fn tools_may_be_carried_or_built_nearby() {
    let recipes = creations_recipes();
    let pot = recipe_for(Item::Pot, &recipes);
    let mut inv = Inventory::default();
    inv.add(Item::Clay, 5);
    assert!(!pot.can_craft(&inv, |_| false));
    assert!(pot.can_craft(&inv, |t| t == Item::PotterWheel || t == Item::Fire));
    assert!(!pot.can_craft(&inv, |t| t == Item::Fire));
    inv.add(Item::PotterWheel, 1);
    assert!(pot.try_craft(&mut inv, |t| t == Item::Fire));
    assert_eq!(inv.count(Item::Pot), 1);
    assert_eq!(inv.count(Item::Clay), 0);
    assert_eq!(inv.count(Item::PotterWheel), 1);
}

#[test]
fn construction_recipes_make_constructions() {
    for r in constructions_recipes() {
        assert!(is_construction(r.result), "{:?}", r.result);
    }
    for r in creations_recipes() {
        assert!(!is_construction(r.result), "{:?}", r.result);
    }
    assert!(is_construction(Item::Tent));
    assert!(!is_construction(Item::Axe));
}

#[test]
fn carrying_more_adds_to_the_weight() {
    let mut inv = Inventory::default();
    inv.add(Item::Log, 4);
    let before = inventory_weight(&inv);
    inv.add(Item::Rope, 3);
    assert_eq!(inventory_weight(&inv), before + 3);
    inv.store_one(Item::Rope);
    assert_eq!(inventory_weight(&inv), before + 2);
    inv.retrieve_one(Item::Rope);
    inv.remove(Item::Rope, 3);
    assert_eq!(inventory_weight(&inv), before);
}
