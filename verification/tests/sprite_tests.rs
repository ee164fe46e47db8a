use shipwrecked::world::{border_sprite, rock_sprite, terrain_sprite};
use shipwrecked::atlas::SpriteId;
use shipwrecked::inventory::Item;
use shipwrecked::objects::{
    animal_for_key, composite_decor_id, definition, is_tree_like_key, key_for_item, sprite_keys,
    structure_use, Anchor, CompositeDecor, Interaction, RenderLayer, StructureUse,
};
use shipwrecked::player::{
    clothing_slot, clothing_sprite_index, facing_tile, player_sprite_index, ClothingSlot, Facing,
    Outfit,
};

#[test]
fn sprite_ids_pack_sheet_and_index() {
    let id = SpriteId::new(13, 3);
    assert_eq!(id.0, 851971);
    assert_eq!(id.sheet(), 13);
    assert_eq!(id.sprite(), 3);
    let wide = SpriteId::new(0x1_0002, 0x1_0005);
    assert_eq!(wide.sheet(), 2);
    assert_eq!(wide.sprite(), 5);
}

#[test]
fn the_registry_resolves_every_kind_of_key() {
    let goat = definition("animal_wild_goat").unwrap();
    assert_eq!(goat.interaction, Interaction::Nothing);
    assert!(!goat.blocking);
    assert_eq!(goat.sprite, Some(SpriteId::new(2, 0)));

    let tent = definition("tent").unwrap();
    assert_eq!(tent.interaction, Interaction::Structure(StructureUse::Sleep));
    assert!(tent.blocking);
    assert_eq!(tent.render_layer, RenderLayer::Object);

    let log = definition("log_debris").unwrap();
    assert_eq!(log.interaction, Interaction::Pickup(Item::Log, 1));
    assert_eq!(log.render_layer, RenderLayer::Decor);

    let palm = definition("palm_tree").unwrap();
    assert_eq!(palm.composite, Some(CompositeDecor::PalmA));

    let coconut = definition("coconut").unwrap();
    assert_eq!(coconut.anchor, Anchor::Canopy);
    assert!(!coconut.blocking);

    assert!(definition("dummi_marker").unwrap().sprite.is_none());
    assert!(definition("no_such_key").is_none());
}

#[test]
fn keys_and_items_correspond() {
    assert_eq!(key_for_item(Item::Tent), Some("tent"));
    assert_eq!(key_for_item(Item::Raft), Some("raft"));
    assert_eq!(animal_for_key("animal_wild_goat"), Some((Item::WildGoat, 0)));
    assert_eq!(animal_for_key("tent"), None);
    assert_eq!(structure_use(Item::Cabin), Some(StructureUse::Storage));
    assert_eq!(structure_use(Item::Axe), None);
    assert!(is_tree_like_key("palm_tree"));
    assert!(!is_tree_like_key("log_debris"));
    let keys = sprite_keys();
    assert!(keys.contains(&"tent"));
    assert!(keys.iter().all(|k| definition(k).is_some()));
    assert!(composite_decor_id(CompositeDecor::PalmA) != composite_decor_id(CompositeDecor::PalmB));
}

#[test]
fn facing_tile_steps_one_tile() {
    assert_eq!(facing_tile((8, 148), Facing::South), (8, 149));
    assert_eq!(facing_tile((8, 148), Facing::North), (8, 147));
    assert_eq!(facing_tile((8, 148), Facing::West), (7, 148));
    assert_eq!(facing_tile((8, 148), Facing::East), (9, 148));
}

#[test]
fn player_walk_frames_follow_the_idle_pose() {
    let idle = player_sprite_index(Facing::South, false, 3);
    assert_eq!(idle, Facing::South.base_sprite());
    assert_eq!(player_sprite_index(Facing::South, true, 0), idle + 1);
    assert_eq!(player_sprite_index(Facing::South, true, 5), idle + 2);
}

#[test]
fn clothing_goes_in_its_slot_and_toggles() {
    assert_eq!(clothing_slot(Item::StrawHat), Some(ClothingSlot::Hat));
    assert_eq!(clothing_slot(Item::Axe), None);
    assert!(clothing_sprite_index(Item::Axe, Facing::North, 0).is_none());
    assert!(clothing_sprite_index(Item::StrawHat, Facing::North, 0).is_some());

    let mut outfit = Outfit::new();
    outfit.toggle(Item::StrawHat);
    assert_eq!(outfit.hat, Some(Item::StrawHat));
    outfit.toggle(Item::FurHat);
    assert_eq!(outfit.hat, Some(Item::FurHat));
    outfit.toggle(Item::TShirt);
    assert_eq!(outfit.jacket, Some(Item::TShirt));
    outfit.toggle(Item::TShirt);
    assert_eq!(outfit.jacket, None);
    assert_eq!(outfit.hat, Some(Item::FurHat));
    let before = outfit;
    outfit.toggle(Item::Axe);
    assert_eq!(outfit, before);
}

#[test]
fn layer_bytes_pick_their_sprites() {
    assert_eq!(terrain_sprite(5), SpriteId::new(1, 5));
    assert_eq!(border_sprite(0), None);
    assert_eq!(border_sprite(1), Some(SpriteId::new(8, 0)));
    assert_eq!(border_sprite(5), Some(SpriteId::new(11, 0)));
    assert_eq!(border_sprite(22), Some(SpriteId::new(11, 8)));
    assert_eq!(border_sprite(23), None);
    assert_eq!(rock_sprite(0), None);
    assert_eq!(rock_sprite(1), Some(SpriteId::new(4, 0)));
    assert_eq!(rock_sprite(48), Some(SpriteId::new(4, 47)));
    assert_eq!(rock_sprite(49), None);
}
