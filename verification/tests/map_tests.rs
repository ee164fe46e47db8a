use shipwrecked::map::{
    object_key, object_u8_property, parse_tiled_map, tile_data_to_bytes, MapError, MapLayer,
    MapObject, MapProperty, PropertyValue,
};
use shipwrecked::world::{World, MAP_BYTES, MAP_H, MAP_W};

fn tile_layer(name: &str, fill: u32) -> MapLayer {
    MapLayer {
        name: name.to_string(),
        data: vec![fill; MAP_BYTES],
        objects: Vec::new(),
    }
}

fn object_layer(name: &str, objects: Vec<MapObject>) -> MapLayer {
    MapLayer {
        name: name.to_string(),
        data: Vec::new(),
        objects,
    }
}

fn named_object(name: &str, tile_x: i32, tile_y: i32, properties: Vec<MapProperty>) -> MapObject {
    MapObject {
        name: name.to_string(),
        tile_x,
        tile_y,
        properties,
    }
}

fn text_property(name: &str, value: &str) -> MapProperty {
    MapProperty {
        name: name.to_string(),
        value: PropertyValue::Text(value.to_string()),
    }
}

fn number_property(name: &str, value: u64) -> MapProperty {
    MapProperty {
        name: name.to_string(),
        value: PropertyValue::Unsigned(value),
    }
}

fn base_layers() -> Vec<MapLayer> {
    vec![
        tile_layer("terrain", 1),
        tile_layer("borders", 0),
        tile_layer("rocks", 0),
    ]
}

fn parse(layers: &Vec<MapLayer>) -> Result<shipwrecked::map::LoadedTiledMap, MapError> {
    parse_tiled_map(MAP_W, MAP_H, 16, 16, layers)
}

#[test]
fn a_well_formed_map_loads_with_its_placements() {
    let mut layers = base_layers();
    layers.push(object_layer(
        "objects",
        vec![
            named_object("palm_tree", 2, 3, vec![]),
            named_object("whatever", 4, 3, vec![text_property("key", "tent"), number_property("stage", 2)]),
        ],
    ));
    layers.push(object_layer("decor", vec![named_object("log_debris", 5, 5, vec![])]));
    layers.push(tile_layer("notes", 999));

    let loaded = parse(&layers).unwrap();
    assert_eq!(loaded.full.len(), MAP_BYTES);
    assert_eq!(loaded.full[7], 1);
    assert_eq!(loaded.objects.iter().filter(|p| p.is_some()).count(), 2);
    let tent = loaded.objects[3 * MAP_W + 4].unwrap();
    assert_eq!(tent.key, "tent");
    assert_eq!(tent.stage, 2);
    assert!(!tent.built);
    assert_eq!(loaded.decor[5 * MAP_W + 5].unwrap().key, "log_debris");

    let world = World::from_loaded_map(loaded);
    assert_eq!(world.original_full[7], 1);
    assert!(world.objects[3 * MAP_W + 4].unwrap().built);
    assert!(world.player_built.contains(&(3 * MAP_W + 4)));
    assert!(!world.tide_low && !world.tide_rising);
}

#[test]
fn a_map_of_the_wrong_size_is_refused() {
    let layers = base_layers();
    match parse_tiled_map(100, MAP_H, 16, 16, &layers) {
        Err(MapError::WrongSize { width, height, tilewidth, tileheight }) => {
            assert_eq!((width, height, tilewidth, tileheight), (100, MAP_H, 16, 16));
        }
        _ => panic!("expected a size error"),
    }
    assert!(matches!(
        parse_tiled_map(MAP_W, MAP_H, 32, 16, &layers),
        Err(MapError::WrongSize { .. })
    ));
}

#[test]
fn a_short_tile_layer_is_refused() {
    let mut layers = base_layers();
    layers[1].data.pop();
    match parse(&layers) {
        Err(MapError::TileCount { layer, got }) => {
            assert_eq!(layer, "borders");
            assert_eq!(got, MAP_BYTES - 1);
        }
        _ => panic!("expected a tile count error"),
    }
}

#[test]
fn an_oversized_tile_value_is_refused() {
    let mut data = vec![0u32; MAP_BYTES];
    data[10] = 300;
    data[20] = 400;
    match tile_data_to_bytes(&data, "rocks") {
        Err(MapError::TileValue { layer, value }) => {
            assert_eq!(layer, "rocks");
            assert_eq!(value, 300);
        }
        _ => panic!("expected a tile value error"),
    }
    data[10] = 255;
    data[20] = 0;
    assert_eq!(tile_data_to_bytes(&data, "rocks").unwrap()[10], 255);
}

#[test]
fn an_unknown_object_key_is_refused() {
    let mut layers = base_layers();
    layers.push(object_layer("objects", vec![named_object("mystery_thing", 1, 1, vec![])]));
    match parse(&layers) {
        Err(MapError::UnknownKey(k)) => assert_eq!(k, "mystery_thing"),
        _ => panic!("expected an unknown key error"),
    }
}

#[test]
fn an_object_outside_the_map_is_refused() {
    let mut layers = base_layers();
    layers.push(object_layer("animals", vec![named_object("animal_wild_goat", MAP_W as i32, 0, vec![])]));
    match parse(&layers) {
        Err(MapError::OutsideMap { key, tx, ty }) => {
            assert_eq!(key, "animal_wild_goat");
            assert_eq!((tx, ty), (MAP_W as i32, 0));
        }
        _ => panic!("expected an outside-map error"),
    }
}

#[test]
fn a_missing_tile_layer_is_refused() {
    let layers = vec![tile_layer("terrain", 0), tile_layer("rocks", 0)];
    match parse(&layers) {
        Err(MapError::MissingLayer(name)) => assert_eq!(name, "borders"),
        _ => panic!("expected a missing layer error"),
    }
    match parse(&Vec::new()) {
        Err(MapError::MissingLayer(name)) => assert_eq!(name, "terrain"),
        _ => panic!("expected a missing layer error"),
    }
}

#[test]
fn the_key_property_wins_over_the_name() {
    let obj = named_object("palm_tree", 0, 0, vec![number_property("key", 3), text_property("key", "tent")]);
    assert_eq!(object_key(&obj).unwrap(), "palm_tree");
    let obj = named_object("palm_tree", 0, 0, vec![text_property("key", "tent"), text_property("key", "fire")]);
    assert_eq!(object_key(&obj).unwrap(), "tent");
}

#[test]
fn byte_properties_skip_values_above_a_byte() {
    let obj = named_object(
        "tent",
        0,
        0,
        vec![number_property("stage", 700), text_property("stage", "x"), number_property("stage", 4)],
    );
    assert_eq!(object_u8_property(&obj, "stage"), Some(4));
    assert_eq!(object_u8_property(&obj, "missing"), None);
}

#[test]
fn every_loaded_placement_is_registered() {
    let mut layers = base_layers();
    layers.push(object_layer(
        "markers",
        vec![named_object("dummi_marker", 9, 9, vec![]), named_object("spawn_marker", 8, 148, vec![])],
    ));
    layers.push(object_layer("decor", vec![named_object("palm_tree", 1, 2, vec![number_property("stage", 3)])]));
    let loaded = parse(&layers).unwrap();
    for placement in loaded.objects.iter().chain(loaded.decor.iter()).flatten() {
        assert!(shipwrecked::objects::definition(placement.key).is_some());
        assert!(!placement.key.chars().all(|c| c.is_ascii_digit()));
    }
    assert_eq!(loaded.decor[2 * MAP_W + 1].unwrap().stage, 3);
}
