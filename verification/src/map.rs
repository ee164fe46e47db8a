//! Assembly of the island map from the layers of its Tiled file: the three
//! byte layers, and the named object and decor placements resolved through
//! the registry, with the checks that reject a malformed map.

use vstd::prelude::*;
use vstd::string::StringExecFns;
use std::collections::HashSet;
use crate::objects::{Interaction, ObjectPlacement, definition, definition_of};
use crate::save::{layer_view, placement_view, registered_layer};
use crate::text::str_eq;
use crate::world::{MAP_BYTES, MAP_H, MAP_W, World, tile_index};

verus! {

broadcast use vstd::std_specs::hash::group_hash_axioms;

/// The value of a custom property of a map object.
pub enum PropertyValue {
    Text(String),
    Unsigned(u64),
    Other,
}

/// A custom property of a map object.
pub struct MapProperty {
    pub name: String,
    pub value: PropertyValue,
}

/// An object of an object layer: its name, the tile it lies on, and its
/// custom properties.
pub struct MapObject {
    pub name: String,
    pub tile_x: i32,
    pub tile_y: i32,
    pub properties: Vec<MapProperty>,
}

/// A layer of the map file: a tile layer carries `data`, an object layer
/// carries `objects`.
pub struct MapLayer {
    pub name: String,
    pub data: Vec<u32>,
    pub objects: Vec<MapObject>,
}

/// Why a map file cannot be used.
#[derive(Debug)]
pub enum MapError {
    /// The map is not 540 x 540 tiles of 16 x 16 pixels.
    WrongSize { width: usize, height: usize, tilewidth: usize, tileheight: usize },
    /// A tile layer does not hold one entry per tile.
    TileCount { layer: &'static str, got: usize },
    /// A tile layer holds a value above 255.
    TileValue { layer: &'static str, value: u32 },
    /// An object names a key the registry does not know.
    UnknownKey(String),
    /// An object lies outside the map.
    OutsideMap { key: &'static str, tx: i32, ty: i32 },
    /// A required tile layer is absent.
    MissingLayer(&'static str),
}

/// The content of a map error, with its strings as characters.
pub enum MapErrorView {
    WrongSize(usize, usize, usize, usize),
    TileCount(Seq<char>, usize),
    TileValue(Seq<char>, u32),
    UnknownKey(Seq<char>),
    OutsideMap(Seq<char>, i32, i32),
    MissingLayer(Seq<char>),
}

impl View for MapError {
    type V = MapErrorView;

    open spec fn view(&self) -> MapErrorView {
        match self {
            MapError::WrongSize { width, height, tilewidth, tileheight } => MapErrorView::WrongSize(
                *width,
                *height,
                *tilewidth,
                *tileheight,
            ),
            MapError::TileCount { layer, got } => MapErrorView::TileCount(layer@, *got),
            MapError::TileValue { layer, value } => MapErrorView::TileValue(layer@, *value),
            MapError::UnknownKey(k) => MapErrorView::UnknownKey(k@),
            MapError::OutsideMap { key, tx, ty } => MapErrorView::OutsideMap(key@, *tx, *ty),
            MapError::MissingLayer(l) => MapErrorView::MissingLayer(l@),
        }
    }
}

/// The layers of a loaded map.
pub struct LoadedTiledMap {
    pub full: Vec<u8>,
    pub borders: Vec<u8>,
    pub rocks: Vec<u8>,
    pub objects: Vec<Option<ObjectPlacement>>,
    pub decor: Vec<Option<ObjectPlacement>>,
}

/// A placement layer by content.
pub type GridView = Seq<Option<(Seq<char>, u8, bool)>>;

/// The first value above 255 among the first `n` entries, if any.
pub open spec fn first_oversized(data: Seq<u32>, n: int) -> Option<u32>
    decreases n,
{
    if n <= 0 {
        None
    } else {
        match first_oversized(data, n - 1) {
            Some(v) => Some(v),
            None => if data[n - 1] > 255 {
                Some(data[n - 1])
            } else {
                None
            },
        }
    }
}

proof fn lemma_first_oversized_stable(data: Seq<u32>, n: int, m: int)
    requires
        0 <= n <= m,
        first_oversized(data, n) is Some,
    ensures
        first_oversized(data, m) == first_oversized(data, n),
    decreases m - n,
{
    if n < m {
        lemma_first_oversized_stable(data, n, m - 1);
    }
}

/// A tile layer's entries as bytes: one entry per tile, each at most 255.
pub open spec fn tile_bytes_of(data: Seq<u32>, layer: Seq<char>) -> Result<Seq<u8>, MapErrorView> {
    if data.len() != MAP_BYTES {
        Err(MapErrorView::TileCount(layer, data.len() as usize))
    } else if let Some(v) = first_oversized(data, data.len() as int) {
        Err(MapErrorView::TileValue(layer, v))
    } else {
        Ok(Seq::new(data.len(), |i: int| data[i] as u8))
    }
}

/// Convert a tile layer's entries to bytes.
pub fn tile_data_to_bytes(data: &Vec<u32>, layer: &'static str) -> (r: Result<Vec<u8>, MapError>)
    ensures
        match tile_bytes_of(data@, layer@) {
            Ok(bytes) => r matches Ok(v) && v@ == bytes,
            Err(e) => r matches Err(err) && err@ == e,
        },
{
    if data.len() != MAP_BYTES {
        return Err(MapError::TileCount { layer, got: data.len() });
    }
    let mut out: Vec<u8> = Vec::new();
    let mut i: usize = 0;
    while i < data.len()
        invariant
            i <= data@.len(),
            data@.len() == MAP_BYTES,
            out@.len() == i,
            first_oversized(data@, i as int) is None,
            forall|j: int| 0 <= j < i ==> #[trigger] out@[j] == data@[j] as u8,
        decreases data@.len() - i,
    {
        let value = data[i];
        if value > 255 {
            proof {
                assert(first_oversized(data@, i + 1) == Some(value));
                lemma_first_oversized_stable(data@, i + 1, data@.len() as int);
            }
            return Err(MapError::TileValue { layer, value });
        }
        out.push(value as u8);
        i = i + 1;
    }
    assert(out@ =~= Seq::new(data@.len(), |i: int| data@[i] as u8));
    Ok(out)
}

/// The first property among the first `n` with a given name.
pub open spec fn first_named(props: Seq<MapProperty>, name: Seq<char>, n: int) -> Option<int>
    decreases n,
{
    if n <= 0 {
        None
    } else {
        match first_named(props, name, n - 1) {
            Some(j) => Some(j),
            None => if props[n - 1].name@ == name {
                Some(n - 1)
            } else {
                None
            },
        }
    }
}

proof fn lemma_first_named_stable(props: Seq<MapProperty>, name: Seq<char>, n: int, m: int)
    requires
        0 <= n <= m,
        first_named(props, name, n) is Some,
    ensures
        first_named(props, name, m) == first_named(props, name, n),
    decreases m - n,
{
    if n < m {
        lemma_first_named_stable(props, name, n, m - 1);
    }
}

/// The key an object asks for: the text of its first `key` property, else
/// its name.
pub open spec fn raw_key_of(obj: MapObject) -> Seq<char> {
    match first_named(obj.properties@, "key"@, obj.properties@.len() as int) {
        Some(j) => match obj.properties@[j].value {
            PropertyValue::Text(s) => s@,
            _ => obj.name@,
        },
        None => obj.name@,
    }
}

/// A property value that is a byte.
pub open spec fn byte_value(v: PropertyValue) -> Option<u8> {
    match v {
        PropertyValue::Unsigned(n) => if n <= 255 {
            Some(n as u8)
        } else {
            None
        },
        _ => None,
    }
}

/// The first byte value among the first `n` properties with a given name.
pub open spec fn first_byte_property(props: Seq<MapProperty>, name: Seq<char>, n: int) -> Option<u8>
    decreases n,
{
    if n <= 0 {
        None
    } else {
        match first_byte_property(props, name, n - 1) {
            Some(b) => Some(b),
            None => if props[n - 1].name@ == name {
                byte_value(props[n - 1].value)
            } else {
                None
            },
        }
    }
}

proof fn lemma_first_byte_property_stable(props: Seq<MapProperty>, name: Seq<char>, n: int, m: int)
    requires
        0 <= n <= m,
        first_byte_property(props, name, n) is Some,
    ensures
        first_byte_property(props, name, m) == first_byte_property(props, name, n),
    decreases m - n,
{
    if n < m {
        lemma_first_byte_property_stable(props, name, n, m - 1);
    }
}

/// The key an object resolves to in the registry.
pub open spec fn object_key_of(obj: MapObject) -> Result<Seq<char>, MapErrorView> {
    match definition_of(raw_key_of(obj)) {
        Some(d) => Ok(d.key),
        None => Err(MapErrorView::UnknownKey(raw_key_of(obj))),
    }
}

/// Resolve an object's key through the registry.
pub fn object_key(object: &MapObject) -> (r: Result<&'static str, MapError>)
    ensures
        match object_key_of(*object) {
            Ok(k) => r matches Ok(key) && key@ == k,
            Err(e) => r matches Err(err) && err@ == e,
        },
{
    let mut found: Option<usize> = None;
    let mut j: usize = 0;
    while j < object.properties.len() && found.is_none()
        invariant
            j <= object.properties@.len(),
            found is None ==> first_named(object.properties@, "key"@, j as int) is None,
            found matches Some(k) ==> k < object.properties@.len() && first_named(
                object.properties@,
                "key"@,
                object.properties@.len() as int,
            ) == Some(k as int),
        decreases object.properties@.len() - j,
    {
        if str_eq(object.properties[j].name.as_str(), "key") {
            proof {
                assert(first_named(object.properties@, "key"@, j + 1) == Some(j as int));
                lemma_first_named_stable(
                    object.properties@,
                    "key"@,
                    j + 1,
                    object.properties@.len() as int,
                );
            }
            found = Some(j);
        }
        j = j + 1;
    }
    let raw: &str = match found {
        Some(k) => match &object.properties[k].value {
            PropertyValue::Text(s) => s.as_str(),
            _ => object.name.as_str(),
        },
        None => object.name.as_str(),
    };
    assert(raw@ == raw_key_of(*object));
    match definition(raw) {
        Some(def) => Ok(def.key),
        None => Err(MapError::UnknownKey(String::from_str(raw))),
    }
}

/// The first byte-valued property of an object with a given name.
pub fn object_u8_property(object: &MapObject, key: &str) -> (r: Option<u8>)
    ensures
        r == first_byte_property(object.properties@, key@, object.properties@.len() as int),
{
    let mut j: usize = 0;
    while j < object.properties.len()
        invariant
            j <= object.properties@.len(),
            first_byte_property(object.properties@, key@, j as int) is None,
        decreases object.properties@.len() - j,
    {
        let property = &object.properties[j];
        if str_eq(property.name.as_str(), key) {
            if let PropertyValue::Unsigned(v) = property.value {
                if v <= 255 {
                    proof {
                        assert(first_byte_property(object.properties@, key@, j + 1) == Some(v as u8));
                        lemma_first_byte_property_stable(
                            object.properties@,
                            key@,
                            j + 1,
                            object.properties@.len() as int,
                        );
                    }
                    return Some(v as u8);
                }
            }
        }
        j = j + 1;
    }
    None
}

/// One object placed onto a layer view: its key must resolve, and its tile
/// lie on the map; its stage is its first byte `stage` property, else 0.
pub open spec fn place_object(grid: GridView, obj: MapObject, built: bool) -> Result<GridView, MapErrorView> {
    match object_key_of(obj) {
        Err(e) => Err(e),
        Ok(k) => if definition_of(k) is None {
            Err(MapErrorView::UnknownKey(k))
        } else {
            match tile_index(obj.tile_x, obj.tile_y) {
                None => Err(MapErrorView::OutsideMap(k, obj.tile_x, obj.tile_y)),
                Some(i) => {
                    let stage = match first_byte_property(
                        obj.properties@,
                        "stage"@,
                        obj.properties@.len() as int,
                    ) {
                        Some(b) => b,
                        None => 0,
                    };
                    Ok(grid.update(i as int, Some((k, stage, built))))
                },
            }
        },
    }
}

/// The first `n` objects of a layer placed in order, stopping at the first
/// that fails.
pub open spec fn place_objects(grid: GridView, objs: Seq<MapObject>, built: bool, n: int) -> Result<GridView, MapErrorView>
    decreases n,
{
    if n <= 0 {
        Ok(grid)
    } else {
        match place_objects(grid, objs, built, n - 1) {
            Err(e) => Err(e),
            Ok(g) => place_object(g, objs[n - 1], built),
        }
    }
}

proof fn lemma_place_objects_len(grid: GridView, objs: Seq<MapObject>, built: bool, n: int)
    requires
        grid.len() == MAP_BYTES,
    ensures
        place_objects(grid, objs, built, n) matches Ok(g) ==> g.len() == grid.len(),
    decreases n,
{
    if n > 0 {
        lemma_place_objects_len(grid, objs, built, n - 1);
    }
}

proof fn lemma_place_objects_err_stable(grid: GridView, objs: Seq<MapObject>, built: bool, n: int, m: int)
    requires
        0 <= n <= m,
        place_objects(grid, objs, built, n) is Err,
    ensures
        place_objects(grid, objs, built, m) == place_objects(grid, objs, built, n),
    decreases m - n,
{
    if n < m {
        lemma_place_objects_err_stable(grid, objs, built, n, m - 1);
    }
}

/// Place every object of an object layer onto a placement layer.
pub fn load_object_layer(
    target: &mut Vec<Option<ObjectPlacement>>,
    objects_in_layer: &Vec<MapObject>,
    built: bool,
) -> (r: Result<(), MapError>)
    requires
        old(target)@.len() == MAP_BYTES,
    ensures
        final(target)@.len() == MAP_BYTES,
        match place_objects(
            layer_view(old(target)@),
            objects_in_layer@,
            built,
            objects_in_layer@.len() as int,
        ) {
            Ok(g) => r is Ok && layer_view(final(target)@) == g,
            Err(e) => r matches Err(err) && err@ == e,
        },
{
    let ghost start = layer_view(target@);
    let mut n: usize = 0;
    while n < objects_in_layer.len()
        invariant
            n <= objects_in_layer@.len(),
            target@.len() == MAP_BYTES,
            start == layer_view(old(target)@),
            place_objects(start, objects_in_layer@, built, n as int) == Ok::<GridView, MapErrorView>(
                layer_view(target@),
            ),
        decreases objects_in_layer@.len() - n,
    {
        let object = &objects_in_layer[n];
        let key = match object_key(object) {
            Ok(k) => k,
            Err(e) => {
                proof {
                    lemma_place_objects_err_stable(
                        start,
                        objects_in_layer@,
                        built,
                        n + 1,
                        objects_in_layer@.len() as int,
                    );
                }
                return Err(e);
            },
        };
        if definition(key).is_none() {
            proof {
                lemma_place_objects_err_stable(
                    start,
                    objects_in_layer@,
                    built,
                    n + 1,
                    objects_in_layer@.len() as int,
                );
            }
            return Err(MapError::UnknownKey(String::from_str(key)));
        }
        let tx = object.tile_x;
        let ty = object.tile_y;
        let i = match World::index(tx, ty) {
            Some(i) => i,
            None => {
                proof {
                    lemma_place_objects_err_stable(
                        start,
                        objects_in_layer@,
                        built,
                        n + 1,
                        objects_in_layer@.len() as int,
                    );
                }
                return Err(MapError::OutsideMap { key, tx, ty });
            },
        };
        let stage = match object_u8_property(object, "stage") {
            Some(s) => s,
            None => 0,
        };
        target.set(i, Some(ObjectPlacement { key, stage, built }));
        proof {
            assert(place_objects(start, objects_in_layer@, built, n + 1) == Ok::<
                GridView,
                MapErrorView,
            >(layer_view(target@))) by {
                assert(layer_view(target@) =~= place_objects(
                    start,
                    objects_in_layer@,
                    built,
                    n as int,
                )->Ok_0.update(i as int, Some((key@, stage, built))));
            }
        }
        n = n + 1;
    }
    Ok(())
}

/// The layers gathered so far while reading a map.
pub struct MapBuild {
    pub full: Option<Seq<u8>>,
    pub borders: Option<Seq<u8>>,
    pub rocks: Option<Seq<u8>>,
    pub objects: GridView,
    pub decor: GridView,
}

/// No tile layer read yet, and empty placement layers.
pub open spec fn empty_build() -> MapBuild {
    MapBuild {
        full: None,
        borders: None,
        rocks: None,
        objects: Seq::new(MAP_BYTES as nat, |i: int| None),
        decor: Seq::new(MAP_BYTES as nat, |i: int| None),
    }
}

/// Read one layer by its name: the terrain, borders and rocks tile layers,
/// the objects, animals and markers object layers onto the objects layer,
/// and the decor object layer; other layers are ignored. A later layer of
/// the same tile kind replaces an earlier one.
pub open spec fn apply_layer(st: MapBuild, layer: MapLayer) -> Result<MapBuild, MapErrorView> {
    let name = layer.name@;
    if name == "terrain"@ {
        match tile_bytes_of(layer.data@, "terrain"@) {
            Ok(b) => Ok(MapBuild { full: Some(b), borders: st.borders, rocks: st.rocks, objects: st.objects, decor: st.decor }),
            Err(e) => Err(e),
        }
    } else if name == "borders"@ {
        match tile_bytes_of(layer.data@, "borders"@) {
            Ok(b) => Ok(MapBuild { full: st.full, borders: Some(b), rocks: st.rocks, objects: st.objects, decor: st.decor }),
            Err(e) => Err(e),
        }
    } else if name == "rocks"@ {
        match tile_bytes_of(layer.data@, "rocks"@) {
            Ok(b) => Ok(MapBuild { full: st.full, borders: st.borders, rocks: Some(b), objects: st.objects, decor: st.decor }),
            Err(e) => Err(e),
        }
    } else if name == "objects"@ || name == "animals"@ || name == "markers"@ {
        match place_objects(st.objects, layer.objects@, false, layer.objects@.len() as int) {
            Ok(g) => Ok(MapBuild { full: st.full, borders: st.borders, rocks: st.rocks, objects: g, decor: st.decor }),
            Err(e) => Err(e),
        }
    } else if name == "decor"@ {
        match place_objects(st.decor, layer.objects@, false, layer.objects@.len() as int) {
            Ok(g) => Ok(MapBuild { full: st.full, borders: st.borders, rocks: st.rocks, objects: st.objects, decor: g }),
            Err(e) => Err(e),
        }
    } else {
        Ok(st)
    }
}

/// The first `n` layers read in order, stopping at the first that fails.
pub open spec fn apply_layers(layers: Seq<MapLayer>, n: int) -> Result<MapBuild, MapErrorView>
    decreases n,
{
    if n <= 0 {
        Ok(empty_build())
    } else {
        match apply_layers(layers, n - 1) {
            Err(e) => Err(e),
            Ok(st) => apply_layer(st, layers[n - 1]),
        }
    }
}

proof fn lemma_apply_layers_err_stable(layers: Seq<MapLayer>, n: int, m: int)
    requires
        0 <= n <= m,
        apply_layers(layers, n) is Err,
    ensures
        apply_layers(layers, m) == apply_layers(layers, n),
    decreases m - n,
{
    if n < m {
        lemma_apply_layers_err_stable(layers, n, m - 1);
    }
}

/// The loaded layers, by content: terrain, borders, rocks, objects, decor.
pub type LoadedView = (Seq<u8>, Seq<u8>, Seq<u8>, GridView, GridView);

/// The result of reading a map: its size must be 540 x 540 tiles of
/// 16 x 16 pixels, every layer must read, and the terrain, borders and
/// rocks layers must all be present.
pub open spec fn map_result_of(
    width: usize,
    height: usize,
    tilewidth: usize,
    tileheight: usize,
    layers: Seq<MapLayer>,
) -> Result<LoadedView, MapErrorView> {
    if width != MAP_W || height != MAP_H || tilewidth != 16 || tileheight != 16 {
        Err(MapErrorView::WrongSize(width, height, tilewidth, tileheight))
    } else {
        match apply_layers(layers, layers.len() as int) {
            Err(e) => Err(e),
            Ok(st) => if st.full is None {
                Err(MapErrorView::MissingLayer("terrain"@))
            } else if st.borders is None {
                Err(MapErrorView::MissingLayer("borders"@))
            } else if st.rocks is None {
                Err(MapErrorView::MissingLayer("rocks"@))
            } else {
                Ok((st.full.unwrap(), st.borders.unwrap(), st.rocks.unwrap(), st.objects, st.decor))
            },
        }
    }
}

fn empty_placement_layer() -> (r: Vec<Option<ObjectPlacement>>)
    ensures
        r@.len() == MAP_BYTES,
        layer_view(r@) == Seq::new(MAP_BYTES as nat, |i: int| None::<(Seq<char>, u8, bool)>),
{
    let mut v: Vec<Option<ObjectPlacement>> = Vec::new();
    let mut i: usize = 0;
    while i < MAP_BYTES
        invariant
            i <= MAP_BYTES,
            v@.len() == i,
            forall|j: int| 0 <= j < i ==> #[trigger] v@[j] is None,
        decreases MAP_BYTES - i,
    {
        v.push(None);
        i = i + 1;
    }
    assert(layer_view(v@) =~= Seq::new(MAP_BYTES as nat, |i: int| None::<(Seq<char>, u8, bool)>));
    v
}

/// The layers gathered while reading a map.
struct LayerState {
    full: Option<Vec<u8>>,
    borders: Option<Vec<u8>>,
    rocks: Option<Vec<u8>>,
    objects: Vec<Option<ObjectPlacement>>,
    decor: Vec<Option<ObjectPlacement>>,
}

impl LayerState {
    spec fn build(&self) -> MapBuild {
        MapBuild {
            full: match self.full {
                Some(f) => Some(f@),
                None => None,
            },
            borders: match self.borders {
                Some(f) => Some(f@),
                None => None,
            },
            rocks: match self.rocks {
                Some(f) => Some(f@),
                None => None,
            },
            objects: layer_view(self.objects@),
            decor: layer_view(self.decor@),
        }
    }

    spec fn sized(&self) -> bool {
        &&& self.objects@.len() == MAP_BYTES
        &&& self.decor@.len() == MAP_BYTES
        &&& self.full matches Some(f) ==> f@.len() == MAP_BYTES
        &&& self.borders matches Some(f) ==> f@.len() == MAP_BYTES
        &&& self.rocks matches Some(f) ==> f@.len() == MAP_BYTES
    }
}

/// Read one layer into the gathered state.
fn read_layer(st: &mut LayerState, layer: &MapLayer) -> (r: Result<(), MapError>)
    requires
        old(st).sized(),
    ensures
        final(st).sized(),
        match apply_layer(old(st).build(), *layer) {
            Ok(b) => r is Ok && final(st).build() == b,
            Err(e) => r matches Err(err) && err@ == e,
        },
{
    let name = layer.name.as_str();
    if str_eq(name, "terrain") {
        let b = tile_data_to_bytes(&layer.data, "terrain")?;
        st.full = Some(b);
        Ok(())
    } else if str_eq(name, "borders") {
        let b = tile_data_to_bytes(&layer.data, "borders")?;
        st.borders = Some(b);
        Ok(())
    } else if str_eq(name, "rocks") {
        let b = tile_data_to_bytes(&layer.data, "rocks")?;
        st.rocks = Some(b);
        Ok(())
    } else if str_eq(name, "objects") || str_eq(name, "animals") || str_eq(name, "markers") {
        proof {
            lemma_place_objects_len(layer_view(st.objects@), layer.objects@, false, layer.objects@.len() as int);
        }
        load_object_layer(&mut st.objects, &layer.objects, false)
    } else if str_eq(name, "decor") {
        proof {
            lemma_place_objects_len(layer_view(st.decor@), layer.objects@, false, layer.objects@.len() as int);
        }
        load_object_layer(&mut st.decor, &layer.objects, false)
    } else {
        Ok(())
    }
}

/// Read the layers of a map file of the given size.
pub fn parse_tiled_map(
    width: usize,
    height: usize,
    tilewidth: usize,
    tileheight: usize,
    layers: &Vec<MapLayer>,
) -> (r: Result<LoadedTiledMap, MapError>)
    ensures
        match map_result_of(width, height, tilewidth, tileheight, layers@) {
            Ok(v) => r matches Ok(m) && m.full@ == v.0 && m.borders@ == v.1 && m.rocks@ == v.2
                && layer_view(m.objects@) == v.3 && layer_view(m.decor@) == v.4
                && m.full@.len() == MAP_BYTES && m.borders@.len() == MAP_BYTES
                && m.rocks@.len() == MAP_BYTES && m.objects@.len() == MAP_BYTES
                && m.decor@.len() == MAP_BYTES,
            Err(e) => r matches Err(err) && err@ == e,
        },
        r matches Ok(m) ==> registered_layer(m.objects@) && registered_layer(m.decor@),
{
    proof {
        lemma_loaded_placements_registered(width, height, tilewidth, tileheight, layers@);
    }
    if width != MAP_W || height != MAP_H || tilewidth != 16 || tileheight != 16 {
        return Err(MapError::WrongSize { width, height, tilewidth, tileheight });
    }
    let mut st = LayerState {
        full: None,
        borders: None,
        rocks: None,
        objects: empty_placement_layer(),
        decor: empty_placement_layer(),
    };
    assert(st.build() == empty_build());
    let mut n: usize = 0;
    while n < layers.len()
        invariant
            width == MAP_W && height == MAP_H && tilewidth == 16 && tileheight == 16,
            n <= layers@.len(),
            st.sized(),
            apply_layers(layers@, n as int) == Ok::<MapBuild, MapErrorView>(st.build()),
        decreases layers@.len() - n,
    {
        let ghost before = st.build();
        match read_layer(&mut st, &layers[n]) {
            Ok(()) => {},
            Err(e) => {
                proof {
                    assert(apply_layers(layers@, n + 1) == apply_layer(before, layers@[n as int]));
                    assert(apply_layers(layers@, n + 1) is Err);
                    lemma_apply_layers_err_stable(layers@, n + 1, layers@.len() as int);
                }
                return Err(e);
            },
        }
        n = n + 1;
    }
    let LayerState { full, borders, rocks, objects, decor } = st;
    let full = match full {
        Some(f) => f,
        None => return Err(MapError::MissingLayer("terrain")),
    };
    let borders = match borders {
        Some(f) => f,
        None => return Err(MapError::MissingLayer("borders")),
    };
    let rocks = match rocks {
        Some(f) => f,
        None => return Err(MapError::MissingLayer("rocks")),
    };
    proof {
        assert forall|i: int| 0 <= i < objects@.len() implies (#[trigger] objects@[i] matches Some(p)
            ==> definition_of(p.key@) is Some) by {
            assert(layer_view(objects@)[i] == placement_view(objects@[i]));
        }
        assert forall|i: int| 0 <= i < decor@.len() implies (#[trigger] decor@[i] matches Some(p)
            ==> definition_of(p.key@) is Some) by {
            assert(layer_view(decor@)[i] == placement_view(decor@[i]));
        }
    }
    Ok(LoadedTiledMap { full, borders, rocks, objects, decor })
}

/// Every placement of a layer view names a key the registry knows.
pub open spec fn registered_view(g: GridView) -> bool {
    forall|i: int| 0 <= i < g.len() ==> (#[trigger] g[i] matches Some(t) ==> definition_of(t.0) is Some)
}

proof fn lemma_place_object_registered(grid: GridView, obj: MapObject, built: bool)
    requires
        registered_view(grid),
        grid.len() == MAP_BYTES,
    ensures
        place_object(grid, obj, built) matches Ok(g) ==> registered_view(g),
{
    if let Ok(k) = object_key_of(obj) {
        if definition_of(k) is Some {
            if let Some(idx) = tile_index(obj.tile_x, obj.tile_y) {
                let stage = match first_byte_property(
                    obj.properties@,
                    "stage"@,
                    obj.properties@.len() as int,
                ) {
                    Some(b) => b,
                    None => 0,
                };
                let g2 = grid.update(idx as int, Some((k, stage, built)));
                assert(place_object(grid, obj, built) == Ok::<GridView, MapErrorView>(g2));
                assert forall|i: int| 0 <= i < g2.len() implies (#[trigger] g2[i] matches Some(t)
                    ==> definition_of(t.0) is Some) by {
                    if i != idx as int {
                        assert(grid[i] matches Some(t) ==> definition_of(t.0) is Some);
                    }
                }
            }
        }
    }
}

proof fn lemma_place_objects_registered(grid: GridView, objs: Seq<MapObject>, built: bool, n: int)
    requires
        registered_view(grid),
        grid.len() == MAP_BYTES,
    ensures
        place_objects(grid, objs, built, n) matches Ok(g) ==> registered_view(g),
    decreases n,
{
    if n > 0 {
        lemma_place_objects_registered(grid, objs, built, n - 1);
        lemma_place_objects_len(grid, objs, built, n - 1);
        if let Ok(g) = place_objects(grid, objs, built, n - 1) {
            lemma_place_object_registered(g, objs[n - 1], built);
        }
    }
}

proof fn lemma_apply_layers_registered(layers: Seq<MapLayer>, n: int)
    ensures
        apply_layers(layers, n) matches Ok(st) ==> registered_view(st.objects) && registered_view(
            st.decor,
        ) && st.objects.len() == MAP_BYTES && st.decor.len() == MAP_BYTES,
    decreases n,
{
    if n <= 0 {
        assert(registered_view(empty_build().objects));
        assert(registered_view(empty_build().decor));
    } else {
        lemma_apply_layers_registered(layers, n - 1);
        if let Ok(st) = apply_layers(layers, n - 1) {
            let layer = layers[n - 1];
            lemma_place_objects_len(st.objects, layer.objects@, false, layer.objects@.len() as int);
            lemma_place_objects_len(st.decor, layer.objects@, false, layer.objects@.len() as int);
            lemma_place_objects_registered(
                st.objects,
                layer.objects@,
                false,
                layer.objects@.len() as int,
            );
            lemma_place_objects_registered(st.decor, layer.objects@, false, layer.objects@.len() as int);
        }
    }
}

/// Every object and decor placement of a map that reads without error names
/// a key the registry knows.
pub proof fn lemma_loaded_placements_registered(
    width: usize,
    height: usize,
    tilewidth: usize,
    tileheight: usize,
    layers: Seq<MapLayer>,
)
    ensures
        map_result_of(width, height, tilewidth, tileheight, layers) matches Ok(v) ==> registered_view(v.3)
            && registered_view(v.4),
{
    lemma_apply_layers_registered(layers, layers.len() as int);
}

/// A placement counts as player-built on load: a structure other than the
/// barrel (the barrel on the map is wreckage, not a building).
pub open spec fn built_on_load(p: Option<ObjectPlacement>) -> bool {
    &&& p matches Some(pl)
    &&& definition_of(pl.key@) matches Some(d)
    &&& d.interaction is Structure
    &&& pl.key@ != "barrel"@
}

fn copy_bytes(v: &Vec<u8>) -> (r: Vec<u8>)
    ensures
        r@ == v@,
{
    let mut out: Vec<u8> = Vec::new();
    let mut i: usize = 0;
    while i < v.len()
        invariant
            i <= v@.len(),
            out@ == v@.take(i as int),
        decreases v@.len() - i,
    {
        out.push(v[i]);
        proof {
            assert(v@.take(i + 1) =~= v@.take(i as int).push(v@[i as int]));
        }
        i = i + 1;
    }
    assert(v@.take(v@.len() as int) =~= v@);
    out
}

impl World {
    /// The world of a freshly loaded map: the map's layers, the original
    /// terrain and coast kept for the tide, high water that is not rising,
    /// and every structure on the map (but the barrel) counted as built.
    pub fn from_loaded_map(map: LoadedTiledMap) -> (r: World)
        requires
            map.full@.len() == MAP_BYTES,
            map.borders@.len() == MAP_BYTES,
            map.rocks@.len() == MAP_BYTES,
            map.objects@.len() == MAP_BYTES,
            map.decor@.len() == MAP_BYTES,
        ensures
            r.wf(),
            r.full@ == map.full@,
            r.original_full@ == map.full@,
            r.borders@ == map.borders@,
            r.original_borders@ == map.borders@,
            r.rocks@ == map.rocks@,
            r.decor@ == map.decor@,
            forall|i: int|
                0 <= i < MAP_BYTES ==> #[trigger] r.objects@[i] == if built_on_load(map.objects@[i]) {
                    Some(ObjectPlacement { built: true, ..map.objects@[i].unwrap() })
                } else {
                    map.objects@[i]
                },
            r.player_built@ == Set::new(|i: usize| i < MAP_BYTES && built_on_load(map.objects@[i as int])),
            !r.tide_low,
            !r.tide_rising,
            registered_layer(map.objects@) ==> registered_layer(r.objects@),
            registered_layer(map.decor@) ==> registered_layer(r.decor@),
    {
        let original_full = copy_bytes(&map.full);
        let original_borders = copy_bytes(&map.borders);
        let mut objects = map.objects;
        let ghost start = objects@;
        let mut player_built: HashSet<usize> = HashSet::new();
        let mut i: usize = 0;
        while i < objects.len()
            invariant
                i <= MAP_BYTES,
                objects@.len() == MAP_BYTES,
                start.len() == MAP_BYTES,
                forall|j: int|
                    0 <= j < i ==> #[trigger] objects@[j] == if built_on_load(start[j]) {
                        Some(ObjectPlacement { built: true, ..start[j].unwrap() })
                    } else {
                        start[j]
                    },
                forall|j: int| i <= j < MAP_BYTES ==> #[trigger] objects@[j] == start[j],
                player_built@ == Set::new(|j: usize| j < i && built_on_load(start[j as int])),
            decreases MAP_BYTES - i,
        {
            if let Some(placement) = objects[i] {
                let is_structure = match definition(placement.key) {
                    Some(def) => match def.interaction {
                        Interaction::Structure(_) => true,
                        _ => false,
                    },
                    None => false,
                };
                if is_structure && !str_eq(placement.key, "barrel") {
                    objects.set(i, Some(ObjectPlacement { key: placement.key, stage: placement.stage, built: true }));
                    player_built.insert(i);
                }
            }
            proof {
                assert(player_built@ =~= Set::new(|j: usize| j < i + 1 && built_on_load(start[j as int])));
            }
            i = i + 1;
        }
        World {
            full: map.full,
            borders: map.borders,
            decor: map.decor,
            objects,
            rocks: map.rocks,
            original_full,
            original_borders,
            tide_low: false,
            tide_rising: false,
            player_built,
        }
    }
}

} // verus!
