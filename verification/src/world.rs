//! The island map: terrain and coast bytes, the named objects and decor
//! placed on it, the rocks layer, the tide that floods the shallows, and the
//! rules for what can be walked on, picked up and built.

use vstd::prelude::*;
use std::collections::HashSet;
use crate::inventory::Item;
use crate::objects::{
    Interaction, KeyTable, ObjectPlacement, definition, definition_of, first_item_key,
    key_for_item, key_position, lemma_marker_keys_are_not_tabled, object_item_entry,
    OBJECT_ITEM_KEY_COUNT,
};
use crate::text::str_eq;
use crate::atlas::{SpriteId, packed_sprite};

verus! {

broadcast use vstd::std_specs::hash::group_hash_axioms;

/// Map width in tiles.
pub const MAP_W: usize = 540;

/// Map height in tiles.
pub const MAP_H: usize = 540;

/// Number of tiles of the map.
pub const MAP_BYTES: usize = 291600;

/// Base terrain categories, used for walkability.
#[derive(Debug, Clone, Copy, PartialEq, Eq, Structural)]
pub enum Terrain {
    /// Out of bounds.
    Empty,
    Sand,
    Grass,
    Dirt,
    Forest,
    ShallowWater,
    DeepWater,
    LilyWater,
}

/// Whether a terrain can be walked on: all water blocks, everything else
/// passes.
pub open spec fn terrain_walkable(t: Terrain) -> bool {
    !matches!(t, Terrain::ShallowWater | Terrain::DeepWater | Terrain::LilyWater)
}

impl Terrain {
    /// Can the player walk on this terrain? All water blocks; everything
    /// else passes.
    pub fn walkable(self) -> (r: bool)
        ensures
            r == terrain_walkable(self),
    {
        !matches!(self, Terrain::ShallowWater | Terrain::DeepWater | Terrain::LilyWater)
    }
}

/// The terrain category of a raw terrain byte.
pub open spec fn terrain_of(id: u8) -> Terrain {
    match id {
        0 | 8 => Terrain::Sand,
        1 | 9 => Terrain::Grass,
        2 | 10 => Terrain::Dirt,
        3 | 11 => Terrain::Forest,
        4 | 5 | 6 => Terrain::ShallowWater,
        7 | 15 => Terrain::Dirt,
        12 | 13 => Terrain::LilyWater,
        14 => Terrain::DeepWater,
        _ => Terrain::Empty,
    }
}

/// Map a raw terrain byte to its walkability category.
pub fn classify_terrain(id: u8) -> (r: Terrain)
    ensures
        r == terrain_of(id),
{
    match id {
        0 | 8 => Terrain::Sand,
        1 | 9 => Terrain::Grass,
        2 | 10 => Terrain::Dirt,
        3 | 11 => Terrain::Forest,
        4 | 5 | 6 => Terrain::ShallowWater,
        7 | 15 => Terrain::Dirt,  // dark earth, walkable
        12 | 13 => Terrain::LilyWater,
        14 => Terrain::DeepWater,
        _ => Terrain::Empty,
    }
}

/// How far the tide has gone out: high water (water level at least 0.67 of
/// full), half-way (at least 0.34), or low water.
#[derive(Debug, Clone, Copy, PartialEq, Eq, Structural)]
pub enum TideStage {
    High,
    Mid,
    Low,
}

/// The terrain byte a tile shows at a tide stage: the shallows (4, 5, 6)
/// dry out one band at a time as the water recedes.
pub open spec fn tide_full_of(original: u8, stage: TideStage) -> u8 {
    match stage {
        TideStage::High => original,
        TideStage::Mid => match original {
            4 => 0,
            5 => 4,
            _ => original,
        },
        TideStage::Low => match original {
            4 => 0,
            5 => 4,
            6 => 5,
            _ => original,
        },
    }
}

/// The coast border byte a tile shows at a tide stage.
pub open spec fn tide_border_of(original: u8, stage: TideStage) -> u8 {
    match stage {
        TideStage::High => original,
        TideStage::Mid => match original {
            7 => 0,
            19 => 7,
            6 => 0,
            18 => 6,
            5 => 0,
            17 => 5,
            _ => original,
        },
        TideStage::Low => match original {
            7 => 0,
            19 => 7,
            22 => 19,
            6 => 0,
            18 => 6,
            21 => 18,
            5 => 0,
            17 => 5,
            20 => 17,
            _ => original,
        },
    }
}

/// The terrain byte of a tile at a tide stage.
pub fn tide_full_byte(original: u8, stage: TideStage) -> (r: u8)
    ensures
        r == tide_full_of(original, stage),
{
    match stage {
        TideStage::High => original,
        TideStage::Mid => match original {
            4 => 0,
            5 => 4,
            _ => original,
        },
        TideStage::Low => match original {
            4 => 0,
            5 => 4,
            6 => 5,
            _ => original,
        },
    }
}

/// The coast border byte of a tile at a tide stage.
pub fn tide_border_byte(original: u8, stage: TideStage) -> (r: u8)
    ensures
        r == tide_border_of(original, stage),
{
    match stage {
        TideStage::High => original,
        TideStage::Mid => match original {
            7 => 0,
            19 => 7,
            6 => 0,
            18 => 6,
            5 => 0,
            17 => 5,
            _ => original,
        },
        TideStage::Low => match original {
            7 => 0,
            19 => 7,
            22 => 19,
            6 => 0,
            18 => 6,
            21 => 18,
            5 => 0,
            17 => 5,
            20 => 17,
            _ => original,
        },
    }
}

/// The tile number of map coordinates, when they lie on the map.
pub open spec fn tile_index(x: i32, y: i32) -> Option<usize> {
    if 0 <= x < MAP_W && 0 <= y < MAP_H {
        Some((y * MAP_W + x) as usize)
    } else {
        None
    }
}

/// Whether a rocks-layer byte stands for a rock that blocks the way.
pub open spec fn rock_blocks(rid: u8) -> bool {
    1 <= rid <= 48 && !matches!(
        rid,
        10 | 11 | 12 | 18 | 20 | 22 | 23 | 24 | 30 | 31 | 32 | 38 | 41 | 42 | 43 | 44 | 45 | 46 | 47
    )
}

/// Whether asking for the low (or high) tide target changes the world's
/// current target.
pub open spec fn tide_target_changes(w: World, low: bool) -> bool {
    w.tide_low != low
}

/// Whether a key names something that blocks movement.
pub open spec fn key_blocks(k: Seq<char>) -> bool {
    definition_of(k) matches Some(d) && d.blocking
}

/// What picking up a key's object yields, when it can be picked up.
pub open spec fn pickup_of(k: Seq<char>) -> Option<Interaction> {
    match definition_of(k) {
        Some(d) => if d.interaction is Pickup {
            Some(d.interaction)
        } else {
            None
        },
        None => None,
    }
}

/// The terrain and coast layers stay as bytes per tile; objects and decor
/// are named placements resolved through the object registry. The tide is
/// low or high; the clock that moves the water reports whether it is
/// rising, and the stage the shallows show.
pub struct World {
    pub full: Vec<u8>,
    pub borders: Vec<u8>,
    pub decor: Vec<Option<ObjectPlacement>>,
    pub objects: Vec<Option<ObjectPlacement>>,
    pub rocks: Vec<u8>,
    pub original_full: Vec<u8>,
    pub original_borders: Vec<u8>,
    pub tide_low: bool,
    pub tide_rising: bool,
    pub player_built: HashSet<usize>,
}

impl World {
    /// Every layer has one entry per tile.
    pub open spec fn wf(&self) -> bool {
        &&& self.full.len() == MAP_BYTES
        &&& self.borders.len() == MAP_BYTES
        &&& self.decor.len() == MAP_BYTES
        &&& self.objects.len() == MAP_BYTES
        &&& self.rocks.len() == MAP_BYTES
        &&& self.original_full.len() == MAP_BYTES
        &&& self.original_borders.len() == MAP_BYTES
    }

    /// The terrain byte of a tile, or 0 off the map.
    pub open spec fn full_byte_at(&self, x: i32, y: i32) -> u8 {
        match tile_index(x, y) {
            Some(i) => self.full@[i as int],
            None => 0,
        }
    }

    /// The object placed on a tile.
    pub open spec fn object_placement_at(&self, x: i32, y: i32) -> Option<ObjectPlacement> {
        match tile_index(x, y) {
            Some(i) => self.objects@[i as int],
            None => None,
        }
    }

    /// The decor placed on a tile.
    pub open spec fn decor_placement_at(&self, x: i32, y: i32) -> Option<ObjectPlacement> {
        match tile_index(x, y) {
            Some(i) => self.decor@[i as int],
            None => None,
        }
    }

    /// A shallow-water tile that the tide currently covers.
    pub open spec fn flooded_by_tide(&self, x: i32, y: i32) -> bool {
        match tile_index(x, y) {
            Some(i) => self.original_full@[i as int] == 4 && !terrain_walkable(
                terrain_of(self.full@[i as int]),
            ),
            None => false,
        }
    }

    /// The object on a tile, when it blocks movement.
    pub open spec fn blocking_object(&self, x: i32, y: i32) -> Option<ObjectPlacement> {
        match self.object_placement_at(x, y) {
            Some(p) => if key_blocks(p.key@) {
                Some(p)
            } else {
                None
            },
            None => None,
        }
    }

    /// A blocking rock lies on the tile.
    pub open spec fn rock_blocks_tile(&self, x: i32, y: i32) -> bool {
        match tile_index(x, y) {
            Some(i) => rock_blocks(self.rocks@[i as int]),
            None => false,
        }
    }

    /// Blocking decor lies on the tile.
    pub open spec fn decor_blocks_tile(&self, x: i32, y: i32) -> bool {
        match self.decor_placement_at(x, y) {
            Some(p) => key_blocks(p.key@),
            None => false,
        }
    }

    /// Nothing on the tile stands in the way: no blocking object, rock or decor.
    pub open spec fn tile_clear(&self, x: i32, y: i32) -> bool {
        &&& self.blocking_object(x, y) is None
        &&& !self.rock_blocks_tile(x, y)
        &&& !self.decor_blocks_tile(x, y)
    }

    /// An animal or the player may stand on the tile at dry conditions.
    pub open spec fn is_walkable_tile(&self, x: i32, y: i32) -> bool {
        terrain_walkable(terrain_of(self.full_byte_at(x, y))) && self.tile_clear(x, y)
    }

    /// The player may stand on the tile: as above, and flooded shallows too
    /// while the tide is rising, so the player can wade out.
    pub open spec fn is_player_walkable_tile(&self, x: i32, y: i32) -> bool {
        (terrain_walkable(terrain_of(self.full_byte_at(x, y))) || (self.tide_rising
            && self.flooded_by_tide(x, y))) && self.tile_clear(x, y)
    }

    /// The tile number of map coordinates, when they lie on the map.
    pub fn index(x: i32, y: i32) -> (r: Option<usize>)
        ensures
            r == tile_index(x, y),
            r matches Some(i) ==> i < MAP_BYTES,
    {
        if x < 0 || y < 0 || (x as usize) >= MAP_W || (y as usize) >= MAP_H {
            return None;
        }
        Some((y as usize) * MAP_W + (x as usize))
    }

    /// The terrain byte of a tile, or 0 off the map.
    pub fn raw_full(&self, x: i32, y: i32) -> (r: u8)
        requires
            self.wf(),
        ensures
            r == self.full_byte_at(x, y),
    {
        match Self::index(x, y) {
            Some(i) => self.full[i],
            None => 0,
        }
    }

    /// The terrain category of a tile.
    pub fn terrain_at(&self, x: i32, y: i32) -> (r: Terrain)
        requires
            self.wf(),
        ensures
            r == terrain_of(self.full_byte_at(x, y)),
    {
        classify_terrain(self.raw_full(x, y))
    }

    /// A shallow-water tile that the tide currently covers.
    pub fn is_tide_flooded(&self, x: i32, y: i32) -> (r: bool)
        requires
            self.wf(),
        ensures
            r == self.flooded_by_tide(x, y),
    {
        match Self::index(x, y) {
            Some(i) => self.original_full[i] == 4 && !classify_terrain(self.full[i]).walkable(),
            None => false,
        }
    }

    /// Whether the water is coming in.
    pub fn is_tide_rising(&self) -> (r: bool)
        ensures
            r == self.tide_rising,
    {
        self.tide_rising
    }

    /// Whether any object is placed on the tile.
    pub fn has_object(&self, x: i32, y: i32) -> (r: bool)
        requires
            self.wf(),
        ensures
            r == self.object_placement_at(x, y) is Some,
    {
        match Self::index(x, y) {
            Some(i) => self.objects[i].is_some(),
            None => false,
        }
    }

    /// The object on a tile when it blocks movement (trees and structures,
    /// not animals or markers).
    pub fn static_object_at(&self, x: i32, y: i32) -> (r: Option<&ObjectPlacement>)
        requires
            self.wf(),
        ensures
            match r {
                Some(p) => self.blocking_object(x, y) == Some(*p),
                None => self.blocking_object(x, y) is None,
            },
    {
        let i = match Self::index(x, y) {
            Some(i) => i,
            None => return None,
        };
        match &self.objects[i] {
            Some(placement) => match definition(placement.key) {
                Some(def) => if def.blocking {
                    Some(placement)
                } else {
                    None
                },
                None => None,
            },
            None => None,
        }
    }

    /// Whether a blocking rock lies on the tile.
    pub fn has_rock(&self, x: i32, y: i32) -> (r: bool)
        requires
            self.wf(),
        ensures
            r == self.rock_blocks_tile(x, y),
    {
        match Self::index(x, y) {
            Some(i) => {
                let rid = self.rocks[i];
                1 <= rid && rid <= 48 && !matches!(
                    rid,
                    10 | 11 | 12 | 18 | 20 | 22 | 23 | 24 | 30 | 31 | 32 | 38 | 41 | 42 | 43 | 44
                        | 45 | 46 | 47
                )
            },
            None => false,
        }
    }

    /// Whether blocking decor lies on the tile.
    pub fn has_decor(&self, x: i32, y: i32) -> (r: bool)
        requires
            self.wf(),
        ensures
            r == self.decor_blocks_tile(x, y),
    {
        match Self::index(x, y) {
            Some(i) => match &self.decor[i] {
                Some(placement) => match definition(placement.key) {
                    Some(def) => def.blocking,
                    None => false,
                },
                None => false,
            },
            None => false,
        }
    }

    /// Can something stand on this tile? Terrain must be walkable and no
    /// tree, structure, rock or blocking decor may stand there; animals and
    /// markers do not block.
    pub fn walkable(&self, x: i32, y: i32) -> (r: bool)
        requires
            self.wf(),
        ensures
            r == self.is_walkable_tile(x, y),
    {
        self.terrain_at(x, y).walkable() && self.static_object_at(x, y).is_none() && !self.has_rock(
            x,
            y,
        ) && !self.has_decor(x, y)
    }

    /// Can the player stand on this tile? As `walkable`, and flooded
    /// shallows also count while the tide is rising.
    pub fn walkable_for_player(&self, x: i32, y: i32) -> (r: bool)
        requires
            self.wf(),
        ensures
            r == self.is_player_walkable_tile(x, y),
    {
        (self.terrain_at(x, y).walkable() || (self.is_tide_rising() && self.is_tide_flooded(x, y)))
            && self.static_object_at(x, y).is_none() && !self.has_rock(x, y) && !self.has_decor(
            x,
            y,
        )
    }

    /// Remove a pickup object from a tile and report what it yields; any
    /// other object stays.
    pub fn consume_object(&mut self, x: i32, y: i32) -> (r: Option<Interaction>)
        requires
            old(self).wf(),
        ensures
            final(self).wf(),
            r == (match old(self).object_placement_at(x, y) {
                Some(p) => pickup_of(p.key@),
                None => None,
            }),
            r is Some ==> final(self).objects@ == old(self).objects@.update(
                tile_index(x, y).unwrap() as int,
                None,
            ),
            r is None ==> final(self).objects@ == old(self).objects@,
            r is Some ==> final(self).object_placement_at(x, y) is None,
            final(self).full@ == old(self).full@,
            final(self).borders@ == old(self).borders@,
            final(self).decor@ == old(self).decor@,
            final(self).rocks@ == old(self).rocks@,
            final(self).original_full@ == old(self).original_full@,
            final(self).original_borders@ == old(self).original_borders@,
            final(self).tide_low == old(self).tide_low,
            final(self).tide_rising == old(self).tide_rising,
            final(self).player_built == old(self).player_built,
    {
        let i = match Self::index(x, y) {
            Some(i) => i,
            None => return None,
        };
        let placement = match self.objects[i] {
            Some(p) => p,
            None => return None,
        };
        let def = match definition(placement.key) {
            Some(d) => d,
            None => return None,
        };
        match def.interaction {
            Interaction::Pickup(_, _) => {},
            _ => return None,
        }
        self.objects.set(i, None);
        Some(def.interaction)
    }

    /// Whether a built structure of an item stands within `radius` tiles
    /// (a square) of a tile. Items with no map key never count.
    pub fn has_structure_near(&self, tx: i32, ty: i32, structure_item: Item, radius: i32) -> (r: bool)
        requires
            self.wf(),
            i32::MIN <= tx - radius,
            tx + radius <= i32::MAX,
            i32::MIN <= ty - radius,
            ty + radius <= i32::MAX,
            i32::MIN < radius < i32::MAX,
        ensures
            r == (match first_item_key(OBJECT_ITEM_KEY_COUNT, structure_item) {
                Some(j) => self.structure_near(tx, ty, object_item_entry(j).0, radius),
                None => false,
            }),
    {
        let structure_key = match key_for_item(structure_item) {
            Some(k) => k,
            None => return false,
        };
        let ghost key = structure_key@;
        assert(first_item_key(OBJECT_ITEM_KEY_COUNT, structure_item) is Some);
        assert(key == object_item_entry(first_item_key(OBJECT_ITEM_KEY_COUNT, structure_item).unwrap()).0);
        if radius < 0 {
            return false;
        }
        let mut dy: i32 = -radius;
        while dy <= radius
            invariant
                self.wf(),
                key == structure_key@,
                first_item_key(OBJECT_ITEM_KEY_COUNT, structure_item) is Some,
                key == object_item_entry(first_item_key(OBJECT_ITEM_KEY_COUNT, structure_item).unwrap()).0,
                0 <= radius < i32::MAX,
                -radius <= dy <= radius + 1,
                i32::MIN <= ty - radius,
                ty + radius <= i32::MAX,
                i32::MIN <= tx - radius,
                tx + radius <= i32::MAX,
                forall|ddx: int, ddy: int|
                    -radius <= ddx <= radius && -radius <= ddy < dy ==> !#[trigger] self.key_at_offset(
                        tx,
                        ty,
                        ddx,
                        ddy,
                        key,
                    ),
            decreases radius + 1 - dy,
        {
            let mut dx: i32 = -radius;
            while dx <= radius
                invariant
                    self.wf(),
                    key == structure_key@,
                    first_item_key(OBJECT_ITEM_KEY_COUNT, structure_item) is Some,
                    key == object_item_entry(first_item_key(OBJECT_ITEM_KEY_COUNT, structure_item).unwrap()).0,
                    0 <= radius < i32::MAX,
                    -radius <= dy <= radius,
                    -radius <= dx <= radius + 1,
                    i32::MIN <= ty - radius,
                    ty + radius <= i32::MAX,
                    i32::MIN <= tx - radius,
                    tx + radius <= i32::MAX,
                    forall|ddx: int, ddy: int|
                        -radius <= ddx <= radius && -radius <= ddy < dy ==> !#[trigger] self.key_at_offset(
                            tx,
                            ty,
                            ddx,
                            ddy,
                            key,
                        ),
                    forall|ddx: int|
                        -radius <= ddx < dx ==> !#[trigger] self.key_at_offset(tx, ty, ddx, dy as int, key),
                decreases radius + 1 - dx,
            {
                let x = tx + dx;
                let y = ty + dy;
                if let Some(idx) = Self::index(x, y) {
                    if let Some(placement) = &self.objects[idx] {
                        if str_eq(placement.key, structure_key) {
                            assert(self.key_at_offset(tx, ty, dx as int, dy as int, key));
                            assert(self.structure_near(tx, ty, key, radius));
                            return true;
                        }
                    }
                }
                assert(!self.key_at_offset(tx, ty, dx as int, dy as int, key));
                dx = dx + 1;
            }
            dy = dy + 1;
        }
        false
    }

    /// The object on the tile at offset `(dx, dy)` from `(tx, ty)` carries
    /// key `k`.
    pub open spec fn key_at_offset(&self, tx: i32, ty: i32, dx: int, dy: int, k: Seq<char>) -> bool {
        &&& i32::MIN <= tx + dx <= i32::MAX
        &&& i32::MIN <= ty + dy <= i32::MAX
        &&& self.object_placement_at((tx + dx) as i32, (ty + dy) as i32) matches Some(p)
        &&& p.key@ == k
    }

    /// An object with key `k` stands within the square of half-width
    /// `radius` around a tile.
    pub open spec fn structure_near(&self, tx: i32, ty: i32, k: Seq<char>, radius: i32) -> bool {
        exists|dx: int, dy: int|
            -radius <= dx <= radius && -radius <= dy <= radius && #[trigger] self.key_at_offset(
                tx,
                ty,
                dx,
                dy,
                k,
            )
    }

    /// The rocks layer is scenery and tutorial data, never an item layer:
    /// nothing is ever taken from it.
    pub fn consume_rock(&mut self, x: i32, y: i32) -> (r: Option<u8>)
        ensures
            r is None,
            *final(self) == *old(self),
    {
        let _ = Self::index(x, y);
        None
    }

    /// Remove pickup debris from a tile's decor and report what it yields;
    /// scenery stays.
    pub fn consume_decor(&mut self, x: i32, y: i32) -> (r: Option<Interaction>)
        requires
            old(self).wf(),
        ensures
            final(self).wf(),
            r == (match old(self).decor_placement_at(x, y) {
                Some(p) => pickup_of(p.key@),
                None => None,
            }),
            r is Some ==> final(self).decor@ == old(self).decor@.update(
                tile_index(x, y).unwrap() as int,
                None,
            ),
            r is None ==> final(self).decor@ == old(self).decor@,
            final(self).full@ == old(self).full@,
            final(self).borders@ == old(self).borders@,
            final(self).objects@ == old(self).objects@,
            final(self).rocks@ == old(self).rocks@,
            final(self).original_full@ == old(self).original_full@,
            final(self).original_borders@ == old(self).original_borders@,
            final(self).tide_low == old(self).tide_low,
            final(self).tide_rising == old(self).tide_rising,
            final(self).player_built == old(self).player_built,
    {
        let i = match Self::index(x, y) {
            Some(i) => i,
            None => return None,
        };
        let placement = match self.decor[i] {
            Some(p) => p,
            None => return None,
        };
        let def = match definition(placement.key) {
            Some(d) => d,
            None => return None,
        };
        match def.interaction {
            Interaction::Pickup(_, _) => {},
            _ => return None,
        }
        self.decor.set(i, None);
        Some(def.interaction)
    }

    /// The object placed on a tile.
    pub fn object_at(&self, x: i32, y: i32) -> (r: Option<&ObjectPlacement>)
        requires
            self.wf(),
        ensures
            match r {
                Some(p) => self.object_placement_at(x, y) == Some(*p),
                None => self.object_placement_at(x, y) is None,
            },
    {
        match Self::index(x, y) {
            Some(i) => self.objects[i].as_ref(),
            None => None,
        }
    }

    /// The decor placed on a tile.
    pub fn decor_at(&self, x: i32, y: i32) -> (r: Option<&ObjectPlacement>)
        requires
            self.wf(),
        ensures
            match r {
                Some(p) => self.decor_placement_at(x, y) == Some(*p),
                None => self.decor_placement_at(x, y) is None,
            },
    {
        match Self::index(x, y) {
            Some(i) => self.decor[i].as_ref(),
            None => None,
        }
    }

    /// Place an object by key on a tile, replacing what stood there, and
    /// record it as player-built when `built` is set. Nothing happens off
    /// the map or for an unknown key.
    pub fn place_object_key(&mut self, x: i32, y: i32, key: &'static str, built: bool) -> (r: bool)
        requires
            old(self).wf(),
        ensures
            final(self).wf(),
            r == (tile_index(x, y) is Some && definition_of(key@) is Some),
            r ==> final(self).objects@ == old(self).objects@.update(
                tile_index(x, y).unwrap() as int,
                Some(ObjectPlacement { key, stage: 0, built }),
            ),
            !r ==> final(self).objects@ == old(self).objects@,
            r ==> final(self).object_placement_at(x, y) == Some(
                ObjectPlacement { key, stage: 0, built },
            ),
            r && built ==> final(self).player_built@ == old(self).player_built@.insert(
                tile_index(x, y).unwrap(),
            ),
            !(r && built) ==> final(self).player_built@ == old(self).player_built@,
            final(self).full@ == old(self).full@,
            final(self).borders@ == old(self).borders@,
            final(self).decor@ == old(self).decor@,
            final(self).rocks@ == old(self).rocks@,
            final(self).original_full@ == old(self).original_full@,
            final(self).original_borders@ == old(self).original_borders@,
            final(self).tide_low == old(self).tide_low,
            final(self).tide_rising == old(self).tide_rising,
    {
        let i = match Self::index(x, y) {
            Some(i) => i,
            None => return false,
        };
        if definition(key).is_none() {
            return false;
        }
        self.objects.set(i, Some(ObjectPlacement { key, stage: 0, built }));
        if built {
            self.player_built.insert(i);
        }
        true
    }

    /// The tile where a new game starts.
    pub fn spawn_tile(&self) -> (r: (i32, i32))
        ensures
            r == (8i32, 148i32),
    {
        (8, 148)
    }

    /// Switch the tide between low and high water; report whether it changed.
    pub fn set_tide_target(&mut self, low: bool) -> (r: bool)
        ensures
            r == tide_target_changes(*old(self), low),
            final(self).tide_low == low,
            final(self).full == old(self).full,
            final(self).borders == old(self).borders,
            final(self).decor == old(self).decor,
            final(self).objects == old(self).objects,
            final(self).rocks == old(self).rocks,
            final(self).original_full == old(self).original_full,
            final(self).original_borders == old(self).original_borders,
            final(self).tide_rising == old(self).tide_rising,
            final(self).player_built == old(self).player_built,
    {
        if self.tide_low == low {
            return false;
        }
        self.tide_low = low;
        true
    }

    /// Show every tile's terrain and coast as they look at a tide stage.
    pub fn apply_tide_stage(&mut self, stage: TideStage)
        requires
            old(self).wf(),
        ensures
            final(self).wf(),
            forall|i: int|
                0 <= i < MAP_BYTES ==> #[trigger] final(self).full@[i] == tide_full_of(
                    old(self).original_full@[i],
                    stage,
                ),
            forall|i: int|
                0 <= i < MAP_BYTES ==> #[trigger] final(self).borders@[i] == tide_border_of(
                    old(self).original_borders@[i],
                    stage,
                ),
            stage == TideStage::High ==> final(self).full@ == old(self).original_full@
                && final(self).borders@ == old(self).original_borders@,
            final(self).decor@ == old(self).decor@,
            final(self).objects@ == old(self).objects@,
            final(self).rocks@ == old(self).rocks@,
            final(self).original_full@ == old(self).original_full@,
            final(self).original_borders@ == old(self).original_borders@,
            final(self).tide_low == old(self).tide_low,
            final(self).tide_rising == old(self).tide_rising,
            final(self).player_built == old(self).player_built,
    {
        let mut i: usize = 0;
        while i < self.full.len()
            invariant
                self.wf(),
                i <= MAP_BYTES,
                self.decor@ == old(self).decor@,
                self.objects@ == old(self).objects@,
                self.rocks@ == old(self).rocks@,
                self.original_full@ == old(self).original_full@,
                self.original_borders@ == old(self).original_borders@,
                self.tide_low == old(self).tide_low,
                self.tide_rising == old(self).tide_rising,
                self.player_built == old(self).player_built,
                forall|j: int|
                    0 <= j < i ==> #[trigger] self.full@[j] == tide_full_of(
                        self.original_full@[j],
                        stage,
                    ),
                forall|j: int|
                    0 <= j < i ==> #[trigger] self.borders@[j] == tide_border_of(
                        self.original_borders@[j],
                        stage,
                    ),
            decreases MAP_BYTES - i,
        {
            let f = tide_full_byte(self.original_full[i], stage);
            self.full.set(i, f);
            let b = tide_border_byte(self.original_borders[i], stage);
            self.borders.set(i, b);
            i = i + 1;
        }
        if stage == TideStage::High {
            assert(self.full@ =~= old(self).original_full@);
            assert(self.borders@ =~= old(self).original_borders@);
        }
    }
}

/// The coast sprites, packed as `(sheet << 16) | sprite`, of border bytes 1
/// to 22.
pub open spec fn border_palette(i: usize) -> i32 {
    match i {
        0 => 524288,
        1 => 524289,
        2 => 524290,
        3 => 524291,
        4 => 720896,
        5 => 720897,
        6 => 720898,
        7 => 524292,
        8 => 524293,
        9 => 524294,
        10 => 524295,
        11 => 524296,
        12 => 524297,
        13 => 524298,
        14 => 524299,
        15 => 524300,
        16 => 720899,
        17 => 720900,
        18 => 720901,
        19 => 720902,
        20 => 720903,
        21 => 720904,
        _ => 0,
    }
}

/// The packed coast sprite of a border palette entry.
fn border_palette_entry(i: usize) -> (r: i32)
    requires
        i < BORDER_PALETTE_LEN,
    ensures
        r == border_palette(i),
        r > 0,
{
    match i {
        0 => 524288,
        1 => 524289,
        2 => 524290,
        3 => 524291,
        4 => 720896,
        5 => 720897,
        6 => 720898,
        7 => 524292,
        8 => 524293,
        9 => 524294,
        10 => 524295,
        11 => 524296,
        12 => 524297,
        13 => 524298,
        14 => 524299,
        15 => 524300,
        16 => 720899,
        17 => 720900,
        18 => 720901,
        19 => 720902,
        20 => 720903,
        21 => 720904,
        _ => 720904,
    }
}

/// Number of entries of the coast sprite palette.
pub const BORDER_PALETTE_LEN: usize = 22;

/// The sprite that draws a terrain byte: sprite `id` of sheet 1.
pub fn terrain_sprite(id: u8) -> (r: SpriteId)
    ensures
        r.0 == packed_sprite(1, id as u32),
{
    SpriteId::new(1, id as u32)
}

/// The sprite that draws a coast border byte: none for 0 or a byte past the
/// palette, else the palette entry of the byte.
pub fn border_sprite(bid: u8) -> (r: Option<SpriteId>)
    ensures
        bid == 0 || bid > BORDER_PALETTE_LEN ==> r is None,
        1 <= bid <= BORDER_PALETTE_LEN ==> (r matches Some(s) && s.0 == packed_sprite(
            (border_palette((bid - 1) as usize) / 0x1_0000) as u32,
            (border_palette((bid - 1) as usize) % 0x1_0000) as u32,
        )),
{
    if bid == 0 || (bid as usize) > BORDER_PALETTE_LEN {
        return None;
    }
    let val = border_palette_entry((bid - 1) as usize);
    let sheet = val >> 16u32;
    let sprite = val & 0xFFFFi32;
    assert(sheet == val / 0x1_0000 && sprite == val % 0x1_0000) by (bit_vector)
        requires
            val >= 0,
            sheet == val >> 16u32,
            sprite == val & 0xFFFFi32,
    ;
    Some(SpriteId::new(sheet as u32, sprite as u32))
}

/// The sprite that draws a rocks-layer byte: sprite `rid - 1` of sheet 4
/// for bytes 1 to 48, none otherwise.
pub fn rock_sprite(rid: u8) -> (r: Option<SpriteId>)
    ensures
        1 <= rid <= 48 ==> (r matches Some(s) && s.0 == packed_sprite(4, (rid - 1) as u32)),
        !(1 <= rid <= 48) ==> r is None,
{
    if 1 <= rid && rid <= 48 {
        Some(SpriteId::new(4, (rid - 1) as u32))
    } else {
        None
    }
}

/// Whether the player may stand on every one of a set of tiles (the tiles
/// under the corners of the player's body).
pub fn all_player_walkable(world: &World, tiles: &[(i32, i32)]) -> (r: bool)
    requires
        world.wf(),
    ensures
        r == forall|k: int|
            0 <= k < tiles@.len() ==> world.is_player_walkable_tile(
                #[trigger] tiles@[k].0,
                tiles@[k].1,
            ),
{
    let mut k: usize = 0;
    while k < tiles.len()
        invariant
            world.wf(),
            k <= tiles@.len(),
            forall|j: int|
                0 <= j < k ==> world.is_player_walkable_tile(#[trigger] tiles@[j].0, tiles@[j].1),
        decreases tiles@.len() - k,
    {
        let (x, y) = tiles[k];
        if !world.walkable_for_player(x, y) {
            return false;
        }
        k = k + 1;
    }
    true
}

/// Whether the tide covers any one of a set of tiles.
pub fn any_tide_flooded(world: &World, tiles: &[(i32, i32)]) -> (r: bool)
    requires
        world.wf(),
    ensures
        r == exists|k: int|
            0 <= k < tiles@.len() && world.flooded_by_tide(#[trigger] tiles@[k].0, tiles@[k].1),
{
    let mut k: usize = 0;
    while k < tiles.len()
        invariant
            world.wf(),
            k <= tiles@.len(),
            forall|j: int|
                0 <= j < k ==> !world.flooded_by_tide(#[trigger] tiles@[j].0, tiles@[j].1),
        decreases tiles@.len() - k,
    {
        let (x, y) = tiles[k];
        if world.is_tide_flooded(x, y) {
            assert(world.flooded_by_tide(tiles@[k as int].0, tiles@[k as int].1));
            return true;
        }
        k = k + 1;
    }
    false
}

/// At high water every tile shows its original terrain and coast again,
/// whatever stage the tide passed through before.
pub proof fn lemma_high_tide_restores_original(original: u8)
    ensures
        tide_full_of(original, TideStage::High) == original,
        tide_border_of(original, TideStage::High) == original,
{
}

/// The tide only ever dries out shallow water: a tile that was not shallow
/// water keeps its terrain byte at every stage, and a shallow tile never
/// turns into anything but sand or shallower water.
pub proof fn lemma_tide_only_touches_shallows(original: u8, stage: TideStage)
    ensures
        !(4 <= original <= 6) ==> tide_full_of(original, stage) == original,
        4 <= original <= 6 ==> tide_full_of(original, stage) == 0 || 4 <= tide_full_of(
            original,
            stage,
        ) <= original,
{
}

/// Wherever an animal may stand, the player may stand too: the player's
/// rule only adds the flooded shallows while the tide rises.
pub proof fn lemma_walkable_is_player_walkable(w: World, x: i32, y: i32)
    ensures
        w.is_walkable_tile(x, y) ==> w.is_player_walkable_tile(x, y),
        !w.tide_rising ==> (w.is_player_walkable_tile(x, y) == w.is_walkable_tile(x, y)),
{
}

/// Animals and the spawn, companion and raft markers are registered but
/// never stand in the way: a tile holding one of them stays walkable.
pub proof fn lemma_animals_and_markers_never_block(k: Seq<char>)
    requires
        key_position(KeyTable::Animals, k) is Some || k == "spawn_marker"@ || k
            == "dummi_marker"@ || k == "raft_marker"@,
    ensures
        definition_of(k) is Some,
        !key_blocks(k),
{
    if key_position(KeyTable::Animals, k) is None {
        lemma_marker_keys_are_not_tabled(k);
    }
}

/// Setting the tide target twice in a row to the same stage changes nothing
/// the second time: the second call reports no change.
pub proof fn lemma_repeated_tide_target_changes_nothing(w: World, low: bool)
    requires
        w.tide_low == low,
    ensures
        !tide_target_changes(w, low),
{
}

/// The terrain bytes as documented: 0 and 8 are sand, 1 and 9 grass, 2, 7,
/// 10 and 15 dirt or dark earth, 3 and 11 forest floor, 4 to 6 shallow
/// water, 12 and 13 lily water, 14 deep water, and any higher byte is empty.
/// Only the water bytes 4, 5, 6, 12, 13 and 14 block the way.
pub proof fn lemma_terrain_bytes(id: u8)
    ensures
        (terrain_of(id) == Terrain::Sand) == (id == 0 || id == 8),
        (terrain_of(id) == Terrain::Grass) == (id == 1 || id == 9),
        (terrain_of(id) == Terrain::Dirt) == (id == 2 || id == 7 || id == 10 || id == 15),
        (terrain_of(id) == Terrain::Forest) == (id == 3 || id == 11),
        (terrain_of(id) == Terrain::ShallowWater) == (4 <= id <= 6),
        (terrain_of(id) == Terrain::LilyWater) == (id == 12 || id == 13),
        (terrain_of(id) == Terrain::DeepWater) == (id == 14),
        (terrain_of(id) == Terrain::Empty) == (id >= 16),
        terrain_walkable(terrain_of(id)) == !(4 <= id <= 6 || 12 <= id <= 14),
{
}

} // verus!
