//! The registry of named objects and decor placed on the map: what each key
//! looks like, whether it blocks movement, and what interacting with it
//! does.

use vstd::prelude::*;
use crate::atlas::{SpriteId, packed_sprite};
use crate::inventory::{Item, item_index, item_label, object_palette, object_sprite_palette};
use crate::text::str_eq;

verus! {

/// Number of entries of the animal key table.
pub const ANIMAL_KEY_COUNT: usize = 16;

/// Number of entries of the placed-item key table.
pub const OBJECT_ITEM_KEY_COUNT: usize = 94;

/// Number of entries of the decor key table.
pub const DECOR_KEY_COUNT: usize = 41;

#[derive(Debug, Clone, Copy, PartialEq, Eq, Structural)]
pub enum RenderLayer {
    Object,
    Decor,
}

#[derive(Debug, Clone, Copy, PartialEq, Eq, Structural)]
pub enum StructureUse {
    Sleep,
    Storage,
    Craft,
}

#[derive(Debug, Clone, Copy, PartialEq, Eq, Structural)]
pub enum Interaction {
    Nothing,
    Pickup(Item, u32),
    Structure(StructureUse),
}

#[derive(Debug, Clone, Copy, PartialEq, Eq, Structural)]
pub enum CompositeDecor {
    PalmA,
    PalmB,
    PalmC,
    PalmD,
    PalmE,
    PalmF,
    PalmG,
}

/// Where a sprite's anchor sits within its tile: the tile centre, high in a
/// palm canopy, or at the foot of one of the tree and cliff sprites.
#[derive(Debug, Clone, Copy, PartialEq, Eq, Structural)]
pub enum Anchor {
    Center,
    Canopy,
    PalmTrunk,
    BroadPalmTrunk,
    CliffEdge,
}

/// What the registry knows of a key.
#[derive(Debug, Clone, Copy)]
pub struct ObjectDefinition {
    pub key: &'static str,
    pub label: &'static str,
    pub sprite: Option<SpriteId>,
    pub anchor: Anchor,
    pub blocking: bool,
    pub interaction: Interaction,
    pub render_layer: RenderLayer,
    pub composite: Option<CompositeDecor>,
}

/// The content of an object definition, with its strings as characters.
pub struct DefinitionView {
    pub key: Seq<char>,
    pub label: Seq<char>,
    pub sprite: Option<SpriteId>,
    pub anchor: Anchor,
    pub blocking: bool,
    pub interaction: Interaction,
    pub render_layer: RenderLayer,
    pub composite: Option<CompositeDecor>,
}

impl View for ObjectDefinition {
    type V = DefinitionView;

    open spec fn view(&self) -> DefinitionView {
        DefinitionView {
            key: self.key@,
            label: self.label@,
            sprite: self.sprite,
            anchor: self.anchor,
            blocking: self.blocking,
            interaction: self.interaction,
            render_layer: self.render_layer,
            composite: self.composite,
        }
    }
}

/// A named object or decor element standing on a tile.
#[derive(Debug, Clone, Copy)]
pub struct ObjectPlacement {
    pub key: &'static str,
    pub stage: u8,
    pub built: bool,
}

/// The three key tables of the registry.
#[derive(Debug, Clone, Copy, PartialEq, Eq, Structural)]
pub enum KeyTable {
    Animals,
    ObjectItems,
    Decor,
}

/// The animal keys, each with the item a hunt yields and its sprite on sheet 2.
pub open spec fn animal_entry(i: usize) -> (Seq<char>, Item, u32) {
    match i {
        0 => ("animal_wild_goat"@, Item::WildGoat, 0u32),
        1 => ("animal_crab"@, Item::Crab, 40u32),
        2 => ("animal_alligator"@, Item::Alligator, 14u32),
        3 => ("animal_jaguar"@, Item::Jaguar, 86u32),
        4 => ("animal_peccary"@, Item::Peccary, 10u32),
        5 => ("animal_porcupine"@, Item::Porcupine, 18u32),
        6 => ("animal_turtle"@, Item::Turtle, 6u32),
        7 => ("animal_green_snake"@, Item::GreenSnake, 52u32),
        8 => ("animal_boa"@, Item::Boa, 46u32),
        9 => ("animal_green_parrot"@, Item::GreenParrot, 102u32),
        10 => ("animal_seagull"@, Item::Seagull, 70u32),
        11 => ("animal_pelican"@, Item::Pelican, 78u32),
        12 => ("animal_shark"@, Item::Shark, 90u32),
        13 => ("animal_green_iguana"@, Item::GreenIguana, 42u32),
        14 => ("animal_toucan"@, Item::Toucan, 118u32),
        _ => ("animal_red_ibis"@, Item::RedIbis, 110u32),
    }
}

/// The keys of placed items, each with the item it stands for.
pub open spec fn object_item_entry(i: usize) -> (Seq<char>, Item) {
    match i {
        0 => ("mango"@, Item::Mango),
        1 => ("coconut"@, Item::Coconut),
        2 => ("gray_fish"@, Item::GrayFish),
        3 => ("stone"@, Item::Stone),
        4 => ("wild_goat"@, Item::WildGoat),
        5 => ("axe"@, Item::Axe),
        6 => ("vine"@, Item::Vine),
        7 => ("dry_grass"@, Item::DryGrass),
        8 => ("branch"@, Item::Branch),
        9 => ("tent"@, Item::Tent),
        10 => ("cabin"@, Item::Cabin),
        11 => ("log"@, Item::Log),
        12 => ("sail"@, Item::Sail),
        13 => ("nail"@, Item::Nail),
        14 => ("fishing_rod"@, Item::FishingRod),
        15 => ("single_bed"@, Item::SingleBed),
        16 => ("fire"@, Item::Fire),
        17 => ("flag"@, Item::Flag),
        18 => ("pirate_shipwreck"@, Item::PirateShipwreck),
        19 => ("pirate_ship"@, Item::PirateShip),
        20 => ("clay"@, Item::Clay),
        21 => ("rock"@, Item::Rock),
        22 => ("sextant"@, Item::Sextant),
        23 => ("map"@, Item::IslandMap),
        24 => ("banana"@, Item::Banana),
        25 => ("papaya"@, Item::Papaya),
        26 => ("potato"@, Item::Potato),
        27 => ("pineapple"@, Item::Pineapple),
        28 => ("berry"@, Item::Berry),
        29 => ("hide"@, Item::Hide),
        30 => ("white_mushroom"@, Item::WhiteMushroom),
        31 => ("red_mushroom"@, Item::RedMushroom),
        32 => ("cream_mushroom"@, Item::CreamMushroom),
        33 => ("orange_mushroom"@, Item::OrangeMushroom),
        34 => ("rug_machine"@, Item::RugMachine),
        35 => ("tree_root"@, Item::TreeRoot),
        36 => ("stick"@, Item::Stick),
        37 => ("plank"@, Item::Plank),
        38 => ("bamboo"@, Item::Bamboo),
        39 => ("moss"@, Item::Moss),
        40 => ("brown_fish"@, Item::BrownFish),
        41 => ("crab"@, Item::Crab),
        42 => ("alligator"@, Item::Alligator),
        43 => ("jaguar"@, Item::Jaguar),
        44 => ("peccary"@, Item::Peccary),
        45 => ("arrow"@, Item::Arrow),
        46 => ("porcupine"@, Item::Porcupine),
        47 => ("turtle"@, Item::Turtle),
        48 => ("green_snake"@, Item::GreenSnake),
        49 => ("boa"@, Item::Boa),
        50 => ("barrel"@, Item::Barrel),
        51 => ("green_parrot"@, Item::GreenParrot),
        52 => ("seagull"@, Item::Seagull),
        53 => ("pelican"@, Item::Pelican),
        54 => ("large_sail"@, Item::LargeSail),
        55 => ("shark"@, Item::Shark),
        56 => ("rug"@, Item::Rug),
        57 => ("green_iguana"@, Item::GreenIguana),
        58 => ("toucan"@, Item::Toucan),
        59 => ("red_ibis"@, Item::RedIbis),
        60 => ("spiral"@, Item::Spiral),
        61 => ("whelk"@, Item::Whelk),
        62 => ("oyster"@, Item::Oyster),
        63 => ("clam"@, Item::Clam),
        64 => ("conch"@, Item::Conch),
        65 => ("fur"@, Item::Fur),
        66 => ("sea_snail"@, Item::SeaSnail),
        67 => ("mussel"@, Item::Mussel),
        68 => ("scallop"@, Item::Scallop),
        69 => ("starfish"@, Item::Starfish),
        70 => ("sea_urchin"@, Item::SeaUrchin),
        71 => ("egg"@, Item::Egg),
        72 => ("knife"@, Item::Knife),
        73 => ("hammer"@, Item::Hammer),
        74 => ("saw"@, Item::Saw),
        75 => ("anchor"@, Item::Anchor),
        76 => ("compass"@, Item::Compass),
        77 => ("bow"@, Item::Bow),
        78 => ("roasting_spit"@, Item::RoastingSpit),
        79 => ("net"@, Item::Net),
        80 => ("broken_raft"@, Item::BrokenRaft),
        81 => ("double_bed"@, Item::DoubleBed),
        82 => ("needle"@, Item::Needle),
        83 => ("pot"@, Item::Pot),
        84 => ("potters_wheel"@, Item::PotterWheel),
        85 => ("plane"@, Item::Plane),
        86 => ("worms"@, Item::Worms),
        87 => ("rope"@, Item::Rope),
        88 => ("gunpowder"@, Item::Gunpowder),
        89 => ("giant_log"@, Item::GiantLog),
        90 => ("raft"@, Item::Raft),
        91 => ("machete"@, Item::Machete),
        92 => ("scissors"@, Item::Scissors),
        _ => ("cotton"@, Item::Cotton),
    }
}

/// The decor keys, each with its decor palette number, its composite tree
/// kind if it is one, and the pickup it yields if any.
pub open spec fn decor_entry(i: usize) -> (Seq<char>, usize, Option<CompositeDecor>, Option<(Item, u32)>) {
    match i {
        0 => ("palm_tree"@, 1, Some(CompositeDecor::PalmA), None),
        1 => ("broad_palm"@, 5, Some(CompositeDecor::PalmB), None),
        2 => ("decor_011"@, 11, None, None),
        3 => ("log_debris"@, 12, None, Some((Item::Log, 1u32))),
        4 => ("fallen_palm"@, 13, Some(CompositeDecor::PalmC), None),
        5 => ("tree_stump"@, 18, Some(CompositeDecor::PalmD), None),
        6 => ("young_palm"@, 21, Some(CompositeDecor::PalmE), None),
        7 => ("leaning_palm"@, 22, Some(CompositeDecor::PalmF), None),
        8 => ("decor_028"@, 28, None, None),
        9 => ("moss_debris"@, 29, None, Some((Item::Moss, 1u32))),
        10 => ("stump_log_debris"@, 30, None, Some((Item::Log, 1u32))),
        11 => ("decor_031"@, 31, None, None),
        12 => ("decor_032"@, 32, None, None),
        13 => ("decor_033"@, 33, None, None),
        14 => ("decor_034"@, 34, None, None),
        15 => ("decor_035"@, 35, None, None),
        16 => ("decor_036"@, 36, None, None),
        17 => ("decor_037"@, 37, None, None),
        18 => ("plank_debris"@, 38, None, Some((Item::Plank, 1u32))),
        19 => ("decor_041"@, 41, None, None),
        20 => ("decor_044"@, 44, None, None),
        21 => ("decor_048"@, 48, None, None),
        22 => ("cliff_edge"@, 49, Some(CompositeDecor::PalmG), None),
        23 => ("decor_052"@, 52, None, None),
        24 => ("sail_wreckage"@, 53, None, Some((Item::Sail, 1u32))),
        25 => ("decor_054"@, 54, None, None),
        26 => ("decor_055"@, 55, None, None),
        27 => ("decor_056"@, 56, None, None),
        28 => ("decor_057"@, 57, None, None),
        29 => ("plank_wreckage"@, 58, None, Some((Item::Plank, 1u32))),
        30 => ("decor_059"@, 59, None, None),
        31 => ("decor_060"@, 60, None, None),
        32 => ("decor_061"@, 61, None, None),
        33 => ("decor_062"@, 62, None, None),
        34 => ("decor_063"@, 63, None, None),
        35 => ("decor_064"@, 64, None, None),
        36 => ("decor_065"@, 65, None, None),
        37 => ("barrel_wreckage"@, 66, None, Some((Item::Barrel, 1u32))),
        38 => ("decor_067"@, 67, None, None),
        39 => ("decor_068"@, 68, None, None),
        _ => ("conch_debris"@, 69, None, Some((Item::Conch, 1u32))),
    }
}

/// Packed sprite of each decor palette number; 0 where there is none.
pub open spec fn decor_palette(i: usize) -> i32 {
    match i {
        0 => 0i32,
        1 => 458752i32,
        2 => 458753i32,
        3 => 458754i32,
        4 => 458756i32,
        5 => 458836i32,
        6 => 458837i32,
        7 => 458758i32,
        8 => 458760i32,
        9 => 458762i32,
        10 => 458764i32,
        11 => 458766i32,
        12 => 458767i32,
        13 => 458769i32,
        14 => 458770i32,
        15 => 458771i32,
        16 => 458772i32,
        17 => 458774i32,
        18 => 458776i32,
        19 => 458777i32,
        20 => 458778i32,
        21 => 458779i32,
        22 => 458780i32,
        23 => 458781i32,
        24 => 458782i32,
        25 => 458783i32,
        26 => 458784i32,
        27 => 458785i32,
        28 => 458786i32,
        29 => 458787i32,
        30 => 458788i32,
        31 => 458789i32,
        32 => 458790i32,
        33 => 458791i32,
        34 => 458792i32,
        35 => 458793i32,
        36 => 458794i32,
        37 => 458795i32,
        38 => 458796i32,
        39 => 458797i32,
        40 => 458798i32,
        41 => 458799i32,
        42 => 458800i32,
        43 => 458802i32,
        44 => 458804i32,
        45 => 458805i32,
        46 => 458806i32,
        47 => 458807i32,
        48 => 458812i32,
        49 => 458814i32,
        50 => 458815i32,
        51 => 458817i32,
        52 => 458818i32,
        53 => 458819i32,
        54 => 458820i32,
        55 => 458821i32,
        56 => 458822i32,
        57 => 458823i32,
        58 => 458824i32,
        59 => 458825i32,
        60 => 458826i32,
        61 => 458827i32,
        62 => 458828i32,
        63 => 458829i32,
        64 => 458830i32,
        65 => 458831i32,
        66 => 458832i32,
        67 => 458833i32,
        68 => 458834i32,
        69 => 458835i32,
        70 => 458808i32,
        71 => 458809i32,
        72 => 458810i32,
        73 => 458811i32,
        74 => 458803i32,
        75 => 458757i32,
        76 => 458755i32,
        77 => 458761i32,
        78 => 458759i32,
        79 => 458763i32,
        80 => 458765i32,
        81 => 458768i32,
        82 => 458775i32,
        83 => 458801i32,
        84 => 458816i32,
        85 => 458813i32,
        86 => 458773i32,
        _ => 0i32,
    }
}

/// Items that a placed object of that kind yields when picked up.
pub open spec fn is_object_pickup(item: Item) -> bool {
    matches!(
        item,
        Item::Mango
            | Item::GrayFish
            | Item::Stone
            | Item::Vine
            | Item::DryGrass
            | Item::Branch
            | Item::Log
            | Item::Sail
            | Item::Nail
            | Item::Clay
            | Item::Rock
            | Item::Sextant
            | Item::IslandMap
            | Item::Banana
            | Item::Papaya
            | Item::Potato
            | Item::Pineapple
            | Item::Berry
            | Item::WhiteMushroom
            | Item::RedMushroom
            | Item::CreamMushroom
            | Item::OrangeMushroom
            | Item::TreeRoot
            | Item::Stick
            | Item::Plank
            | Item::Bamboo
            | Item::Moss
            | Item::Spiral
            | Item::Whelk
            | Item::Oyster
            | Item::Clam
            | Item::Conch
            | Item::SeaSnail
            | Item::Mussel
            | Item::Scallop
            | Item::Starfish
            | Item::SeaUrchin
            | Item::Egg
            | Item::Knife
    )
}

/// Items that stand on the map as structures.
pub open spec fn is_structure_item(item: Item) -> bool {
    matches!(
        item,
        Item::Tent
            | Item::Cabin
            | Item::SingleBed
            | Item::Fire
            | Item::PirateShip
            | Item::RugMachine
            | Item::Barrel
            | Item::Rug
            | Item::RoastingSpit
            | Item::DoubleBed
            | Item::PotterWheel
            | Item::Raft
            | Item::WeavingMachine
    )
}

/// The key at a position of a table.
pub open spec fn table_key(t: KeyTable, i: usize) -> Seq<char> {
    match t {
        KeyTable::Animals => animal_entry(i).0,
        KeyTable::ObjectItems => object_item_entry(i).0,
        KeyTable::Decor => decor_entry(i).0,
    }
}

/// The number of entries of a table.
pub open spec fn table_len(t: KeyTable) -> usize {
    match t {
        KeyTable::Animals => ANIMAL_KEY_COUNT,
        KeyTable::ObjectItems => OBJECT_ITEM_KEY_COUNT,
        KeyTable::Decor => DECOR_KEY_COUNT,
    }
}

/// The first position below `n` of a table whose key is `k`.
pub open spec fn first_match(t: KeyTable, n: usize, k: Seq<char>) -> Option<usize>
    decreases n,
{
    if n == 0 {
        None
    } else {
        match first_match(t, (n - 1) as usize, k) {
            Some(i) => Some(i),
            None => if table_key(t, (n - 1) as usize) == k {
                Some((n - 1) as usize)
            } else {
                None
            },
        }
    }
}

/// The first entry of a table with key `k`, if any.
pub open spec fn key_position(t: KeyTable, k: Seq<char>) -> Option<usize> {
    first_match(t, table_len(t), k)
}

/// The first placed-item entry below `n` that stands for `item`.
pub open spec fn first_item_key(n: usize, item: Item) -> Option<usize>
    decreases n,
{
    if n == 0 {
        None
    } else {
        match first_item_key((n - 1) as usize, item) {
            Some(i) => Some(i),
            None => if object_item_entry((n - 1) as usize).1 == item {
                Some((n - 1) as usize)
            } else {
                None
            },
        }
    }
}

/// A first match below `n` stays the first match below any larger bound.
proof fn lemma_first_match_stable(t: KeyTable, n: usize, m: usize, k: Seq<char>)
    requires
        n <= m,
        first_match(t, n, k) is Some,
    ensures
        first_match(t, m, k) == first_match(t, n, k),
    decreases m - n,
{
    if n < m {
        lemma_first_match_stable(t, n, (m - 1) as usize, k);
    }
}

proof fn lemma_first_item_key_stable(n: usize, m: usize, item: Item)
    requires
        n <= m,
        first_item_key(n, item) is Some,
    ensures
        first_item_key(m, item) == first_item_key(n, item),
    decreases m - n,
{
    if n < m {
        lemma_first_item_key_stable(n, (m - 1) as usize, item);
    }
}

/// The sprite of a placed item's palette entry, where it has one.
pub open spec fn object_palette_sprite(p: i32) -> Option<SpriteId> {
    if p >= 0 {
        Some(SpriteId(packed_sprite((p / 0x1_0000) as u32, (p % 0x1_0000) as u32)))
    } else {
        None
    }
}

/// The sprite of a decor palette entry, where it has one.
pub open spec fn decor_palette_sprite(p: i32) -> Option<SpriteId> {
    if p > 0 {
        Some(SpriteId(packed_sprite((p / 0x1_0000) as u32, (p % 0x1_0000) as u32)))
    } else {
        None
    }
}

/// The anchor of a decor sprite by its decor palette number.
pub open spec fn decor_anchor_of(decor_id: usize) -> Anchor {
    match decor_id {
        1 | 13 | 18 | 21 | 22 => Anchor::PalmTrunk,
        5 => Anchor::BroadPalmTrunk,
        49 => Anchor::CliffEdge,
        _ => Anchor::Center,
    }
}

/// How a built structure of an item is used, if the item is a structure.
pub open spec fn structure_use_of(item: Item) -> Option<StructureUse> {
    match item {
        Item::Tent | Item::SingleBed | Item::DoubleBed => Some(StructureUse::Sleep),
        Item::Cabin | Item::Barrel => Some(StructureUse::Storage),
        _ => if is_structure_item(item) {
            Some(StructureUse::Craft)
        } else {
            None
        },
    }
}

/// What interacting with a placed item does: coconuts up in a palm are
/// canopy markers, structures are used, pickups are taken.
pub open spec fn object_interaction(item: Item) -> Interaction {
    if item == Item::Coconut {
        Interaction::Nothing
    } else if let Some(kind) = structure_use_of(item) {
        Interaction::Structure(kind)
    } else if is_object_pickup(item) {
        Interaction::Pickup(item, 1)
    } else {
        Interaction::Nothing
    }
}

/// The definition registered under key `k`: animals first, then the dropped
/// coconut, the placed items, the three markers, and the decor.
pub open spec fn definition_of(k: Seq<char>) -> Option<DefinitionView> {
    if let Some(i) = key_position(KeyTable::Animals, k) {
        Some(
            DefinitionView {
                key: animal_entry(i).0,
                label: item_label(animal_entry(i).1),
                sprite: Some(SpriteId(packed_sprite(2, animal_entry(i).2))),
                anchor: Anchor::Center,
                blocking: false,
                interaction: Interaction::Nothing,
                render_layer: RenderLayer::Object,
                composite: None,
            },
        )
    } else if k == "dropped_coconut"@ {
        Some(
            DefinitionView {
                key: k,
                label: item_label(Item::Coconut),
                sprite: object_palette_sprite(object_palette(item_index(Item::Coconut))),
                anchor: Anchor::Center,
                blocking: false,
                interaction: Interaction::Pickup(Item::Coconut, 1),
                render_layer: RenderLayer::Object,
                composite: None,
            },
        )
    } else if let Some(i) = key_position(KeyTable::ObjectItems, k) {
        let item = object_item_entry(i).1;
        Some(
            DefinitionView {
                key: object_item_entry(i).0,
                label: item_label(item),
                sprite: object_palette_sprite(object_palette(item_index(item))),
                anchor: if item == Item::Coconut {
                    Anchor::Canopy
                } else {
                    Anchor::Center
                },
                blocking: item != Item::Coconut,
                interaction: object_interaction(item),
                render_layer: RenderLayer::Object,
                composite: None,
            },
        )
    } else if k == "spawn_marker"@ || k == "dummi_marker"@ || k == "raft_marker"@ {
        Some(
            DefinitionView {
                key: k,
                label: "Marker"@,
                sprite: None,
                anchor: Anchor::Center,
                blocking: false,
                interaction: Interaction::Nothing,
                render_layer: RenderLayer::Object,
                composite: None,
            },
        )
    } else if let Some(i) = key_position(KeyTable::Decor, k) {
        let e = decor_entry(i);
        Some(
            DefinitionView {
                key: e.0,
                label: e.0,
                sprite: decor_palette_sprite(decor_palette(e.1)),
                anchor: decor_anchor_of(e.1),
                blocking: true,
                interaction: match e.3 {
                    Some((item, count)) => Interaction::Pickup(item, count),
                    None => Interaction::Nothing,
                },
                render_layer: RenderLayer::Decor,
                composite: e.2,
            },
        )
    } else {
        None
    }
}

/// The animal key table entry at a position.
fn animal_key_entry(i: usize) -> (r: (&'static str, Item, u32))
    requires
        i < ANIMAL_KEY_COUNT,
    ensures
        r.0@ == animal_entry(i).0,
        r.1 == animal_entry(i).1,
        r.2 == animal_entry(i).2,
{
    match i {
        0 => ("animal_wild_goat", Item::WildGoat, 0),
        1 => ("animal_crab", Item::Crab, 40),
        2 => ("animal_alligator", Item::Alligator, 14),
        3 => ("animal_jaguar", Item::Jaguar, 86),
        4 => ("animal_peccary", Item::Peccary, 10),
        5 => ("animal_porcupine", Item::Porcupine, 18),
        6 => ("animal_turtle", Item::Turtle, 6),
        7 => ("animal_green_snake", Item::GreenSnake, 52),
        8 => ("animal_boa", Item::Boa, 46),
        9 => ("animal_green_parrot", Item::GreenParrot, 102),
        10 => ("animal_seagull", Item::Seagull, 70),
        11 => ("animal_pelican", Item::Pelican, 78),
        12 => ("animal_shark", Item::Shark, 90),
        13 => ("animal_green_iguana", Item::GreenIguana, 42),
        14 => ("animal_toucan", Item::Toucan, 118),
        _ => ("animal_red_ibis", Item::RedIbis, 110),
    }
}

/// The placed-item key table entry at a position.
fn object_item_key_entry(i: usize) -> (r: (&'static str, Item))
    requires
        i < OBJECT_ITEM_KEY_COUNT,
    ensures
        r.0@ == object_item_entry(i).0,
        r.1 == object_item_entry(i).1,
{
    match i {
        0 => ("mango", Item::Mango),
        1 => ("coconut", Item::Coconut),
        2 => ("gray_fish", Item::GrayFish),
        3 => ("stone", Item::Stone),
        4 => ("wild_goat", Item::WildGoat),
        5 => ("axe", Item::Axe),
        6 => ("vine", Item::Vine),
        7 => ("dry_grass", Item::DryGrass),
        8 => ("branch", Item::Branch),
        9 => ("tent", Item::Tent),
        10 => ("cabin", Item::Cabin),
        11 => ("log", Item::Log),
        12 => ("sail", Item::Sail),
        13 => ("nail", Item::Nail),
        14 => ("fishing_rod", Item::FishingRod),
        15 => ("single_bed", Item::SingleBed),
        16 => ("fire", Item::Fire),
        17 => ("flag", Item::Flag),
        18 => ("pirate_shipwreck", Item::PirateShipwreck),
        19 => ("pirate_ship", Item::PirateShip),
        20 => ("clay", Item::Clay),
        21 => ("rock", Item::Rock),
        22 => ("sextant", Item::Sextant),
        23 => ("map", Item::IslandMap),
        24 => ("banana", Item::Banana),
        25 => ("papaya", Item::Papaya),
        26 => ("potato", Item::Potato),
        27 => ("pineapple", Item::Pineapple),
        28 => ("berry", Item::Berry),
        29 => ("hide", Item::Hide),
        30 => ("white_mushroom", Item::WhiteMushroom),
        31 => ("red_mushroom", Item::RedMushroom),
        32 => ("cream_mushroom", Item::CreamMushroom),
        33 => ("orange_mushroom", Item::OrangeMushroom),
        34 => ("rug_machine", Item::RugMachine),
        35 => ("tree_root", Item::TreeRoot),
        36 => ("stick", Item::Stick),
        37 => ("plank", Item::Plank),
        38 => ("bamboo", Item::Bamboo),
        39 => ("moss", Item::Moss),
        40 => ("brown_fish", Item::BrownFish),
        41 => ("crab", Item::Crab),
        42 => ("alligator", Item::Alligator),
        43 => ("jaguar", Item::Jaguar),
        44 => ("peccary", Item::Peccary),
        45 => ("arrow", Item::Arrow),
        46 => ("porcupine", Item::Porcupine),
        47 => ("turtle", Item::Turtle),
        48 => ("green_snake", Item::GreenSnake),
        49 => ("boa", Item::Boa),
        50 => ("barrel", Item::Barrel),
        51 => ("green_parrot", Item::GreenParrot),
        52 => ("seagull", Item::Seagull),
        53 => ("pelican", Item::Pelican),
        54 => ("large_sail", Item::LargeSail),
        55 => ("shark", Item::Shark),
        56 => ("rug", Item::Rug),
        57 => ("green_iguana", Item::GreenIguana),
        58 => ("toucan", Item::Toucan),
        59 => ("red_ibis", Item::RedIbis),
        60 => ("spiral", Item::Spiral),
        61 => ("whelk", Item::Whelk),
        62 => ("oyster", Item::Oyster),
        63 => ("clam", Item::Clam),
        64 => ("conch", Item::Conch),
        65 => ("fur", Item::Fur),
        66 => ("sea_snail", Item::SeaSnail),
        67 => ("mussel", Item::Mussel),
        68 => ("scallop", Item::Scallop),
        69 => ("starfish", Item::Starfish),
        70 => ("sea_urchin", Item::SeaUrchin),
        71 => ("egg", Item::Egg),
        72 => ("knife", Item::Knife),
        73 => ("hammer", Item::Hammer),
        74 => ("saw", Item::Saw),
        75 => ("anchor", Item::Anchor),
        76 => ("compass", Item::Compass),
        77 => ("bow", Item::Bow),
        78 => ("roasting_spit", Item::RoastingSpit),
        79 => ("net", Item::Net),
        80 => ("broken_raft", Item::BrokenRaft),
        81 => ("double_bed", Item::DoubleBed),
        82 => ("needle", Item::Needle),
        83 => ("pot", Item::Pot),
        84 => ("potters_wheel", Item::PotterWheel),
        85 => ("plane", Item::Plane),
        86 => ("worms", Item::Worms),
        87 => ("rope", Item::Rope),
        88 => ("gunpowder", Item::Gunpowder),
        89 => ("giant_log", Item::GiantLog),
        90 => ("raft", Item::Raft),
        91 => ("machete", Item::Machete),
        92 => ("scissors", Item::Scissors),
        _ => ("cotton", Item::Cotton),
    }
}

/// The decor key table entry at a position.
fn decor_key_entry(i: usize) -> (r: (&'static str, usize, Option<CompositeDecor>, Option<(Item, u32)>))
    requires
        i < DECOR_KEY_COUNT,
    ensures
        r.0@ == decor_entry(i).0,
        r.1 == decor_entry(i).1,
        r.2 == decor_entry(i).2,
        r.3 == decor_entry(i).3,
{
    match i {
        0 => ("palm_tree", 1, Some(CompositeDecor::PalmA), None),
        1 => ("broad_palm", 5, Some(CompositeDecor::PalmB), None),
        2 => ("decor_011", 11, None, None),
        3 => ("log_debris", 12, None, Some((Item::Log, 1))),
        4 => ("fallen_palm", 13, Some(CompositeDecor::PalmC), None),
        5 => ("tree_stump", 18, Some(CompositeDecor::PalmD), None),
        6 => ("young_palm", 21, Some(CompositeDecor::PalmE), None),
        7 => ("leaning_palm", 22, Some(CompositeDecor::PalmF), None),
        8 => ("decor_028", 28, None, None),
        9 => ("moss_debris", 29, None, Some((Item::Moss, 1))),
        10 => ("stump_log_debris", 30, None, Some((Item::Log, 1))),
        11 => ("decor_031", 31, None, None),
        12 => ("decor_032", 32, None, None),
        13 => ("decor_033", 33, None, None),
        14 => ("decor_034", 34, None, None),
        15 => ("decor_035", 35, None, None),
        16 => ("decor_036", 36, None, None),
        17 => ("decor_037", 37, None, None),
        18 => ("plank_debris", 38, None, Some((Item::Plank, 1))),
        19 => ("decor_041", 41, None, None),
        20 => ("decor_044", 44, None, None),
        21 => ("decor_048", 48, None, None),
        22 => ("cliff_edge", 49, Some(CompositeDecor::PalmG), None),
        23 => ("decor_052", 52, None, None),
        24 => ("sail_wreckage", 53, None, Some((Item::Sail, 1))),
        25 => ("decor_054", 54, None, None),
        26 => ("decor_055", 55, None, None),
        27 => ("decor_056", 56, None, None),
        28 => ("decor_057", 57, None, None),
        29 => ("plank_wreckage", 58, None, Some((Item::Plank, 1))),
        30 => ("decor_059", 59, None, None),
        31 => ("decor_060", 60, None, None),
        32 => ("decor_061", 61, None, None),
        33 => ("decor_062", 62, None, None),
        34 => ("decor_063", 63, None, None),
        35 => ("decor_064", 64, None, None),
        36 => ("decor_065", 65, None, None),
        37 => ("barrel_wreckage", 66, None, Some((Item::Barrel, 1))),
        38 => ("decor_067", 67, None, None),
        39 => ("decor_068", 68, None, None),
        _ => ("conch_debris", 69, None, Some((Item::Conch, 1))),
    }
}

/// The packed sprite of a decor palette number.
pub fn decor_sprite_palette(i: usize) -> (r: i32)
    ensures
        r == decor_palette(i),
{
    match i {
        0 => 0,
        1 => 458752,
        2 => 458753,
        3 => 458754,
        4 => 458756,
        5 => 458836,
        6 => 458837,
        7 => 458758,
        8 => 458760,
        9 => 458762,
        10 => 458764,
        11 => 458766,
        12 => 458767,
        13 => 458769,
        14 => 458770,
        15 => 458771,
        16 => 458772,
        17 => 458774,
        18 => 458776,
        19 => 458777,
        20 => 458778,
        21 => 458779,
        22 => 458780,
        23 => 458781,
        24 => 458782,
        25 => 458783,
        26 => 458784,
        27 => 458785,
        28 => 458786,
        29 => 458787,
        30 => 458788,
        31 => 458789,
        32 => 458790,
        33 => 458791,
        34 => 458792,
        35 => 458793,
        36 => 458794,
        37 => 458795,
        38 => 458796,
        39 => 458797,
        40 => 458798,
        41 => 458799,
        42 => 458800,
        43 => 458802,
        44 => 458804,
        45 => 458805,
        46 => 458806,
        47 => 458807,
        48 => 458812,
        49 => 458814,
        50 => 458815,
        51 => 458817,
        52 => 458818,
        53 => 458819,
        54 => 458820,
        55 => 458821,
        56 => 458822,
        57 => 458823,
        58 => 458824,
        59 => 458825,
        60 => 458826,
        61 => 458827,
        62 => 458828,
        63 => 458829,
        64 => 458830,
        65 => 458831,
        66 => 458832,
        67 => 458833,
        68 => 458834,
        69 => 458835,
        70 => 458808,
        71 => 458809,
        72 => 458810,
        73 => 458811,
        74 => 458803,
        75 => 458757,
        76 => 458755,
        77 => 458761,
        78 => 458759,
        79 => 458763,
        80 => 458765,
        81 => 458768,
        82 => 458775,
        83 => 458801,
        84 => 458816,
        85 => 458813,
        86 => 458773,
        _ => 0,
    }
}

fn object_pickup(item: Item) -> (r: bool)
    ensures
        r == is_object_pickup(item),
{
    matches!(
        item,
        Item::Mango
            | Item::GrayFish
            | Item::Stone
            | Item::Vine
            | Item::DryGrass
            | Item::Branch
            | Item::Log
            | Item::Sail
            | Item::Nail
            | Item::Clay
            | Item::Rock
            | Item::Sextant
            | Item::IslandMap
            | Item::Banana
            | Item::Papaya
            | Item::Potato
            | Item::Pineapple
            | Item::Berry
            | Item::WhiteMushroom
            | Item::RedMushroom
            | Item::CreamMushroom
            | Item::OrangeMushroom
            | Item::TreeRoot
            | Item::Stick
            | Item::Plank
            | Item::Bamboo
            | Item::Moss
            | Item::Spiral
            | Item::Whelk
            | Item::Oyster
            | Item::Clam
            | Item::Conch
            | Item::SeaSnail
            | Item::Mussel
            | Item::Scallop
            | Item::Starfish
            | Item::SeaUrchin
            | Item::Egg
            | Item::Knife
    )
}

fn structure_item(item: Item) -> (r: bool)
    ensures
        r == is_structure_item(item),
{
    matches!(
        item,
        Item::Tent
            | Item::Cabin
            | Item::SingleBed
            | Item::Fire
            | Item::PirateShip
            | Item::RugMachine
            | Item::Barrel
            | Item::Rug
            | Item::RoastingSpit
            | Item::DoubleBed
            | Item::PotterWheel
            | Item::Raft
            | Item::WeavingMachine
    )
}

/// The first position of a table whose key is `key`.
fn find_key(t: KeyTable, key: &str) -> (r: Option<usize>)
    ensures
        r == key_position(t, key@),
        r matches Some(i) ==> i < table_len(t),
{
    let n = match t {
        KeyTable::Animals => ANIMAL_KEY_COUNT,
        KeyTable::ObjectItems => OBJECT_ITEM_KEY_COUNT,
        KeyTable::Decor => DECOR_KEY_COUNT,
    };
    let mut i: usize = 0;
    while i < n
        invariant
            n == table_len(t),
            i <= n,
            first_match(t, i, key@) is None,
        decreases n - i,
    {
        let k = match t {
            KeyTable::Animals => animal_key_entry(i).0,
            KeyTable::ObjectItems => object_item_key_entry(i).0,
            KeyTable::Decor => decor_key_entry(i).0,
        };
        if str_eq(k, key) {
            proof {
                assert(first_match(t, (i + 1) as usize, key@) == Some(i));
                lemma_first_match_stable(t, (i + 1) as usize, n, key@);
            }
            return Some(i);
        }
        i = i + 1;
    }
    None
}

fn object_sprite(p: i32) -> (r: Option<SpriteId>)
    ensures
        r == object_palette_sprite(p),
{
    if p >= 0 {
        let sheet = p >> 16u32;
        let sprite = p & 0xFFFFi32;
        assert(sheet == p / 0x1_0000 && sprite == p % 0x1_0000) by (bit_vector)
            requires
                p >= 0,
                sheet == p >> 16u32,
                sprite == p & 0xFFFFi32,
        ;
        Some(SpriteId::new(sheet as u32, sprite as u32))
    } else {
        None
    }
}

fn decor_sprite(p: i32) -> (r: Option<SpriteId>)
    ensures
        r == decor_palette_sprite(p),
{
    if p > 0 {
        let sheet = p >> 16u32;
        let sprite = p & 0xFFFFi32;
        assert(sheet == p / 0x1_0000 && sprite == p % 0x1_0000) by (bit_vector)
            requires
                p > 0,
                sheet == p >> 16u32,
                sprite == p & 0xFFFFi32,
        ;
        Some(SpriteId::new(sheet as u32, sprite as u32))
    } else {
        None
    }
}

fn decor_anchor(decor_id: usize) -> (r: Anchor)
    ensures
        r == decor_anchor_of(decor_id),
{
    match decor_id {
        1 | 13 | 18 | 21 | 22 => Anchor::PalmTrunk,
        5 => Anchor::BroadPalmTrunk,
        49 => Anchor::CliffEdge,
        _ => Anchor::Center,
    }
}

/// How a built structure of an item is used, if the item is a structure.
pub fn structure_use(item: Item) -> (r: Option<StructureUse>)
    ensures
        r == structure_use_of(item),
{
    match item {
        Item::Tent | Item::SingleBed | Item::DoubleBed => Some(StructureUse::Sleep),
        Item::Cabin | Item::Barrel => Some(StructureUse::Storage),
        _ => if structure_item(item) {
            Some(StructureUse::Craft)
        } else {
            None
        },
    }
}

fn object_item_interaction(item: Item) -> (r: Interaction)
    ensures
        r == object_interaction(item),
{
    if item == Item::Coconut {
        Interaction::Nothing
    } else if let Some(kind) = structure_use(item) {
        Interaction::Structure(kind)
    } else if object_pickup(item) {
        Interaction::Pickup(item, 1)
    } else {
        Interaction::Nothing
    }
}

/// Look up the definition registered under a key.
pub fn definition(key: &str) -> (r: Option<ObjectDefinition>)
    ensures
        match r {
            Some(d) => definition_of(key@) == Some(d@),
            None => definition_of(key@) is None,
        },
{
    if let Some(i) = find_key(KeyTable::Animals, key) {
        let (k, item, sprite) = animal_key_entry(i);
        return Some(
            ObjectDefinition {
                key: k,
                label: item.label(),
                sprite: Some(SpriteId::new(2, sprite)),
                anchor: Anchor::Center,
                blocking: false,
                interaction: Interaction::Nothing,
                render_layer: RenderLayer::Object,
                composite: None,
            },
        );
    }
    if str_eq(key, "dropped_coconut") {
        let palette = object_sprite_palette(Item::Coconut.j2me_index());
        return Some(
            ObjectDefinition {
                key: "dropped_coconut",
                label: Item::Coconut.label(),
                sprite: object_sprite(palette),
                anchor: Anchor::Center,
                blocking: false,
                interaction: Interaction::Pickup(Item::Coconut, 1),
                render_layer: RenderLayer::Object,
                composite: None,
            },
        );
    }
    if let Some(i) = find_key(KeyTable::ObjectItems, key) {
        let (k, item) = object_item_key_entry(i);
        let palette = object_sprite_palette(item.j2me_index());
        let is_canopy_coconut = item == Item::Coconut;
        return Some(
            ObjectDefinition {
                key: k,
                label: item.label(),
                sprite: object_sprite(palette),
                anchor: if is_canopy_coconut {
                    Anchor::Canopy
                } else {
                    Anchor::Center
                },
                blocking: !is_canopy_coconut,
                interaction: object_item_interaction(item),
                render_layer: RenderLayer::Object,
                composite: None,
            },
        );
    }
    let is_spawn = str_eq(key, "spawn_marker");
    let is_dummi = str_eq(key, "dummi_marker");
    let is_raft = str_eq(key, "raft_marker");
    if is_spawn || is_dummi || is_raft {
        return Some(
            ObjectDefinition {
                key: if is_spawn {
                    "spawn_marker"
                } else if is_dummi {
                    "dummi_marker"
                } else {
                    "raft_marker"
                },
                label: "Marker",
                sprite: None,
                anchor: Anchor::Center,
                blocking: false,
                interaction: Interaction::Nothing,
                render_layer: RenderLayer::Object,
                composite: None,
            },
        );
    }
    if let Some(i) = find_key(KeyTable::Decor, key) {
        let (k, decor_id, composite, drop) = decor_key_entry(i);
        let palette = decor_sprite_palette(decor_id);
        return Some(
            ObjectDefinition {
                key: k,
                label: k,
                sprite: decor_sprite(palette),
                anchor: decor_anchor(decor_id),
                blocking: true,
                interaction: match drop {
                    Some((item, count)) => Interaction::Pickup(item, count),
                    None => Interaction::Nothing,
                },
                render_layer: RenderLayer::Decor,
                composite,
            },
        );
    }
    None
}

/// The key under which an item is placed on the map, if it has one.
pub fn key_for_item(item: Item) -> (r: Option<&'static str>)
    ensures
        match first_item_key(OBJECT_ITEM_KEY_COUNT, item) {
            Some(i) => r is Some && r.unwrap()@ == object_item_entry(i).0,
            None => r is None,
        },
{
    let mut i: usize = 0;
    while i < OBJECT_ITEM_KEY_COUNT
        invariant
            i <= OBJECT_ITEM_KEY_COUNT,
            first_item_key(i, item) is None,
        decreases OBJECT_ITEM_KEY_COUNT - i,
    {
        let (k, candidate) = object_item_key_entry(i);
        if candidate == item {
            proof {
                assert(first_item_key((i + 1) as usize, item) == Some(i));
                lemma_first_item_key_stable((i + 1) as usize, OBJECT_ITEM_KEY_COUNT, item);
            }
            return Some(k);
        }
        i = i + 1;
    }
    None
}

/// The keys that have their own sprite files: the placed items, then the
/// decor.
pub fn sprite_keys() -> (r: Vec<&'static str>)
    ensures
        r.len() == OBJECT_ITEM_KEY_COUNT + DECOR_KEY_COUNT,
        forall|i: int| 0 <= i < OBJECT_ITEM_KEY_COUNT ==> (#[trigger] r[i])@ == object_item_entry(i as usize).0,
        forall|i: int|
            OBJECT_ITEM_KEY_COUNT <= i < OBJECT_ITEM_KEY_COUNT + DECOR_KEY_COUNT ==> (#[trigger] r[i])@
                == decor_entry((i - OBJECT_ITEM_KEY_COUNT) as usize).0,
{
    let mut keys: Vec<&'static str> = Vec::new();
    let mut i: usize = 0;
    while i < OBJECT_ITEM_KEY_COUNT
        invariant
            i <= OBJECT_ITEM_KEY_COUNT,
            keys.len() == i,
            forall|j: int| 0 <= j < i ==> (#[trigger] keys[j])@ == object_item_entry(j as usize).0,
        decreases OBJECT_ITEM_KEY_COUNT - i,
    {
        keys.push(object_item_key_entry(i).0);
        i = i + 1;
    }
    let mut d: usize = 0;
    while d < DECOR_KEY_COUNT
        invariant
            d <= DECOR_KEY_COUNT,
            keys.len() == OBJECT_ITEM_KEY_COUNT + d,
            forall|j: int| 0 <= j < OBJECT_ITEM_KEY_COUNT ==> (#[trigger] keys[j])@ == object_item_entry(j as usize).0,
            forall|j: int|
                OBJECT_ITEM_KEY_COUNT <= j < OBJECT_ITEM_KEY_COUNT + d ==> (#[trigger] keys[j])@
                    == decor_entry((j - OBJECT_ITEM_KEY_COUNT) as usize).0,
        decreases DECOR_KEY_COUNT - d,
    {
        keys.push(decor_key_entry(d).0);
        d = d + 1;
    }
    keys
}

/// The item a hunted animal yields and its sprite, for an animal key.
pub fn animal_for_key(key: &str) -> (r: Option<(Item, u32)>)
    ensures
        match key_position(KeyTable::Animals, key@) {
            Some(i) => r == Some((animal_entry(i).1, animal_entry(i).2)),
            None => r is None,
        },
{
    match find_key(KeyTable::Animals, key) {
        Some(i) => {
            let (_, item, sprite) = animal_key_entry(i);
            Some((item, sprite))
        },
        None => None,
    }
}

/// Whether a key names a composite tree (or cliff) decor.
pub fn is_tree_like_key(key: &str) -> (r: bool)
    ensures
        r == (definition_of(key@) matches Some(d) && d.composite is Some),
{
    match definition(key) {
        Some(def) => def.composite.is_some(),
        None => false,
    }
}

/// The decor palette number of each composite tree kind.
pub open spec fn composite_id_of(kind: CompositeDecor) -> u8 {
    match kind {
        CompositeDecor::PalmA => 1,
        CompositeDecor::PalmB => 5,
        CompositeDecor::PalmC => 13,
        CompositeDecor::PalmD => 18,
        CompositeDecor::PalmE => 21,
        CompositeDecor::PalmF => 22,
        CompositeDecor::PalmG => 49,
    }
}

/// The decor palette number of a composite tree kind.
pub fn composite_decor_id(kind: CompositeDecor) -> (r: u8)
    ensures
        r == composite_id_of(kind),
{
    match kind {
        CompositeDecor::PalmA => 1,
        CompositeDecor::PalmB => 5,
        CompositeDecor::PalmC => 13,
        CompositeDecor::PalmD => 18,
        CompositeDecor::PalmE => 21,
        CompositeDecor::PalmF => 22,
        CompositeDecor::PalmG => 49,
    }
}

/// A first match is a position whose key is the one sought.
proof fn lemma_first_match_hit(t: KeyTable, n: usize, k: Seq<char>)
    ensures
        first_match(t, n, k) matches Some(i) ==> i < n && table_key(t, i) == k,
    decreases n,
{
    if n > 0 {
        lemma_first_match_hit(t, (n - 1) as usize, k);
    }
}

/// The registry files each definition under its own key: looking up a key
/// gives back a definition with that very key.
pub proof fn lemma_definition_key_is_query(k: Seq<char>)
    ensures
        definition_of(k) matches Some(d) ==> d.key == k,
{
    lemma_first_match_hit(KeyTable::Animals, ANIMAL_KEY_COUNT, k);
    lemma_first_match_hit(KeyTable::ObjectItems, OBJECT_ITEM_KEY_COUNT, k);
    lemma_first_match_hit(KeyTable::Decor, DECOR_KEY_COUNT, k);
}

/// A key that no position below `n` holds has no first match there.
pub(crate) proof fn lemma_first_match_miss(t: KeyTable, n: usize, k: Seq<char>)
    requires
        forall|i: usize| i < n ==> #[trigger] table_key(t, i) != k,
    ensures
        first_match(t, n, k) is None,
    decreases n,
{
    if n > 0 {
        lemma_first_match_miss(t, (n - 1) as usize, k);
    }
}

/// None of the three marker keys is an animal key or a placed-item key.
pub(crate) proof fn lemma_marker_keys_are_not_tabled(k: Seq<char>)
    requires
        k == "spawn_marker"@ || k == "dummi_marker"@ || k == "raft_marker"@,
    ensures
        key_position(KeyTable::Animals, k) is None,
        key_position(KeyTable::ObjectItems, k) is None,
        k != "dropped_coconut"@,
{
    reveal_strlit("spawn_marker");
    reveal_strlit("dummi_marker");
    reveal_strlit("raft_marker");
    reveal_strlit("dropped_coconut");
    assert(k.len() != "dropped_coconut"@.len());
    reveal_strlit("animal_wild_goat");
    reveal_strlit("animal_crab");
    reveal_strlit("animal_alligator");
    reveal_strlit("animal_jaguar");
    reveal_strlit("animal_peccary");
    reveal_strlit("animal_porcupine");
    reveal_strlit("animal_turtle");
    reveal_strlit("animal_green_snake");
    reveal_strlit("animal_boa");
    reveal_strlit("animal_green_parrot");
    reveal_strlit("animal_seagull");
    reveal_strlit("animal_pelican");
    reveal_strlit("animal_shark");
    reveal_strlit("animal_green_iguana");
    reveal_strlit("animal_toucan");
    reveal_strlit("animal_red_ibis");
    assert forall|i: usize| i < ANIMAL_KEY_COUNT implies #[trigger] table_key(KeyTable::Animals, i) != k by {
        assert(table_key(KeyTable::Animals, i)[0] == 'a');
    }
    lemma_first_match_miss(KeyTable::Animals, ANIMAL_KEY_COUNT, k);
    reveal_strlit("mango");
    reveal_strlit("coconut");
    reveal_strlit("gray_fish");
    reveal_strlit("stone");
    reveal_strlit("wild_goat");
    reveal_strlit("axe");
    reveal_strlit("vine");
    reveal_strlit("dry_grass");
    reveal_strlit("branch");
    reveal_strlit("tent");
    reveal_strlit("cabin");
    reveal_strlit("log");
    reveal_strlit("sail");
    reveal_strlit("nail");
    reveal_strlit("fishing_rod");
    reveal_strlit("single_bed");
    reveal_strlit("fire");
    reveal_strlit("flag");
    reveal_strlit("pirate_shipwreck");
    reveal_strlit("pirate_ship");
    reveal_strlit("clay");
    reveal_strlit("rock");
    reveal_strlit("sextant");
    reveal_strlit("map");
    reveal_strlit("banana");
    reveal_strlit("papaya");
    reveal_strlit("potato");
    reveal_strlit("pineapple");
    reveal_strlit("berry");
    reveal_strlit("hide");
    reveal_strlit("white_mushroom");
    reveal_strlit("red_mushroom");
    reveal_strlit("cream_mushroom");
    reveal_strlit("orange_mushroom");
    reveal_strlit("rug_machine");
    reveal_strlit("tree_root");
    reveal_strlit("stick");
    reveal_strlit("plank");
    reveal_strlit("bamboo");
    reveal_strlit("moss");
    reveal_strlit("brown_fish");
    reveal_strlit("crab");
    reveal_strlit("alligator");
    reveal_strlit("jaguar");
    reveal_strlit("peccary");
    reveal_strlit("arrow");
    reveal_strlit("porcupine");
    reveal_strlit("turtle");
    reveal_strlit("green_snake");
    reveal_strlit("boa");
    reveal_strlit("barrel");
    reveal_strlit("green_parrot");
    reveal_strlit("seagull");
    reveal_strlit("pelican");
    reveal_strlit("large_sail");
    reveal_strlit("shark");
    reveal_strlit("rug");
    reveal_strlit("green_iguana");
    reveal_strlit("toucan");
    reveal_strlit("red_ibis");
    reveal_strlit("spiral");
    reveal_strlit("whelk");
    reveal_strlit("oyster");
    reveal_strlit("clam");
    reveal_strlit("conch");
    reveal_strlit("fur");
    reveal_strlit("sea_snail");
    reveal_strlit("mussel");
    reveal_strlit("scallop");
    reveal_strlit("starfish");
    reveal_strlit("sea_urchin");
    reveal_strlit("egg");
    reveal_strlit("knife");
    reveal_strlit("hammer");
    reveal_strlit("saw");
    reveal_strlit("anchor");
    reveal_strlit("compass");
    reveal_strlit("bow");
    reveal_strlit("roasting_spit");
    reveal_strlit("net");
    reveal_strlit("broken_raft");
    reveal_strlit("double_bed");
    reveal_strlit("needle");
    reveal_strlit("pot");
    reveal_strlit("potters_wheel");
    reveal_strlit("plane");
    reveal_strlit("worms");
    reveal_strlit("rope");
    reveal_strlit("gunpowder");
    reveal_strlit("giant_log");
    reveal_strlit("raft");
    reveal_strlit("machete");
    reveal_strlit("scissors");
    reveal_strlit("cotton");
    assert forall|i: usize| i < OBJECT_ITEM_KEY_COUNT implies #[trigger] table_key(KeyTable::ObjectItems, i) != k by {
        let e = table_key(KeyTable::ObjectItems, i);
        if e.len() == k.len() {
            assert(e[e.len() - 2] != k[k.len() - 2] || e[0] != k[0] || e[1] != k[1]);
        }
    }
    lemma_first_match_miss(KeyTable::ObjectItems, OBJECT_ITEM_KEY_COUNT, k);
}

/// The keys of the registry's animal table, then its placed-item table,
/// then the dropped coconut, by one running position.
pub open spec fn registry_key(i: int) -> Seq<char> {
    if i < ANIMAL_KEY_COUNT {
        animal_entry(i as usize).0
    } else if i < ANIMAL_KEY_COUNT + OBJECT_ITEM_KEY_COUNT {
        object_item_entry((i - ANIMAL_KEY_COUNT) as usize).0
    } else {
        "dropped_coconut"@
    }
}

/// A number built from a key's length, its first two characters and its
/// last one.
spec fn key_code(k: Seq<char>) -> int {
    ((k.len() * 128 + k[0] as int) * 128 + k[1] as int) * 128 + k[k.len() - 1] as int
}

/// The running registry position whose key has a given number.
spec fn registry_slot_of_code(c: int) -> int {
    if c == 35157876 {
        0
    } else if c == 24672098 {
        1
    } else if c == 35157874 {
        2
    } else if c == 28866418 {
        3
    } else if c == 30963577 {
        4
    } else if c == 35157861 {
        5
    } else if c == 28866405 {
        6
    } else if c == 39352165 {
        7
    } else if c == 22574945 {
        8
    } else if c == 41449332 {
        9
    } else if c == 30963564 {
        10
    } else if c == 30963566 {
        11
    } else if c == 26769259 {
        12
    } else if c == 41449313 {
        13
    } else if c == 28866414 {
        14
    } else if c == 33060723 {
        15
    } else if c == 12284143 {
        16
    } else if c == 16316404 {
        17
    } else if c == 20576616 {
        18
    } else if c == 12384869 {
        19
    } else if c == 20837620 {
        20
    } else if c == 7896165 {
        21
    } else if c == 10335461 {
        22
    } else if c == 20527475 {
        23
    } else if c == 14203240 {
        24
    } else if c == 10302196 {
        25
    } else if c == 12120302 {
        26
    } else if c == 8075239 {
        27
    } else if c == 10285292 {
        28
    } else if c == 10203372 {
        29
    } else if c == 24753380 {
        30
    } else if c == 22869220 {
        31
    } else if c == 10073317 {
        32
    } else if c == 10073703 {
        33
    } else if c == 35402987 {
        34
    } else if c == 24917232 {
        35
    } else if c == 10024569 {
        36
    } else if c == 10270699 {
        37
    } else if c == 16577268 {
        38
    } else if c == 8089840 {
        39
    } else if c == 14201057 {
        40
    } else if c == 14430433 {
        41
    } else if c == 14432239 {
        42
    } else if c == 20722917 {
        43
    } else if c == 12104441 {
        44
    } else if c == 10106085 {
        45
    } else if c == 31323245 {
        46
    } else if c == 27046637 {
        47
    } else if c == 30996845 {
        48
    } else if c == 33290605 {
        49
    } else if c == 24951525 {
        50
    } else if c == 20789620 {
        51
    } else if c == 12384875 {
        52
    } else if c == 12334699 {
        53
    } else if c == 14201071 {
        54
    } else if c == 10188787 {
        55
    } else if c == 22591848 {
        56
    } else if c == 10025314 {
        57
    } else if c == 20477554 {
        58
    } else if c == 14332146 {
        59
    } else if c == 16528121 {
        60
    } else if c == 12089719 {
        61
    } else if c == 20723685 {
        62
    } else if c == 14498533 {
        63
    } else if c == 24770917 {
        64
    } else if c == 7911393 {
        65
    } else if c == 14201068 {
        66
    } else if c == 26868084 {
        67
    } else if c == 16577260 {
        68
    } else if c == 16528110 {
        69
    } else if c == 22753516 {
        70
    } else if c == 12383339 {
        71
    } else if c == 8174311 {
        72
    } else if c == 26868065 {
        73
    } else if c == 14497774 {
        74
    } else if c == 18658035 {
        75
    } else if c == 14481516 {
        76
    } else if c == 12448875 {
        77
    } else if c == 14417138 {
        78
    } else if c == 10024557 {
        79
    } else if c == 12122088 {
        80
    } else if c == 7977714 {
        81
    } else if c == 20771564 {
        82
    } else if c == 14383852 {
        83
    } else if c == 16577008 {
        84
    } else if c == 18676328 {
        85
    } else if c == 22868718 {
        86
    } else if c == 7959527 {
        87
    } else if c == 12253029 {
        88
    } else if c == 14299378 {
        89
    } else if c == 8188151 {
        90
    } else if c == 14186354 {
        91
    } else if c == 16316403 {
        92
    } else if c == 7911415 {
        93
    } else if c == 29145076 {
        94
    } else if c == 8106740 {
        95
    } else if c == 24689012 {
        96
    } else if c == 22624228 {
        97
    } else if c == 14398181 {
        98
    } else if c == 8140788 {
        99
    } else if c == 29112300 {
        100
    } else if c == 12334693 {
        101
    } else if c == 12449779 {
        102
    } else if c == 10270693 {
        103
    } else if c == 20577010 {
        104
    } else if c == 20575463 {
        105
    } else if c == 10268916 {
        106
    } else if c == 16478437 {
        107
    } else if c == 18674163 {
        108
    } else if c == 14219246 {
        109
    } else if c == 33110388 {
        110
    } else {
        -1
    }
}

/// Each registry key's number leads back to its own position.
proof fn lemma_registry_key_code(i: int)
    requires
        0 <= i <= ANIMAL_KEY_COUNT + OBJECT_ITEM_KEY_COUNT,
    ensures
        registry_slot_of_code(key_code(registry_key(i))) == i,
{
    if i == 0 {
        reveal_strlit("animal_wild_goat");
    } else if i == 1 {
        reveal_strlit("animal_crab");
    } else if i == 2 {
        reveal_strlit("animal_alligator");
    } else if i == 3 {
        reveal_strlit("animal_jaguar");
    } else if i == 4 {
        reveal_strlit("animal_peccary");
    } else if i == 5 {
        reveal_strlit("animal_porcupine");
    } else if i == 6 {
        reveal_strlit("animal_turtle");
    } else if i == 7 {
        reveal_strlit("animal_green_snake");
    } else if i == 8 {
        reveal_strlit("animal_boa");
    } else if i == 9 {
        reveal_strlit("animal_green_parrot");
    } else if i == 10 {
        reveal_strlit("animal_seagull");
    } else if i == 11 {
        reveal_strlit("animal_pelican");
    } else if i == 12 {
        reveal_strlit("animal_shark");
    } else if i == 13 {
        reveal_strlit("animal_green_iguana");
    } else if i == 14 {
        reveal_strlit("animal_toucan");
    } else if i == 15 {
        reveal_strlit("animal_red_ibis");
    } else if i == 16 {
        reveal_strlit("mango");
    } else if i == 17 {
        reveal_strlit("coconut");
    } else if i == 18 {
        reveal_strlit("gray_fish");
    } else if i == 19 {
        reveal_strlit("stone");
    } else if i == 20 {
        reveal_strlit("wild_goat");
    } else if i == 21 {
        reveal_strlit("axe");
    } else if i == 22 {
        reveal_strlit("vine");
    } else if i == 23 {
        reveal_strlit("dry_grass");
    } else if i == 24 {
        reveal_strlit("branch");
    } else if i == 25 {
        reveal_strlit("tent");
    } else if i == 26 {
        reveal_strlit("cabin");
    } else if i == 27 {
        reveal_strlit("log");
    } else if i == 28 {
        reveal_strlit("sail");
    } else if i == 29 {
        reveal_strlit("nail");
    } else if i == 30 {
        reveal_strlit("fishing_rod");
    } else if i == 31 {
        reveal_strlit("single_bed");
    } else if i == 32 {
        reveal_strlit("fire");
    } else if i == 33 {
        reveal_strlit("flag");
    } else if i == 34 {
        reveal_strlit("pirate_shipwreck");
    } else if i == 35 {
        reveal_strlit("pirate_ship");
    } else if i == 36 {
        reveal_strlit("clay");
    } else if i == 37 {
        reveal_strlit("rock");
    } else if i == 38 {
        reveal_strlit("sextant");
    } else if i == 39 {
        reveal_strlit("map");
    } else if i == 40 {
        reveal_strlit("banana");
    } else if i == 41 {
        reveal_strlit("papaya");
    } else if i == 42 {
        reveal_strlit("potato");
    } else if i == 43 {
        reveal_strlit("pineapple");
    } else if i == 44 {
        reveal_strlit("berry");
    } else if i == 45 {
        reveal_strlit("hide");
    } else if i == 46 {
        reveal_strlit("white_mushroom");
    } else if i == 47 {
        reveal_strlit("red_mushroom");
    } else if i == 48 {
        reveal_strlit("cream_mushroom");
    } else if i == 49 {
        reveal_strlit("orange_mushroom");
    } else if i == 50 {
        reveal_strlit("rug_machine");
    } else if i == 51 {
        reveal_strlit("tree_root");
    } else if i == 52 {
        reveal_strlit("stick");
    } else if i == 53 {
        reveal_strlit("plank");
    } else if i == 54 {
        reveal_strlit("bamboo");
    } else if i == 55 {
        reveal_strlit("moss");
    } else if i == 56 {
        reveal_strlit("brown_fish");
    } else if i == 57 {
        reveal_strlit("crab");
    } else if i == 58 {
        reveal_strlit("alligator");
    } else if i == 59 {
        reveal_strlit("jaguar");
    } else if i == 60 {
        reveal_strlit("peccary");
    } else if i == 61 {
        reveal_strlit("arrow");
    } else if i == 62 {
        reveal_strlit("porcupine");
    } else if i == 63 {
        reveal_strlit("turtle");
    } else if i == 64 {
        reveal_strlit("green_snake");
    } else if i == 65 {
        reveal_strlit("boa");
    } else if i == 66 {
        reveal_strlit("barrel");
    } else if i == 67 {
        reveal_strlit("green_parrot");
    } else if i == 68 {
        reveal_strlit("seagull");
    } else if i == 69 {
        reveal_strlit("pelican");
    } else if i == 70 {
        reveal_strlit("large_sail");
    } else if i == 71 {
        reveal_strlit("shark");
    } else if i == 72 {
        reveal_strlit("rug");
    } else if i == 73 {
        reveal_strlit("green_iguana");
    } else if i == 74 {
        reveal_strlit("toucan");
    } else if i == 75 {
        reveal_strlit("red_ibis");
    } else if i == 76 {
        reveal_strlit("spiral");
    } else if i == 77 {
        reveal_strlit("whelk");
    } else if i == 78 {
        reveal_strlit("oyster");
    } else if i == 79 {
        reveal_strlit("clam");
    } else if i == 80 {
        reveal_strlit("conch");
    } else if i == 81 {
        reveal_strlit("fur");
    } else if i == 82 {
        reveal_strlit("sea_snail");
    } else if i == 83 {
        reveal_strlit("mussel");
    } else if i == 84 {
        reveal_strlit("scallop");
    } else if i == 85 {
        reveal_strlit("starfish");
    } else if i == 86 {
        reveal_strlit("sea_urchin");
    } else if i == 87 {
        reveal_strlit("egg");
    } else if i == 88 {
        reveal_strlit("knife");
    } else if i == 89 {
        reveal_strlit("hammer");
    } else if i == 90 {
        reveal_strlit("saw");
    } else if i == 91 {
        reveal_strlit("anchor");
    } else if i == 92 {
        reveal_strlit("compass");
    } else if i == 93 {
        reveal_strlit("bow");
    } else if i == 94 {
        reveal_strlit("roasting_spit");
    } else if i == 95 {
        reveal_strlit("net");
    } else if i == 96 {
        reveal_strlit("broken_raft");
    } else if i == 97 {
        reveal_strlit("double_bed");
    } else if i == 98 {
        reveal_strlit("needle");
    } else if i == 99 {
        reveal_strlit("pot");
    } else if i == 100 {
        reveal_strlit("potters_wheel");
    } else if i == 101 {
        reveal_strlit("plane");
    } else if i == 102 {
        reveal_strlit("worms");
    } else if i == 103 {
        reveal_strlit("rope");
    } else if i == 104 {
        reveal_strlit("gunpowder");
    } else if i == 105 {
        reveal_strlit("giant_log");
    } else if i == 106 {
        reveal_strlit("raft");
    } else if i == 107 {
        reveal_strlit("machete");
    } else if i == 108 {
        reveal_strlit("scissors");
    } else if i == 109 {
        reveal_strlit("cotton");
    } else if i == 110 {
        reveal_strlit("dropped_coconut");
    }
}

/// No two positions of the registry's animal and placed-item tables, nor
/// the dropped coconut, share a key.
pub proof fn lemma_registry_keys_distinct(i: int, j: int)
    requires
        0 <= i <= ANIMAL_KEY_COUNT + OBJECT_ITEM_KEY_COUNT,
        0 <= j <= ANIMAL_KEY_COUNT + OBJECT_ITEM_KEY_COUNT,
        i != j,
    ensures
        registry_key(i) != registry_key(j),
{
    lemma_registry_key_code(i);
    lemma_registry_key_code(j);
}

/// A placed-item key is looked up as that placed item: it is no animal key,
/// not the dropped coconut, and its first entry in the placed-item table is
/// its own.
pub proof fn lemma_object_key_lookup(j: usize)
    requires
        j < OBJECT_ITEM_KEY_COUNT,
    ensures
        key_position(KeyTable::Animals, object_item_entry(j).0) is None,
        object_item_entry(j).0 != "dropped_coconut"@,
        key_position(KeyTable::ObjectItems, object_item_entry(j).0) == Some(j),
{
    let k = object_item_entry(j).0;
    let at: int = ANIMAL_KEY_COUNT + j;
    assert(registry_key(at) == k);
    assert forall|a: usize| a < ANIMAL_KEY_COUNT implies #[trigger] table_key(KeyTable::Animals, a) != k by {
        lemma_registry_keys_distinct(a as int, at);
        assert(registry_key(a as int) == table_key(KeyTable::Animals, a));
    }
    lemma_first_match_miss(KeyTable::Animals, ANIMAL_KEY_COUNT, k);
    lemma_registry_keys_distinct(at, ANIMAL_KEY_COUNT + OBJECT_ITEM_KEY_COUNT);
    assert forall|b: usize| b < j implies #[trigger] table_key(KeyTable::ObjectItems, b) != k by {
        lemma_registry_keys_distinct(ANIMAL_KEY_COUNT + b, at);
        assert(registry_key(ANIMAL_KEY_COUNT + b) == table_key(KeyTable::ObjectItems, b));
    }
    lemma_first_match_miss(KeyTable::ObjectItems, j, k);
    assert(first_match(KeyTable::ObjectItems, (j + 1) as usize, k) == Some(j));
    lemma_first_match_stable(KeyTable::ObjectItems, (j + 1) as usize, OBJECT_ITEM_KEY_COUNT, k);
}

} // verus!
