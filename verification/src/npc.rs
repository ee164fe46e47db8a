//! Animal rules: which animals flee or attack, what examining or touching
//! one says, their walk-cycle frames, where each kind may stand, and the
//! sweep that turns animal placements into wandering animals.

use vstd::prelude::*;
use vstd::string::StringExecFns;
use crate::inventory::{Item, item_label};
use crate::objects::{ObjectPlacement, KeyTable, animal_entry, animal_for_key, key_position};
use crate::text::str_eq;
use crate::world::{MAP_BYTES, MAP_W, Terrain, World, terrain_of};

verus! {

/// The direction an animal faces.
#[derive(Debug, Clone, Copy, PartialEq, Eq, Structural)]
pub enum Facing {
    North,
    South,
    East,
    West,
}

/// Birds that fly off when the player comes close.
pub open spec fn fleeing_bird_key(k: Seq<char>) -> bool {
    k == "animal_green_parrot"@ || k == "animal_seagull"@ || k == "animal_pelican"@ || k
        == "animal_toucan"@ || k == "animal_red_ibis"@
}

/// Animals that attack when touched.
pub open spec fn dangerous_animal_key(k: Seq<char>) -> bool {
    k == "animal_alligator"@ || k == "animal_jaguar"@ || k == "animal_green_snake"@ || k
        == "animal_boa"@ || k == "animal_shark"@
}

/// Small, quick animals.
pub open spec fn small_animal_key(k: Seq<char>) -> bool {
    k == "animal_crab"@ || k == "animal_turtle"@ || k == "animal_green_iguana"@
}

/// Animals that live in the water.
pub open spec fn water_animal_key(k: Seq<char>) -> bool {
    k == "animal_seagull"@ || k == "animal_shark"@
}

/// Whether an animal key is a bird that flees from the player.
pub fn is_fleeing_bird(key: &str) -> (r: bool)
    ensures
        r == fleeing_bird_key(key@),
{
    str_eq(key, "animal_green_parrot") || str_eq(key, "animal_seagull") || str_eq(
        key,
        "animal_pelican",
    ) || str_eq(key, "animal_toucan") || str_eq(key, "animal_red_ibis")
}

/// Whether an animal key is one that attacks when touched.
pub fn is_dangerous_animal(key: &str) -> (r: bool)
    ensures
        r == dangerous_animal_key(key@),
{
    str_eq(key, "animal_alligator") || str_eq(key, "animal_jaguar") || str_eq(
        key,
        "animal_green_snake",
    ) || str_eq(key, "animal_boa") || str_eq(key, "animal_shark")
}

fn is_small_animal(key: &str) -> (r: bool)
    ensures
        r == small_animal_key(key@),
{
    str_eq(key, "animal_crab") || str_eq(key, "animal_turtle") || str_eq(key, "animal_green_iguana")
}

/// The hunting advice for an animal, by whether a bow and arrows are carried.
pub open spec fn hunt_advice(has_bow: bool, has_arrow: bool) -> Seq<char> {
    if has_bow && has_arrow {
        "Face it and press E to hunt it."@
    } else if has_bow {
        "You need arrows before you can hunt it."@
    } else {
        "Craft a bow and arrows before hunting it."@
    }
}

/// What examining an animal says.
pub open spec fn examine_text_of(k: Seq<char>, drop: Item, has_bow: bool, has_arrow: bool) -> Seq<char> {
    let name = item_label(drop);
    let hunt = hunt_advice(has_bow, has_arrow);
    if dangerous_animal_key(k) {
        "Dangerous "@ + name + ". Keep your distance. "@ + hunt
    } else if fleeing_bird_key(k) {
        name + ". It will flee if you get too close. "@ + hunt
    } else if small_animal_key(k) {
        name + ". It is small, quick, and hard to grab. "@ + hunt
    } else {
        name + ". Approach carefully. "@ + hunt
    }
}

/// The text shown when examining an animal with key `key` that yields `drop`.
pub fn animal_examine_text(key: &str, drop: Item, has_bow: bool, has_arrow: bool) -> (r: String)
    ensures
        r@ == examine_text_of(key@, drop, has_bow, has_arrow),
{
    let name = drop.label();
    let hunt_text = if has_bow && has_arrow {
        "Face it and press E to hunt it."
    } else if has_bow {
        "You need arrows before you can hunt it."
    } else {
        "Craft a bow and arrows before hunting it."
    };
    let mut out: String;
    if is_dangerous_animal(key) {
        out = String::from_str("Dangerous ");
        out.append(name);
        out.append(". Keep your distance. ");
    } else if is_fleeing_bird(key) {
        out = String::from_str(name);
        out.append(". It will flee if you get too close. ");
    } else if is_small_animal(key) {
        out = String::from_str(name);
        out.append(". It is small, quick, and hard to grab. ");
    } else {
        out = String::from_str(name);
        out.append(". Approach carefully. ");
    }
    out.append(hunt_text);
    out
}

/// The outcome of touching an animal: what the player is told, and whether
/// the animal bolts away from them.
pub struct DirectInteraction {
    pub text: String,
    pub flees: bool,
}

/// What touching an animal says: dangerous animals attack and stay put;
/// others bolt away, with advice on hunting them.
pub open spec fn direct_text_of(k: Seq<char>, drop: Item, has_bow: bool, has_arrow: bool) -> Seq<char> {
    let name = item_label(drop);
    if dangerous_animal_key(k) {
        "The "@ + name + " attacks as you get too close!"@
    } else if has_bow && has_arrow {
        "The "@ + name + " bolts away. Face it and press E."@
    } else if has_bow {
        "The "@ + name + " bolts away. You need arrows to hunt it."@
    } else {
        "The "@ + name + " bolts away. You need a bow and arrows."@
    }
}

/// Touching an animal: the text shown and whether it flees.
pub fn direct_interaction_text(key: &str, drop: Item, has_bow: bool, has_arrow: bool) -> (r: DirectInteraction)
    ensures
        r.text@ == direct_text_of(key@, drop, has_bow, has_arrow),
        r.flees == !dangerous_animal_key(key@),
{
    let mut text = String::from_str("The ");
    text.append(drop.label());
    if is_dangerous_animal(key) {
        text.append(" attacks as you get too close!");
        return DirectInteraction { text, flees: false };
    }
    if has_bow && has_arrow {
        text.append(" bolts away. Face it and press E.");
    } else if has_bow {
        text.append(" bolts away. You need arrows to hunt it.");
    } else {
        text.append(" bolts away. You need a bow and arrows.");
    }
    DirectInteraction { text, flees: true }
}

/// The walk-cycle frames of an animal key on sheet 2 facing east (first)
/// and facing any other way (second); empty for keys without animation.
pub open spec fn animal_frames(k: Seq<char>) -> (Seq<u32>, Seq<u32>) {
    if k == "animal_wild_goat"@ {
        (seq![2u32, 3u32], seq![0u32, 1u32])
    } else if k == "animal_turtle"@ {
        (seq![8u32, 9u32], seq![6u32, 7u32])
    } else if k == "animal_peccary"@ {
        (seq![12u32, 13u32], seq![10u32, 11u32])
    } else if k == "animal_alligator"@ {
        (seq![16u32, 17u32], seq![14u32, 15u32])
    } else if k == "animal_porcupine"@ {
        (seq![20u32, 21u32], seq![18u32, 19u32])
    } else if k == "animal_crab"@ {
        (seq![40u32, 41u32], seq![40u32, 41u32])
    } else if k == "animal_green_iguana"@ {
        (seq![44u32, 45u32], seq![42u32, 43u32])
    } else if k == "animal_boa"@ {
        (seq![48u32, 49u32], seq![46u32, 47u32])
    } else if k == "animal_green_snake"@ {
        (seq![54u32, 55u32], seq![52u32, 53u32])
    } else if k == "animal_seagull"@ {
        (seq![72u32, 73u32], seq![70u32, 71u32])
    } else if k == "animal_pelican"@ {
        (seq![80u32, 81u32], seq![78u32, 79u32])
    } else if k == "animal_jaguar"@ {
        (seq![88u32, 89u32], seq![86u32, 87u32])
    } else if k == "animal_shark"@ {
        (seq![93u32, 94u32, 95u32], seq![90u32, 91u32, 92u32])
    } else if k == "animal_green_parrot"@ {
        (seq![104u32, 105u32], seq![102u32, 103u32])
    } else if k == "animal_red_ibis"@ {
        (seq![112u32, 113u32], seq![110u32, 111u32])
    } else if k == "animal_toucan"@ {
        (seq![120u32, 121u32], seq![118u32, 119u32])
    } else {
        (Seq::empty(), Seq::empty())
    }
}

/// The walk-cycle frames of an animal facing a direction; the east-facing
/// cycle differs, the others share one.
pub open spec fn frames_facing(k: Seq<char>, facing: Facing) -> Seq<u32> {
    if facing == Facing::East {
        animal_frames(k).0
    } else {
        animal_frames(k).1
    }
}

/// The walk-cycle sprite frames on sheet 2 of an animal facing a direction.
pub fn animal_animation_frames(key: &str, facing: Facing) -> (r: Vec<u32>)
    ensures
        r@ == frames_facing(key@, facing),
{
    let east = facing == Facing::East;
    if str_eq(key, "animal_wild_goat") {
        if east {
            vec![2, 3]
        } else {
            vec![0, 1]
        }
    } else if str_eq(key, "animal_turtle") {
        if east {
            vec![8, 9]
        } else {
            vec![6, 7]
        }
    } else if str_eq(key, "animal_peccary") {
        if east {
            vec![12, 13]
        } else {
            vec![10, 11]
        }
    } else if str_eq(key, "animal_alligator") {
        if east {
            vec![16, 17]
        } else {
            vec![14, 15]
        }
    } else if str_eq(key, "animal_porcupine") {
        if east {
            vec![20, 21]
        } else {
            vec![18, 19]
        }
    } else if str_eq(key, "animal_crab") {
        vec![40, 41]
    } else if str_eq(key, "animal_green_iguana") {
        if east {
            vec![44, 45]
        } else {
            vec![42, 43]
        }
    } else if str_eq(key, "animal_boa") {
        if east {
            vec![48, 49]
        } else {
            vec![46, 47]
        }
    } else if str_eq(key, "animal_green_snake") {
        if east {
            vec![54, 55]
        } else {
            vec![52, 53]
        }
    } else if str_eq(key, "animal_seagull") {
        if east {
            vec![72, 73]
        } else {
            vec![70, 71]
        }
    } else if str_eq(key, "animal_pelican") {
        if east {
            vec![80, 81]
        } else {
            vec![78, 79]
        }
    } else if str_eq(key, "animal_jaguar") {
        if east {
            vec![88, 89]
        } else {
            vec![86, 87]
        }
    } else if str_eq(key, "animal_shark") {
        if east {
            vec![93, 94, 95]
        } else {
            vec![90, 91, 92]
        }
    } else if str_eq(key, "animal_green_parrot") {
        if east {
            vec![104, 105]
        } else {
            vec![102, 103]
        }
    } else if str_eq(key, "animal_red_ibis") {
        if east {
            vec![112, 113]
        } else {
            vec![110, 111]
        }
    } else if str_eq(key, "animal_toucan") {
        if east {
            vec![120, 121]
        } else {
            vec![118, 119]
        }
    } else {
        Vec::new()
    }
}

/// The sprite an animal shows: its own sprite when it has no animation,
/// the first frame when standing still, else the frame `step` picks.
pub open spec fn animal_sprite_of(k: Seq<char>, facing: Facing, sprite: u32, moving: bool, step: usize) -> u32 {
    let frames = frames_facing(k, facing);
    if frames.len() == 0 {
        sprite
    } else if !moving {
        frames[0]
    } else {
        frames[(step as int) % (frames.len() as int)]
    }
}

/// The sprite an animal shows this frame.
pub fn animal_sprite(key: &str, facing: Facing, sprite: u32, moving: bool, step: usize) -> (r: u32)
    ensures
        r == animal_sprite_of(key@, facing, sprite, moving, step),
{
    let frames = animal_animation_frames(key, facing);
    if frames.len() == 0 {
        return sprite;
    }
    if !moving {
        return frames[0];
    }
    frames[step % frames.len()]
}

/// Whether an animal of a kind may stand on a tile: the seagull and the
/// shark only in water, every other animal only on dry land inside the map.
pub open spec fn animal_can_stand_on(k: Seq<char>, t: Terrain) -> bool {
    let is_water = t == Terrain::ShallowWater || t == Terrain::DeepWater || t == Terrain::LilyWater;
    if water_animal_key(k) {
        is_water
    } else {
        !is_water && t != Terrain::Empty
    }
}

/// Whether an animal may stand on a tile.
pub fn animal_can_stand(key: &str, world: &World, tx: i32, ty: i32) -> (r: bool)
    requires
        world.wf(),
    ensures
        r == animal_can_stand_on(key@, terrain_of(world.full_byte_at(tx, ty))),
{
    let t = world.terrain_at(tx, ty);
    let is_water = matches!(t, Terrain::ShallowWater | Terrain::DeepWater | Terrain::LilyWater);
    let is_water_animal = str_eq(key, "animal_seagull") || str_eq(key, "animal_shark");
    if is_water_animal {
        is_water
    } else {
        !is_water && !matches!(t, Terrain::Empty)
    }
}

/// Where an animal starts wandering: its key, what it yields, its sprite,
/// and its tile.
#[derive(Debug, Clone, Copy)]
pub struct AnimalSpawn {
    pub key: &'static str,
    pub drop: Item,
    pub sprite: u32,
    pub x: i32,
    pub y: i32,
}

/// The placement is an animal.
pub open spec fn is_animal_placement(p: Option<ObjectPlacement>) -> bool {
    p matches Some(pl) && key_position(KeyTable::Animals, pl.key@) is Some
}

/// The animals among the first `n` tiles of an objects layer, in tile order.
pub open spec fn spawns_upto(objects: Seq<Option<ObjectPlacement>>, n: int) -> Seq<AnimalSpawn>
    decreases n,
{
    if n <= 0 {
        Seq::empty()
    } else {
        let prev = spawns_upto(objects, n - 1);
        let p = objects[n - 1];
        if is_animal_placement(p) {
            let e = animal_entry(key_position(KeyTable::Animals, p.unwrap().key@).unwrap());
            prev.push(
                AnimalSpawn {
                    key: p.unwrap().key,
                    drop: e.1,
                    sprite: e.2,
                    x: ((n - 1) % MAP_W as int) as i32,
                    y: ((n - 1) / MAP_W as int) as i32,
                },
            )
        } else {
            prev
        }
    }
}

/// Take every animal off the objects layer, in tile order, and report where
/// each was so it can wander from there; all other placements stay.
pub fn take_animal_spawns(world: &mut World) -> (r: Vec<AnimalSpawn>)
    requires
        old(world).wf(),
    ensures
        final(world).wf(),
        r@ == spawns_upto(old(world).objects@, MAP_BYTES as int),
        forall|i: int|
            0 <= i < MAP_BYTES ==> #[trigger] final(world).objects@[i] == if is_animal_placement(
                old(world).objects@[i],
            ) {
                None
            } else {
                old(world).objects@[i]
            },
        final(world).full@ == old(world).full@,
        final(world).borders@ == old(world).borders@,
        final(world).decor@ == old(world).decor@,
        final(world).rocks@ == old(world).rocks@,
        final(world).original_full@ == old(world).original_full@,
        final(world).original_borders@ == old(world).original_borders@,
        final(world).tide_low == old(world).tide_low,
        final(world).tide_rising == old(world).tide_rising,
        final(world).player_built == old(world).player_built,
        forall|i: int| 0 <= i < MAP_BYTES ==> !is_animal_placement(#[trigger] final(world).objects@[i]),
{
    let ghost objs = world.objects@;
    let mut npcs: Vec<AnimalSpawn> = Vec::new();
    let mut i: usize = 0;
    while i < world.objects.len()
        invariant
            world.wf(),
            i <= MAP_BYTES,
            objs == old(world).objects@,
            npcs@ == spawns_upto(objs, i as int),
            forall|j: int|
                0 <= j < i ==> #[trigger] world.objects@[j] == if is_animal_placement(objs[j]) {
                    None
                } else {
                    objs[j]
                },
            forall|j: int| i <= j < MAP_BYTES ==> #[trigger] world.objects@[j] == objs[j],
            world.full@ == old(world).full@,
            world.borders@ == old(world).borders@,
            world.decor@ == old(world).decor@,
            world.rocks@ == old(world).rocks@,
            world.original_full@ == old(world).original_full@,
            world.original_borders@ == old(world).original_borders@,
            world.tide_low == old(world).tide_low,
            world.tide_rising == old(world).tide_rising,
            world.player_built == old(world).player_built,
        decreases MAP_BYTES - i,
    {
        if let Some(placement) = world.objects[i] {
            match animal_for_key(placement.key) {
                Some((drop, sprite)) => {
                    let x = (i % MAP_W) as i32;
                    let y = (i / MAP_W) as i32;
                    npcs.push(AnimalSpawn { key: placement.key, drop, sprite, x, y });
                    world.objects.set(i, None);
                },
                None => {},
            }
        }
        i = i + 1;
    }
    npcs
}

/// Once the animals are taken off a layer, taking them again finds none.
pub proof fn lemma_no_spawns_without_animals(objects: Seq<Option<ObjectPlacement>>, n: int)
    requires
        forall|i: int| 0 <= i < n ==> !is_animal_placement(#[trigger] objects[i]),
    ensures
        spawns_upto(objects, n) == Seq::<AnimalSpawn>::empty(),
    decreases n,
{
    if n > 0 {
        lemma_no_spawns_without_animals(objects, n - 1);
        assert(!is_animal_placement(objects[n - 1]));
    }
}

/// Among the island's animals exactly the alligator, the jaguar, the green
/// snake, the boa and the shark are dangerous.
pub proof fn lemma_dangerous_animals(i: usize)
    requires
        i < crate::objects::ANIMAL_KEY_COUNT,
    ensures
        dangerous_animal_key(animal_entry(i).0) == matches!(
            animal_entry(i).1,
            Item::Alligator | Item::Jaguar | Item::GreenSnake | Item::Boa | Item::Shark
        ),
{
    reveal_strlit("animal_alligator");
    reveal_strlit("animal_jaguar");
    reveal_strlit("animal_green_snake");
    reveal_strlit("animal_boa");
    reveal_strlit("animal_shark");
    if i != 2 {
        crate::objects::lemma_registry_keys_distinct(i as int, 2);
    }
    if i != 3 {
        crate::objects::lemma_registry_keys_distinct(i as int, 3);
    }
    if i != 7 {
        crate::objects::lemma_registry_keys_distinct(i as int, 7);
    }
    if i != 8 {
        crate::objects::lemma_registry_keys_distinct(i as int, 8);
    }
    if i != 12 {
        crate::objects::lemma_registry_keys_distinct(i as int, 12);
    }
}

} // verus!
