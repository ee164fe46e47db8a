//! What happens when the player acts on the tile in front of them: picking
//! things up, which tool action the tile offers, where a coconut falls, and
//! where the player steps when something is built on their own tile.

use vstd::prelude::*;
use crate::inventory::{Inventory, Item};
use crate::objects::{
    Interaction, OBJECT_ITEM_KEY_COUNT, definition_of, lemma_object_key_lookup, object_item_entry,
};
use crate::text::str_eq;
use crate::objects::is_tree_like_key;
use crate::world::{Terrain, World, pickup_of, terrain_of, tile_index};
use crate::behavior::{
    location_thought_for_marker, thought_flag, thought_text, FIRST_THOUGHT_MARKER,
    LAST_THOUGHT_MARKER,
};
use crate::save::ProgressState;

verus! {

/// Result of one action attempt: the item granted and how many.
#[derive(Debug, Clone, Copy, PartialEq, Eq, Structural)]
pub struct ActionResult {
    pub item: Item,
    pub count: u32,
}

/// What a pickup interaction grants.
pub open spec fn granted(i: Option<Interaction>) -> Option<(Item, u32)> {
    match i {
        Some(Interaction::Pickup(item, count)) => Some((item, count)),
        _ => None,
    }
}

/// What acting on a tile yields: a pickup object first, else pickup debris
/// among the decor. Scenery, animals, markers and rocks yield nothing.
pub open spec fn action_yield(w: World, x: i32, y: i32) -> Option<(Item, u32)> {
    let from_object = match w.object_placement_at(x, y) {
        Some(p) => granted(pickup_of(p.key@)),
        None => None,
    };
    let from_decor = match w.decor_placement_at(x, y) {
        Some(p) => granted(pickup_of(p.key@)),
        None => None,
    };
    if from_object is Some {
        from_object
    } else {
        from_decor
    }
}

/// Interact with whatever is on the tile in front of the player: take a
/// pickup object, or else pickup debris from the decor, into the
/// inventory, and report what was granted.
pub fn try_action(facing: (i32, i32), world: &mut World, inv: &mut Inventory) -> (r: Option<ActionResult>)
    requires
        old(world).wf(),
        old(inv).wf(),
        action_yield(*old(world), facing.0, facing.1) matches Some((it, n)) ==> old(inv).amount(it)
            + n <= u32::MAX,
    ensures
        final(world).wf(),
        final(inv).wf(),
        r == (match action_yield(*old(world), facing.0, facing.1) {
            Some((item, count)) => Some(ActionResult { item, count }),
            None => None,
        }),
        match old(world).object_placement_at(facing.0, facing.1) {
            Some(p) if granted(pickup_of(p.key@)) is Some => {
                &&& final(world).objects@ == old(world).objects@.update(
                    crate::world::tile_index(facing.0, facing.1).unwrap() as int,
                    None,
                )
                &&& final(world).decor@ == old(world).decor@
            },
            _ => {
                &&& final(world).objects@ == old(world).objects@
                &&& r is Some ==> final(world).decor@ == old(world).decor@.update(
                    crate::world::tile_index(facing.0, facing.1).unwrap() as int,
                    None,
                )
                &&& r is None ==> final(world).decor@ == old(world).decor@
            },
        },
        final(world).rocks@ == old(world).rocks@,
        final(world).full@ == old(world).full@,
        final(world).borders@ == old(world).borders@,
        final(world).original_full@ == old(world).original_full@,
        final(world).original_borders@ == old(world).original_borders@,
        final(world).tide_low == old(world).tide_low,
        final(world).tide_rising == old(world).tide_rising,
        final(world).player_built == old(world).player_built,
        r matches Some(res) ==> final(inv).amount(res.item) == old(inv).amount(res.item) + res.count,
        forall|other: Item|
            (r matches Some(res) ==> other != res.item) ==> #[trigger] final(inv).amount(other)
                == old(inv).amount(other),
        forall|other: Item| #[trigger] final(inv).stored(other) == old(inv).stored(other),
{
    let (fx, fy) = facing;
    if let Some(Interaction::Pickup(item, count)) = world.consume_object(fx, fy) {
        inv.add(item, count);
        return Some(ActionResult { item, count });
    }
    if let Some(Interaction::Pickup(item, count)) = world.consume_decor(fx, fy) {
        inv.add(item, count);
        return Some(ActionResult { item, count });
    }
    None
}

/// The direct tool action the faced tile offers.
#[derive(Debug, Clone, Copy, PartialEq, Eq, Structural)]
pub enum ContextualAction {
    Nothing,
    FishDeep,
    FishShallow,
    ThrowStone,
    HuntAnimal(usize),
}

/// The first animal among the first `n` whose tile is `t`.
pub open spec fn first_animal_on(tiles: Seq<(i32, i32)>, n: int, t: (i32, i32)) -> Option<usize>
    decreases n,
{
    if n <= 0 {
        None
    } else {
        match first_animal_on(tiles, n - 1, t) {
            Some(i) => Some(i),
            None => if tiles[n - 1] == t {
                Some((n - 1) as usize)
            } else {
                None
            },
        }
    }
}

proof fn lemma_first_animal_stable(tiles: Seq<(i32, i32)>, n: int, m: int, t: (i32, i32))
    requires
        0 <= n <= m,
        first_animal_on(tiles, n, t) is Some,
    ensures
        first_animal_on(tiles, m, t) == first_animal_on(tiles, n, t),
    decreases m - n,
{
    if n < m {
        lemma_first_animal_stable(tiles, n, m - 1, t);
    }
}

/// The index of the first animal standing on the faced tile.
pub fn facing_animal_index(facing: (i32, i32), animal_tiles: &[(i32, i32)]) -> (r: Option<usize>)
    ensures
        r == first_animal_on(animal_tiles@, animal_tiles@.len() as int, facing),
        r matches Some(i) ==> i < animal_tiles@.len(),
{
    let mut i: usize = 0;
    while i < animal_tiles.len()
        invariant
            i <= animal_tiles@.len(),
            first_animal_on(animal_tiles@, i as int, facing) is None,
        decreases animal_tiles@.len() - i,
    {
        let (ax, ay) = animal_tiles[i];
        if ax == facing.0 && ay == facing.1 {
            proof {
                assert(first_animal_on(animal_tiles@, i + 1, facing) == Some(i));
                lemma_first_animal_stable(animal_tiles@, i + 1, animal_tiles@.len() as int, facing);
            }
            return Some(i);
        }
        i = i + 1;
    }
    None
}

/// A tree or cliff composite stands on the tile, or a coconut hangs there.
pub open spec fn coconut_target_at(w: World, x: i32, y: i32) -> bool {
    (w.decor_placement_at(x, y) matches Some(p) && definition_of(p.key@) matches Some(d)
        && d.composite is Some) || (w.object_placement_at(x, y) matches Some(p) && p.key@
        == "coconut"@)
}

/// The direct action offered on the faced tile, by priority: hunting an
/// animal standing there with bow and arrows, rod fishing in deep water
/// with worms, net fishing in shallows with potatoes, and throwing a stone
/// at a palm or coconut.
pub open spec fn contextual_action_of(
    w: World,
    inv: Inventory,
    animal_tiles: Seq<(i32, i32)>,
    x: i32,
    y: i32,
) -> ContextualAction {
    let terrain = terrain_of(w.full_byte_at(x, y));
    let faced = first_animal_on(animal_tiles, animal_tiles.len() as int, (x, y));
    if faced is Some && inv.amount(Item::Bow) > 0 && inv.amount(Item::Arrow) > 0 {
        ContextualAction::HuntAnimal(faced.unwrap())
    } else if terrain == Terrain::DeepWater && inv.amount(Item::FishingRod) > 0 && inv.amount(
        Item::Worms,
    ) > 0 {
        ContextualAction::FishDeep
    } else if terrain == Terrain::ShallowWater && inv.amount(Item::Net) > 0 && inv.amount(
        Item::Potato,
    ) > 0 {
        ContextualAction::FishShallow
    } else if coconut_target_at(w, x, y) && inv.amount(Item::Stone) > 0 {
        ContextualAction::ThrowStone
    } else {
        ContextualAction::Nothing
    }
}

/// The direct action the faced tile offers, given where the animals stand.
pub fn get_contextual_action(
    facing: (i32, i32),
    world: &World,
    inventory: &Inventory,
    animal_tiles: &[(i32, i32)],
) -> (r: ContextualAction)
    requires
        world.wf(),
        inventory.wf(),
    ensures
        r == contextual_action_of(*world, *inventory, animal_tiles@, facing.0, facing.1),
{
    let (fx, fy) = facing;
    let terrain = world.terrain_at(fx, fy);
    if let Some(idx) = facing_animal_index(facing, animal_tiles) {
        if inventory.count(Item::Bow) > 0 && inventory.count(Item::Arrow) > 0 {
            return ContextualAction::HuntAnimal(idx);
        }
    }
    if terrain == Terrain::DeepWater {
        if inventory.count(Item::FishingRod) > 0 && inventory.count(Item::Worms) > 0 {
            return ContextualAction::FishDeep;
        }
    }
    if terrain == Terrain::ShallowWater {
        if inventory.count(Item::Net) > 0 && inventory.count(Item::Potato) > 0 {
            return ContextualAction::FishShallow;
        }
    }
    if facing_coconut_target(facing, world).is_some() && inventory.count(Item::Stone) > 0 {
        return ContextualAction::ThrowStone;
    }
    ContextualAction::Nothing
}

/// The faced tile, when a stone can be thrown at it for a coconut.
pub fn facing_coconut_target(facing: (i32, i32), world: &World) -> (r: Option<(i32, i32)>)
    requires
        world.wf(),
    ensures
        r is Some <==> coconut_target_at(*world, facing.0, facing.1),
        r matches Some(t) ==> t == facing,
{
    let (fx, fy) = facing;
    let tree_target = match world.decor_at(fx, fy) {
        Some(placement) => is_tree_like_key(placement.key),
        None => false,
    };
    let canopy_target = match world.object_at(fx, fy) {
        Some(placement) => str_eq(placement.key, "coconut"),
        None => false,
    };
    if tree_target || canopy_target {
        Some((fx, fy))
    } else {
        None
    }
}

/// The tiles a fallen coconut may land on, in order of preference.
pub open spec fn coconut_drop_offset(k: int) -> (int, int) {
    if k == 0 {
        (0, 1)
    } else if k == 1 {
        (1, 0)
    } else if k == 2 {
        (-1, 0)
    } else if k == 3 {
        (1, 1)
    } else if k == 4 {
        (-1, 1)
    } else {
        (0, 2)
    }
}

/// A coconut may land on a walkable tile with no object on it.
pub open spec fn coconut_can_land(w: World, x: int, y: int) -> bool {
    &&& i32::MIN <= x <= i32::MAX
    &&& i32::MIN <= y <= i32::MAX
    &&& w.is_walkable_tile(x as i32, y as i32)
    &&& w.object_placement_at(x as i32, y as i32) is None
}

/// Where a coconut knocked from the palm at `(x, y)` falls: the first
/// landing tile, in order of preference, that is walkable and empty.
pub fn find_coconut_drop_tile(world: &World, x: i32, y: i32) -> (r: Option<(i32, i32)>)
    requires
        world.wf(),
        i32::MIN < x < i32::MAX,
        y < i32::MAX - 1,
    ensures
        r matches Some(t) ==> exists|k: int|
            0 <= k < 6 && t.0 == x + coconut_drop_offset(k).0 && t.1 == y + coconut_drop_offset(k).1
                && coconut_can_land(*world, t.0 as int, t.1 as int) && forall|j: int|
                0 <= j < k ==> !#[trigger] coconut_can_land(
                    *world,
                    x + coconut_drop_offset(j).0,
                    y + coconut_drop_offset(j).1,
                ),
        r is None ==> forall|k: int|
            0 <= k < 6 ==> !#[trigger] coconut_can_land(
                *world,
                x + coconut_drop_offset(k).0,
                y + coconut_drop_offset(k).1,
            ),
{
    let offsets: [(i32, i32); 6] = [(0, 1), (1, 0), (-1, 0), (1, 1), (-1, 1), (0, 2)];
    let mut k: usize = 0;
    while k < 6
        invariant
            world.wf(),
            k <= 6,
            i32::MIN < x < i32::MAX,
            y < i32::MAX - 1,
            offsets@ == seq![(0i32, 1i32), (1i32, 0i32), (-1i32, 0i32), (1i32, 1i32), (-1i32, 1i32), (0i32, 2i32)],
            forall|j: int|
                0 <= j < k ==> !#[trigger] coconut_can_land(
                    *world,
                    x + coconut_drop_offset(j).0,
                    y + coconut_drop_offset(j).1,
                ),
        decreases 6 - k,
    {
        let (dx, dy) = offsets[k];
        assert(dx == coconut_drop_offset(k as int).0 && dy == coconut_drop_offset(k as int).1);
        let tx = x + dx;
        let ty = y + dy;
        if world.walkable(tx, ty) && world.object_at(tx, ty).is_none() {
            assert(coconut_can_land(*world, tx as int, ty as int));
            return Some((tx, ty));
        }
        k = k + 1;
    }
    None
}

/// Where a placed item goes: the faced tile, except that a tent or cabin
/// goes on the player's own tile when that tile is a reserved camp spot and
/// the faced one is not. Which tiles are reserved camp spots is told by the
/// two flags.
pub fn placement_target_tile(
    item: Item,
    current: (i32, i32),
    facing: (i32, i32),
    current_is_camp: bool,
    facing_is_camp: bool,
) -> (r: (i32, i32))
    ensures
        r == if (item == Item::Tent || item == Item::Cabin) && current_is_camp && !facing_is_camp {
            current
        } else {
            facing
        },
{
    if matches!(item, Item::Tent | Item::Cabin) {
        if current_is_camp && !facing_is_camp {
            return current;
        }
    }
    facing
}

/// The tiles the player may be moved to when something is built on their
/// own tile, in order of preference.
pub open spec fn escape_offset(k: int) -> (int, int) {
    if k == 0 {
        (0, 1)
    } else if k == 1 {
        (1, 0)
    } else if k == 2 {
        (-1, 0)
    } else if k == 3 {
        (0, -1)
    } else if k == 4 {
        (1, 1)
    } else if k == 5 {
        (-1, 1)
    } else if k == 6 {
        (1, -1)
    } else if k == 7 {
        (-1, -1)
    } else if k == 8 {
        (0, 2)
    } else if k == 9 {
        (2, 0)
    } else {
        (-2, 0)
    }
}

/// The player may step onto the tile.
pub open spec fn player_can_step(w: World, x: int, y: int) -> bool {
    &&& i32::MIN <= x <= i32::MAX
    &&& i32::MIN <= y <= i32::MAX
    &&& w.is_player_walkable_tile(x as i32, y as i32)
}

/// Where the player moves when a structure is placed on the tile they
/// stand on: the first neighbouring tile, in order of preference, that
/// the player can walk on. Nothing moves when the player stands elsewhere
/// or no neighbour is free.
pub fn move_player_out_of_placed_tile(world: &World, player_tile: (i32, i32), placed: (i32, i32)) -> (r: Option<(i32, i32)>)
    requires
        world.wf(),
        i32::MIN + 2 <= placed.0 <= i32::MAX - 2,
        i32::MIN + 2 <= placed.1 <= i32::MAX - 2,
    ensures
        player_tile != placed ==> r is None,
        player_tile == placed && r is None ==> forall|k: int|
            0 <= k < 11 ==> !#[trigger] player_can_step(
                *world,
                placed.0 + escape_offset(k).0,
                placed.1 + escape_offset(k).1,
            ),
        r matches Some(t) ==> player_tile == placed && exists|k: int|
            0 <= k < 11 && t.0 == placed.0 + escape_offset(k).0 && t.1 == placed.1 + escape_offset(
                k,
            ).1 && player_can_step(*world, t.0 as int, t.1 as int) && forall|j: int|
                0 <= j < k ==> !#[trigger] player_can_step(
                    *world,
                    placed.0 + escape_offset(j).0,
                    placed.1 + escape_offset(j).1,
                ),
{
    if player_tile.0 != placed.0 || player_tile.1 != placed.1 {
        return None;
    }
    assert(player_tile == placed);
    let offsets: [(i32, i32); 11] = [
        (0, 1),
        (1, 0),
        (-1, 0),
        (0, -1),
        (1, 1),
        (-1, 1),
        (1, -1),
        (-1, -1),
        (0, 2),
        (2, 0),
        (-2, 0),
    ];
    let mut k: usize = 0;
    while k < 11
        invariant
            world.wf(),
            k <= 11,
            player_tile == placed,
            i32::MIN + 2 <= placed.0 <= i32::MAX - 2,
            i32::MIN + 2 <= placed.1 <= i32::MAX - 2,
            offsets@ == seq![
                (0i32, 1i32),
                (1i32, 0i32),
                (-1i32, 0i32),
                (0i32, -1i32),
                (1i32, 1i32),
                (-1i32, 1i32),
                (1i32, -1i32),
                (-1i32, -1i32),
                (0i32, 2i32),
                (2i32, 0i32),
                (-2i32, 0i32),
            ],
            forall|j: int|
                0 <= j < k ==> !#[trigger] player_can_step(
                    *world,
                    placed.0 + escape_offset(j).0,
                    placed.1 + escape_offset(j).1,
                ),
        decreases 11 - k,
    {
        let (dx, dy) = offsets[k];
        assert(dx == escape_offset(k as int).0 && dy == escape_offset(k as int).1);
        let tx = placed.0 + dx;
        let ty = placed.1 + dy;
        if world.walkable_for_player(tx, ty) {
            assert(player_can_step(*world, tx as int, ty as int));
            return Some((tx, ty));
        }
        k = k + 1;
    }
    None
}

/// The tutorial marker on a tile, if the rocks layer holds one there.
pub open spec fn marker_on(w: World, t: (i32, i32)) -> Option<u8> {
    match tile_index(t.0, t.1) {
        Some(i) => {
            let m = w.rocks@[i as int];
            if FIRST_THOUGHT_MARKER <= m <= LAST_THOUGHT_MARKER {
                Some(m)
            } else {
                None
            }
        },
        None => None,
    }
}

/// A marker on the tile whose thought has not been shown yet.
pub open spec fn unseen_marker(w: World, flags: Set<Seq<char>>, t: (i32, i32)) -> Option<u8> {
    match marker_on(w, t) {
        Some(m) => if !flags.contains(thought_flag(m)) {
            Some(m)
        } else {
            None
        },
        None => None,
    }
}

/// The marker whose thought is shown next: the faced tile's first, then the
/// player's own tile (when it is a different tile).
pub open spec fn next_thought_marker(
    w: World,
    flags: Set<Seq<char>>,
    facing: (i32, i32),
    current: (i32, i32),
) -> Option<u8> {
    match unseen_marker(w, flags, facing) {
        Some(m) => Some(m),
        None => if current == facing {
            None
        } else {
            unseen_marker(w, flags, current)
        },
    }
}

fn unseen_thought_at(world: &World, progress: &mut ProgressState, t: (i32, i32)) -> (r: Option<&'static str>)
    requires
        world.wf(),
    ensures
        match unseen_marker(*world, old(progress).flags(), t) {
            Some(m) => r matches Some(text) && text@ == thought_text(m) && final(progress).flags()
                == old(progress).flags().insert(thought_flag(m)),
            None => r is None && final(progress).flags() == old(progress).flags(),
        },
        final(progress).topics() == old(progress).topics(),
        final(progress).fish_caught == old(progress).fish_caught,
        final(progress).coconuts_won == old(progress).coconuts_won,
        final(progress).animals_hunted == old(progress).animals_hunted,
        final(progress).raft_repaired == old(progress).raft_repaired,
        final(progress).swamp_access == old(progress).swamp_access,
        final(progress).rock_cleared_with_gunpowder == old(progress).rock_cleared_with_gunpowder,
        final(progress).ship_repaired == old(progress).ship_repaired,
{
    let map_idx = match World::index(t.0, t.1) {
        Some(i) => i,
        None => return None,
    };
    let thought = match location_thought_for_marker(world.rocks[map_idx]) {
        Some(th) => th,
        None => return None,
    };
    if progress.insert_tutorial_flag(thought.flag) {
        Some(thought.text)
    } else {
        proof {
            assert(old(progress).flags().insert(thought_flag(thought.marker)) =~= old(progress).flags());
        }
        None
    }
}

/// The tutorial thought to show as the player reaches a marker, recording
/// that it was shown: the faced tile is checked first, then the player's
/// own tile. Each thought is shown once.
pub fn location_thought_for_player(
    world: &World,
    facing: (i32, i32),
    current: (i32, i32),
    progress: &mut ProgressState,
) -> (r: Option<&'static str>)
    requires
        world.wf(),
    ensures
        match next_thought_marker(*world, old(progress).flags(), facing, current) {
            Some(m) => r matches Some(text) && text@ == thought_text(m) && final(progress).flags()
                == old(progress).flags().insert(thought_flag(m)),
            None => r is None && final(progress).flags() == old(progress).flags(),
        },
        final(progress).topics() == old(progress).topics(),
        final(progress).fish_caught == old(progress).fish_caught,
        final(progress).coconuts_won == old(progress).coconuts_won,
        final(progress).animals_hunted == old(progress).animals_hunted,
        final(progress).raft_repaired == old(progress).raft_repaired,
        final(progress).swamp_access == old(progress).swamp_access,
        final(progress).rock_cleared_with_gunpowder == old(progress).rock_cleared_with_gunpowder,
        final(progress).ship_repaired == old(progress).ship_repaired,
{
    if let Some(text) = unseen_thought_at(world, progress, facing) {
        return Some(text);
    }
    if current.0 == facing.0 && current.1 == facing.1 {
        assert(current == facing);
        return None;
    }
    unseen_thought_at(world, progress, current)
}

/// A thought whose flag is already recorded is never chosen again, from any
/// tile: each location thought is shown at most once.
pub proof fn lemma_recorded_thought_not_repeated(
    w: World,
    flags: Set<Seq<char>>,
    facing: (i32, i32),
    current: (i32, i32),
    m: u8,
)
    requires
        flags.contains(thought_flag(m)),
    ensures
        next_thought_marker(w, flags, facing, current) != Some(m),
{
}

/// The placed items that are picked up, as the original lists them: the
/// fruits, mushrooms, shells, fish, stones, wood, rope material, the
/// castaway's finds and the knife. Each such placed item is picked up as one
/// of itself; every other placed item (structures, tools, animals kept as
/// items, the coconut up in its palm) is not picked up at all.
pub proof fn lemma_placed_pickups(j: usize)
    requires
        j < OBJECT_ITEM_KEY_COUNT,
    ensures
        matches!(
            object_item_entry(j).1,
            Item::Mango | Item::GrayFish | Item::Stone | Item::Vine | Item::DryGrass | Item::Branch
                | Item::Log | Item::Sail | Item::Nail | Item::Clay | Item::Rock | Item::Sextant
                | Item::IslandMap | Item::Banana | Item::Papaya | Item::Potato | Item::Pineapple
                | Item::Berry | Item::WhiteMushroom | Item::RedMushroom | Item::CreamMushroom
                | Item::OrangeMushroom | Item::TreeRoot | Item::Stick | Item::Plank | Item::Bamboo
                | Item::Moss | Item::Spiral | Item::Whelk | Item::Oyster | Item::Clam | Item::Conch
                | Item::SeaSnail | Item::Mussel | Item::Scallop | Item::Starfish | Item::SeaUrchin
                | Item::Egg | Item::Knife
        ) ==> pickup_of(object_item_entry(j).0) == Some(Interaction::Pickup(object_item_entry(j).1, 1)),
        !matches!(
            object_item_entry(j).1,
            Item::Mango | Item::GrayFish | Item::Stone | Item::Vine | Item::DryGrass | Item::Branch
                | Item::Log | Item::Sail | Item::Nail | Item::Clay | Item::Rock | Item::Sextant
                | Item::IslandMap | Item::Banana | Item::Papaya | Item::Potato | Item::Pineapple
                | Item::Berry | Item::WhiteMushroom | Item::RedMushroom | Item::CreamMushroom
                | Item::OrangeMushroom | Item::TreeRoot | Item::Stick | Item::Plank | Item::Bamboo
                | Item::Moss | Item::Spiral | Item::Whelk | Item::Oyster | Item::Clam | Item::Conch
                | Item::SeaSnail | Item::Mussel | Item::Scallop | Item::Starfish | Item::SeaUrchin
                | Item::Egg | Item::Knife
        ) ==> pickup_of(object_item_entry(j).0) is None,
{
    lemma_object_key_lookup(j);
}

/// Acting on a tile whose object is a placed pickup item yields one of that
/// item, whatever decor lies there too.
pub proof fn lemma_action_on_placed_pickup(w: World, x: i32, y: i32, j: usize)
    requires
        j < OBJECT_ITEM_KEY_COUNT,
        matches!(
            object_item_entry(j).1,
            Item::Mango | Item::GrayFish | Item::Stone | Item::Vine | Item::DryGrass | Item::Branch
                | Item::Log | Item::Sail | Item::Nail | Item::Clay | Item::Rock | Item::Sextant
                | Item::IslandMap | Item::Banana | Item::Papaya | Item::Potato | Item::Pineapple
                | Item::Berry | Item::WhiteMushroom | Item::RedMushroom | Item::CreamMushroom
                | Item::OrangeMushroom | Item::TreeRoot | Item::Stick | Item::Plank | Item::Bamboo
                | Item::Moss | Item::Spiral | Item::Whelk | Item::Oyster | Item::Clam | Item::Conch
                | Item::SeaSnail | Item::Mussel | Item::Scallop | Item::Starfish | Item::SeaUrchin
                | Item::Egg | Item::Knife
        ),
        w.object_placement_at(x, y) matches Some(p) && p.key@ == object_item_entry(j).0,
    ensures
        action_yield(w, x, y) == Some((object_item_entry(j).1, 1u32)),
{
    lemma_placed_pickups(j);
}

} // verus!
