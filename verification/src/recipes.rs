//! Crafting and building recipes, and the check and consumption that a
//! craft performs on the inventory.

use vstd::prelude::*;
use crate::inventory::{Inventory, Item};

verus! {

/// A recipe: the item it makes, the ingredients it consumes with their
/// amounts, and the tools (carried, or built nearby) it needs.
pub struct Recipe {
    pub result: Item,
    pub ingredients: Vec<(Item, u32)>,
    pub tools: Vec<Item>,
}

impl View for Recipe {
    type V = (Item, Seq<(Item, u32)>, Seq<Item>);

    open spec fn view(&self) -> Self::V {
        (self.result, self.ingredients@, self.tools@)
    }
}

/// Every ingredient is carried in at least the amount its entry asks for.
pub open spec fn ingredients_on_hand(inv: Inventory, ings: Seq<(Item, u32)>) -> bool {
    forall|j: int| 0 <= j < ings.len() ==> inv.amount(#[trigger] ings[j].0) >= ings[j].1
}

/// No item appears twice among the ingredients.
pub open spec fn distinct_ingredients(ings: Seq<(Item, u32)>) -> bool {
    forall|a: int, b: int| 0 <= a < b < ings.len() ==> (#[trigger] ings[a]).0 != (#[trigger] ings[b]).0
}

/// The total amount of an item that a list of ingredients consumes.
pub open spec fn required_amount(ings: Seq<(Item, u32)>, item: Item) -> nat
    decreases ings.len(),
{
    if ings.len() == 0 {
        0
    } else {
        required_amount(ings.drop_last(), item) + if ings.last().0 == item {
            ings.last().1 as nat
        } else {
            0
        }
    }
}

/// Each tool is carried, or the facility check reported it nearby.
pub open spec fn tools_available<F: Fn(Item) -> bool>(inv: Inventory, tools: Seq<Item>, f: F) -> bool {
    forall|k: int|
        0 <= k < tools.len() ==> inv.amount(#[trigger] tools[k]) > 0 || f.ensures((tools[k],), true)
}

/// Some tool is neither carried nor reported nearby.
pub open spec fn tool_missing<F: Fn(Item) -> bool>(inv: Inventory, tools: Seq<Item>, f: F) -> bool {
    exists|k: int|
        0 <= k < tools.len() && inv.amount(#[trigger] tools[k]) == 0 && f.ensures((tools[k],), false)
}

/// A prefix of an ingredient list never consumes more of an item than the
/// whole list.
pub proof fn lemma_required_prefix_le(ings: Seq<(Item, u32)>, j: int, item: Item)
    requires
        0 <= j <= ings.len(),
    ensures
        required_amount(ings.take(j), item) <= required_amount(ings, item),
    decreases ings.len(),
{
    if j < ings.len() {
        assert(ings.drop_last().take(j) =~= ings.take(j));
        lemma_required_prefix_le(ings.drop_last(), j, item);
    } else {
        assert(ings.take(j) =~= ings);
    }
}

/// With distinct ingredients, the amount a list consumes of an item is the
/// amount of its entry, or zero where it has none.
pub proof fn lemma_required_distinct(ings: Seq<(Item, u32)>, item: Item)
    requires
        distinct_ingredients(ings),
    ensures
        forall|j: int| 0 <= j < ings.len() && (#[trigger] ings[j]).0 == item ==> required_amount(ings, item) == ings[j].1,
        (forall|j: int| 0 <= j < ings.len() ==> (#[trigger] ings[j]).0 != item) ==> required_amount(ings, item) == 0,
    decreases ings.len(),
{
    if ings.len() > 0 {
        let init = ings.drop_last();
        assert(distinct_ingredients(init)) by {
            assert forall|a: int, b: int| 0 <= a < b < init.len() implies (#[trigger] init[a]).0 != (#[trigger] init[b]).0 by {
                assert(init[a] == ings[a] && init[b] == ings[b]);
            }
        }
        lemma_required_distinct(init, item);
        assert forall|j: int| 0 <= j < ings.len() && (#[trigger] ings[j]).0 == item implies required_amount(ings, item) == ings[j].1 by {
            if j < ings.len() - 1 {
                assert(init[j] == ings[j]);
                assert(ings[j].0 != ings[ings.len() - 1].0);
            }
        }
        if forall|j: int| 0 <= j < ings.len() ==> (#[trigger] ings[j]).0 != item {
            assert forall|j: int| 0 <= j < init.len() implies (#[trigger] init[j]).0 != item by {
                assert(init[j] == ings[j]);
            }
            assert(ings[ings.len() - 1].0 != item);
        }
    }
}

/// When every ingredient of a recipe with distinct ingredients is on hand,
/// the inventory covers what the recipe consumes of each item.
pub proof fn lemma_on_hand_covers_requirement(inv: Inventory, ings: Seq<(Item, u32)>)
    requires
        distinct_ingredients(ings),
        ingredients_on_hand(inv, ings),
    ensures
        forall|it: Item| #[trigger] inv.amount(it) >= required_amount(ings, it),
{
    assert forall|it: Item| #[trigger] inv.amount(it) >= required_amount(ings, it) by {
        lemma_required_distinct(ings, it);
        if exists|j: int| 0 <= j < ings.len() && (#[trigger] ings[j]).0 == it {
            let j = choose|j: int| 0 <= j < ings.len() && (#[trigger] ings[j]).0 == it;
            assert(inv.amount(ings[j].0) >= ings[j].1);
        }
    }
}

impl Recipe {
    /// Whether the player can make this recipe: every ingredient carried in
    /// its amount, and every tool either carried or reported nearby by
    /// `has_near_facility`. Ingredients are checked first; the facility check
    /// runs only for tools that are not carried.
    pub fn can_craft<F: Fn(Item) -> bool>(&self, inv: &Inventory, has_near_facility: F) -> (r: bool)
        requires
            inv.wf(),
            forall|t: Item| has_near_facility.requires((t,)),
        ensures
            r ==> ingredients_on_hand(*inv, self.ingredients@),
            r ==> tools_available(*inv, self.tools@, has_near_facility),
            !r ==> !ingredients_on_hand(*inv, self.ingredients@) || tool_missing(
                *inv,
                self.tools@,
                has_near_facility,
            ),
    {
        let mut j: usize = 0;
        while j < self.ingredients.len()
            invariant
                inv.wf(),
                j <= self.ingredients@.len(),
                forall|q: int|
                    0 <= q < j ==> inv.amount(#[trigger] self.ingredients@[q].0)
                        >= self.ingredients@[q].1,
            decreases self.ingredients@.len() - j,
        {
            let (ing, count) = self.ingredients[j];
            if inv.count(ing) < count {
                assert(!(inv.amount(self.ingredients@[j as int].0) >= self.ingredients@[j as int].1));
                return false;
            }
            j = j + 1;
        }
        let mut k: usize = 0;
        while k < self.tools.len()
            invariant
                inv.wf(),
                ingredients_on_hand(*inv, self.ingredients@),
                forall|t: Item| has_near_facility.requires((t,)),
                k <= self.tools@.len(),
                forall|q: int|
                    0 <= q < k ==> inv.amount(#[trigger] self.tools@[q]) > 0
                        || has_near_facility.ensures((self.tools@[q],), true),
            decreases self.tools@.len() - k,
        {
            let tool = self.tools[k];
            if inv.count(tool) == 0 {
                let near = has_near_facility(tool);
                if !near {
                    assert(inv.amount(self.tools@[k as int]) == 0 && has_near_facility.ensures(
                        (self.tools@[k as int],),
                        false,
                    ));
                    return false;
                }
            }
            k = k + 1;
        }
        true
    }

    /// Take every ingredient of the recipe out of the inventory.
    pub fn consume_ingredients(&self, inv: &mut Inventory)
        requires
            old(inv).wf(),
            forall|it: Item| #[trigger] old(inv).amount(it) >= required_amount(self.ingredients@, it),
        ensures
            final(inv).wf(),
            forall|it: Item|
                #[trigger] final(inv).amount(it) == old(inv).amount(it) - required_amount(
                    self.ingredients@,
                    it,
                ),
            forall|it: Item| #[trigger] final(inv).stored(it) == old(inv).stored(it),
    {
        let ghost ings = self.ingredients@;
        let mut j: usize = 0;
        while j < self.ingredients.len()
            invariant
                inv.wf(),
                ings == self.ingredients@,
                j <= ings.len(),
                forall|it: Item| #[trigger] old(inv).amount(it) >= required_amount(ings, it),
                forall|it: Item|
                    #[trigger] inv.amount(it) == old(inv).amount(it) - required_amount(
                        ings.take(j as int),
                        it,
                    ),
                forall|it: Item| #[trigger] inv.stored(it) == old(inv).stored(it),
            decreases ings.len() - j,
        {
            let (ing, qty) = self.ingredients[j];
            proof {
                assert(ings.take(j + 1).drop_last() =~= ings.take(j as int));
                assert(ings.take(j + 1).last() == (ing, qty));
                lemma_required_prefix_le(ings, j + 1, ing);
            }
            inv.remove(ing, qty);
            proof {
                assert forall|it: Item| #[trigger] inv.amount(it) == old(inv).amount(it) - required_amount(
                    ings.take(j + 1),
                    it,
                ) by {
                    lemma_required_prefix_le(ings, j + 1, it);
                }
            }
            j = j + 1;
        }
        proof {
            assert(ings.take(ings.len() as int) =~= ings);
        }
    }

    /// Make the recipe: consume its ingredients and add one of its result.
    pub fn craft_into(&self, inv: &mut Inventory)
        requires
            old(inv).wf(),
            forall|it: Item| #[trigger] old(inv).amount(it) >= required_amount(self.ingredients@, it),
            old(inv).amount(self.result) - required_amount(self.ingredients@, self.result) + 1
                <= u32::MAX,
        ensures
            final(inv).wf(),
            final(inv).amount(self.result) == old(inv).amount(self.result) - required_amount(
                self.ingredients@,
                self.result,
            ) + 1,
            forall|it: Item|
                it != self.result ==> #[trigger] final(inv).amount(it) == old(inv).amount(it)
                    - required_amount(self.ingredients@, it),
            forall|it: Item| #[trigger] final(inv).stored(it) == old(inv).stored(it),
    {
        self.consume_ingredients(inv);
        inv.add(self.result, 1);
    }

    /// The creations-menu action on this recipe: when it can be made, make
    /// it and report true; otherwise leave the inventory as it was.
    pub fn try_craft<F: Fn(Item) -> bool>(&self, inv: &mut Inventory, has_near_facility: F) -> (r: bool)
        requires
            old(inv).wf(),
            distinct_ingredients(self.ingredients@),
            forall|t: Item| has_near_facility.requires((t,)),
            ingredients_on_hand(*old(inv), self.ingredients@) ==> old(inv).amount(self.result)
                - required_amount(self.ingredients@, self.result) + 1 <= u32::MAX,
        ensures
            final(inv).wf(),
            r ==> ingredients_on_hand(*old(inv), self.ingredients@) && tools_available(
                *old(inv),
                self.tools@,
                has_near_facility,
            ),
            !r ==> !ingredients_on_hand(*old(inv), self.ingredients@) || tool_missing(
                *old(inv),
                self.tools@,
                has_near_facility,
            ),
            r ==> final(inv).amount(self.result) == old(inv).amount(self.result) - required_amount(
                self.ingredients@,
                self.result,
            ) + 1,
            r ==> forall|it: Item|
                it != self.result ==> #[trigger] final(inv).amount(it) == old(inv).amount(it)
                    - required_amount(self.ingredients@, it),
            !r ==> forall|it: Item| #[trigger] final(inv).amount(it) == old(inv).amount(it),
            forall|it: Item| #[trigger] final(inv).stored(it) == old(inv).stored(it),
    {
        if self.can_craft(inv, has_near_facility) {
            proof {
                lemma_on_hand_covers_requirement(*inv, self.ingredients@);
            }
            self.craft_into(inv);
            true
        } else {
            false
        }
    }
}

/// Items that stand on the map as built structures once made.
pub open spec fn is_construction_item(item: Item) -> bool {
    matches!(
        item,
        Item::Tent
            | Item::Cabin
            | Item::SingleBed
            | Item::Fire
            | Item::PirateShip
            | Item::RugMachine
            | Item::Barrel
            | Item::Rug
            | Item::DoubleBed
            | Item::RoastingSpit
            | Item::PotterWheel
            | Item::Raft
            | Item::WeavingMachine
    )
}

/// Whether an item is placed on the map as a physical structure.
pub fn is_construction(item: Item) -> (r: bool)
    ensures
        r == is_construction_item(item),
{
    matches!(
        item,
        Item::Tent
            | Item::Cabin
            | Item::SingleBed
            | Item::Fire
            | Item::PirateShip
            | Item::RugMachine
            | Item::Barrel
            | Item::Rug
            | Item::DoubleBed
            | Item::RoastingSpit
            | Item::PotterWheel
            | Item::Raft
            | Item::WeavingMachine
    )
}

/// The recipes of the creations menu: result, ingredients with their amounts, and tools.
pub open spec fn creation_recipe(i: usize) -> (Item, Seq<(Item, u32)>, Seq<Item>) {
    match i {
        0 => (Item::Axe, seq![(Item::Stone, 1u32), (Item::Branch, 1u32), (Item::Vine, 1u32)], Seq::<Item>::empty()),
        1 => (Item::FishingRod, seq![(Item::Vine, 1u32), (Item::Bamboo, 1u32), (Item::Nail, 1u32)], Seq::<Item>::empty()),
        2 => (Item::Hide, seq![(Item::Peccary, 1u32), (Item::Conch, 1u32)], seq![Item::Knife]),
        3 => (Item::Stick, seq![(Item::Log, 1u32)], seq![Item::Knife]),
        4 => (Item::Plank, seq![(Item::Log, 1u32)], seq![Item::Plane]),
        5 => (Item::Arrow, seq![(Item::Branch, 5u32), (Item::Stone, 1u32)], seq![Item::Knife]),
        6 => (Item::LargeSail, seq![(Item::Sail, 4u32), (Item::Fabric, 1u32), (Item::CottonThread, 1u32)], seq![Item::Needle, Item::Scissors]),
        7 => (Item::Fur, seq![(Item::WildGoat, 1u32), (Item::Conch, 1u32)], seq![Item::Knife]),
        8 => (Item::Bow, seq![(Item::Stick, 1u32), (Item::Rope, 1u32)], seq![Item::Knife]),
        9 => (Item::Net, seq![(Item::Rope, 4u32), (Item::Stone, 4u32)], seq![Item::Knife]),
        10 => (Item::Pot, seq![(Item::Clay, 5u32)], seq![Item::PotterWheel, Item::Fire]),
        11 => (Item::Rope, seq![(Item::Vine, 2u32), (Item::Branch, 1u32)], seq![Item::Knife]),
        12 => (Item::WoolThread, seq![(Item::Wool, 1u32), (Item::Stick, 1u32), (Item::Scallop, 1u32)], seq![Item::Knife]),
        13 => (Item::CottonThread, seq![(Item::Cotton, 2u32), (Item::Plank, 1u32), (Item::SeaSnail, 1u32)], seq![Item::Knife]),
        14 => (Item::Fabric, seq![(Item::CottonThread, 1u32), (Item::Whelk, 4u32)], seq![Item::WeavingMachine]),
        15 => (Item::Wool, seq![(Item::WildGoat, 1u32)], seq![Item::Scissors]),
        16 => (Item::TShirt, seq![(Item::Sail, 2u32), (Item::CottonThread, 1u32)], seq![Item::Needle, Item::Scissors]),
        17 => (Item::PirateJacket, seq![(Item::Fabric, 1u32), (Item::CottonThread, 2u32), (Item::Whelk, 8u32)], seq![Item::Needle, Item::Scissors]),
        18 => (Item::WoolJacket, seq![(Item::Fur, 1u32), (Item::WoolThread, 1u32)], seq![Item::Needle, Item::Knife]),
        19 => (Item::HideJacket, seq![(Item::Hide, 1u32), (Item::WoolThread, 1u32), (Item::Spiral, 6u32)], seq![Item::Needle, Item::Scissors]),
        20 => (Item::CottonPants, seq![(Item::Fabric, 1u32), (Item::CottonThread, 2u32), (Item::Spiral, 2u32)], seq![Item::Needle, Item::Scissors]),
        21 => (Item::Loincloth, seq![(Item::DryGrass, 5u32), (Item::Vine, 1u32)], Seq::<Item>::empty()),
        22 => (Item::FurPants, seq![(Item::Fur, 1u32), (Item::WoolThread, 1u32)], seq![Item::Needle, Item::Knife]),
        23 => (Item::WoolPants, seq![(Item::Hide, 2u32), (Item::WoolThread, 1u32), (Item::Spiral, 1u32), (Item::Rope, 1u32)], seq![Item::Needle, Item::Scissors]),
        24 => (Item::HideShoe, seq![(Item::Hide, 2u32), (Item::WoolThread, 1u32)], seq![Item::Needle, Item::Scissors]),
        25 => (Item::CottonShoe, seq![(Item::Hide, 1u32), (Item::Fabric, 1u32), (Item::CottonThread, 1u32), (Item::Spiral, 2u32)], seq![Item::Needle, Item::Scissors]),
        26 => (Item::StrawShoe, seq![(Item::DryGrass, 4u32), (Item::Vine, 2u32)], Seq::<Item>::empty()),
        27 => (Item::FurShoe, seq![(Item::Fur, 1u32), (Item::WoolThread, 2u32)], seq![Item::Needle, Item::Knife]),
        28 => (Item::HideHat, seq![(Item::Hide, 1u32), (Item::WoolThread, 1u32)], seq![Item::Needle, Item::Scissors]),
        29 => (Item::Hat, seq![(Item::DryGrass, 6u32), (Item::Vine, 1u32)], Seq::<Item>::empty()),
        30 => (Item::StrawHat, seq![(Item::DryGrass, 8u32), (Item::TreeRoot, 5u32)], seq![Item::Knife]),
        _ => (Item::FurHat, seq![(Item::Fur, 1u32), (Item::WoolThread, 1u32)], seq![Item::Needle, Item::Knife]),
    }
}

/// The recipes of the constructions menu: result, ingredients with their amounts, and tools.
pub open spec fn construction_recipe(i: usize) -> (Item, Seq<(Item, u32)>, Seq<Item>) {
    match i {
        0 => (Item::Tent, seq![(Item::Branch, 3u32), (Item::Sail, 1u32)], seq![Item::Knife]),
        1 => (Item::Cabin, seq![(Item::Stick, 4u32), (Item::Rope, 5u32), (Item::GiantLog, 2u32), (Item::Nail, 4u32), (Item::Moss, 3u32), (Item::Rock, 2u32)], seq![Item::Axe, Item::Hammer]),
        2 => (Item::SingleBed, seq![(Item::DryGrass, 8u32), (Item::Branch, 4u32), (Item::Stone, 8u32)], Seq::<Item>::empty()),
        3 => (Item::Fire, seq![(Item::DryGrass, 3u32), (Item::Branch, 2u32), (Item::Stone, 2u32)], Seq::<Item>::empty()),
        4 => (Item::PirateShip, seq![(Item::LargeSail, 1u32), (Item::GiantLog, 3u32), (Item::Nail, 8u32), (Item::Rope, 5u32), (Item::Stick, 6u32), (Item::Moss, 5u32)], seq![Item::Saw, Item::Hammer, Item::Compass, Item::IslandMap, Item::Sextant, Item::Anchor]),
        5 => (Item::RugMachine, seq![(Item::Bamboo, 1u32), (Item::Plank, 2u32), (Item::Rope, 4u32)], seq![Item::Saw, Item::Hammer]),
        6 => (Item::Barrel, seq![(Item::Plank, 4u32), (Item::Rope, 2u32), (Item::Clay, 2u32), (Item::TreeRoot, 2u32)], seq![Item::Axe, Item::Knife]),
        7 => (Item::Rug, seq![(Item::Wool, 3u32), (Item::Spiral, 4u32)], seq![Item::RugMachine]),
        8 => (Item::DoubleBed, seq![(Item::Plank, 4u32), (Item::Bamboo, 1u32), (Item::TreeRoot, 3u32), (Item::Moss, 6u32), (Item::Rock, 1u32)], seq![Item::Saw]),
        9 => (Item::RoastingSpit, seq![(Item::Stick, 3u32)], seq![Item::Knife, Item::Fire]),
        10 => (Item::PotterWheel, seq![(Item::Stick, 1u32), (Item::Bamboo, 1u32), (Item::Rope, 2u32), (Item::Plank, 1u32)], seq![Item::Axe]),
        11 => (Item::Raft, seq![(Item::Stick, 6u32), (Item::Rope, 5u32), (Item::Plank, 5u32), (Item::Nail, 5u32), (Item::TreeRoot, 3u32), (Item::Moss, 4u32)], seq![Item::Saw, Item::Hammer]),
        _ => (Item::WeavingMachine, seq![(Item::Stick, 4u32), (Item::Plank, 2u32), (Item::Rope, 4u32)], seq![Item::Saw, Item::Hammer]),
    }
}
/// The creations menu, in display order.
pub fn creations_recipes() -> (r: Vec<Recipe>)
    ensures
        r.len() == 32,
        forall|i: int| 0 <= i < 32 ==> (#[trigger] r[i])@ == creation_recipe(i as usize),
{
    let mut r: Vec<Recipe> = Vec::new();
    r.push(Recipe { result: Item::Axe, ingredients: vec![(Item::Stone, 1), (Item::Branch, 1), (Item::Vine, 1)], tools: vec![] });
    r.push(Recipe { result: Item::FishingRod, ingredients: vec![(Item::Vine, 1), (Item::Bamboo, 1), (Item::Nail, 1)], tools: vec![] });
    r.push(Recipe { result: Item::Hide, ingredients: vec![(Item::Peccary, 1), (Item::Conch, 1)], tools: vec![Item::Knife] });
    r.push(Recipe { result: Item::Stick, ingredients: vec![(Item::Log, 1)], tools: vec![Item::Knife] });
    r.push(Recipe { result: Item::Plank, ingredients: vec![(Item::Log, 1)], tools: vec![Item::Plane] });
    r.push(Recipe { result: Item::Arrow, ingredients: vec![(Item::Branch, 5), (Item::Stone, 1)], tools: vec![Item::Knife] });
    r.push(Recipe { result: Item::LargeSail, ingredients: vec![(Item::Sail, 4), (Item::Fabric, 1), (Item::CottonThread, 1)], tools: vec![Item::Needle, Item::Scissors] });
    r.push(Recipe { result: Item::Fur, ingredients: vec![(Item::WildGoat, 1), (Item::Conch, 1)], tools: vec![Item::Knife] });
    r.push(Recipe { result: Item::Bow, ingredients: vec![(Item::Stick, 1), (Item::Rope, 1)], tools: vec![Item::Knife] });
    r.push(Recipe { result: Item::Net, ingredients: vec![(Item::Rope, 4), (Item::Stone, 4)], tools: vec![Item::Knife] });
    r.push(Recipe { result: Item::Pot, ingredients: vec![(Item::Clay, 5)], tools: vec![Item::PotterWheel, Item::Fire] });
    r.push(Recipe { result: Item::Rope, ingredients: vec![(Item::Vine, 2), (Item::Branch, 1)], tools: vec![Item::Knife] });
    r.push(Recipe { result: Item::WoolThread, ingredients: vec![(Item::Wool, 1), (Item::Stick, 1), (Item::Scallop, 1)], tools: vec![Item::Knife] });
    r.push(Recipe { result: Item::CottonThread, ingredients: vec![(Item::Cotton, 2), (Item::Plank, 1), (Item::SeaSnail, 1)], tools: vec![Item::Knife] });
    r.push(Recipe { result: Item::Fabric, ingredients: vec![(Item::CottonThread, 1), (Item::Whelk, 4)], tools: vec![Item::WeavingMachine] });
    r.push(Recipe { result: Item::Wool, ingredients: vec![(Item::WildGoat, 1)], tools: vec![Item::Scissors] });
    r.push(Recipe { result: Item::TShirt, ingredients: vec![(Item::Sail, 2), (Item::CottonThread, 1)], tools: vec![Item::Needle, Item::Scissors] });
    r.push(Recipe { result: Item::PirateJacket, ingredients: vec![(Item::Fabric, 1), (Item::CottonThread, 2), (Item::Whelk, 8)], tools: vec![Item::Needle, Item::Scissors] });
    r.push(Recipe { result: Item::WoolJacket, ingredients: vec![(Item::Fur, 1), (Item::WoolThread, 1)], tools: vec![Item::Needle, Item::Knife] });
    r.push(Recipe { result: Item::HideJacket, ingredients: vec![(Item::Hide, 1), (Item::WoolThread, 1), (Item::Spiral, 6)], tools: vec![Item::Needle, Item::Scissors] });
    r.push(Recipe { result: Item::CottonPants, ingredients: vec![(Item::Fabric, 1), (Item::CottonThread, 2), (Item::Spiral, 2)], tools: vec![Item::Needle, Item::Scissors] });
    r.push(Recipe { result: Item::Loincloth, ingredients: vec![(Item::DryGrass, 5), (Item::Vine, 1)], tools: vec![] });
    r.push(Recipe { result: Item::FurPants, ingredients: vec![(Item::Fur, 1), (Item::WoolThread, 1)], tools: vec![Item::Needle, Item::Knife] });
    r.push(Recipe { result: Item::WoolPants, ingredients: vec![(Item::Hide, 2), (Item::WoolThread, 1), (Item::Spiral, 1), (Item::Rope, 1)], tools: vec![Item::Needle, Item::Scissors] });
    r.push(Recipe { result: Item::HideShoe, ingredients: vec![(Item::Hide, 2), (Item::WoolThread, 1)], tools: vec![Item::Needle, Item::Scissors] });
    r.push(Recipe { result: Item::CottonShoe, ingredients: vec![(Item::Hide, 1), (Item::Fabric, 1), (Item::CottonThread, 1), (Item::Spiral, 2)], tools: vec![Item::Needle, Item::Scissors] });
    r.push(Recipe { result: Item::StrawShoe, ingredients: vec![(Item::DryGrass, 4), (Item::Vine, 2)], tools: vec![] });
    r.push(Recipe { result: Item::FurShoe, ingredients: vec![(Item::Fur, 1), (Item::WoolThread, 2)], tools: vec![Item::Needle, Item::Knife] });
    r.push(Recipe { result: Item::HideHat, ingredients: vec![(Item::Hide, 1), (Item::WoolThread, 1)], tools: vec![Item::Needle, Item::Scissors] });
    r.push(Recipe { result: Item::Hat, ingredients: vec![(Item::DryGrass, 6), (Item::Vine, 1)], tools: vec![] });
    r.push(Recipe { result: Item::StrawHat, ingredients: vec![(Item::DryGrass, 8), (Item::TreeRoot, 5)], tools: vec![Item::Knife] });
    r.push(Recipe { result: Item::FurHat, ingredients: vec![(Item::Fur, 1), (Item::WoolThread, 1)], tools: vec![Item::Needle, Item::Knife] });
    assert(r@.len() == 32);
    r
}

/// The constructions menu, in display order.
pub fn constructions_recipes() -> (r: Vec<Recipe>)
    ensures
        r.len() == 13,
        forall|i: int| 0 <= i < 13 ==> (#[trigger] r[i])@ == construction_recipe(i as usize),
{
    let mut r: Vec<Recipe> = Vec::new();
    r.push(Recipe { result: Item::Tent, ingredients: vec![(Item::Branch, 3), (Item::Sail, 1)], tools: vec![Item::Knife] });
    r.push(Recipe { result: Item::Cabin, ingredients: vec![(Item::Stick, 4), (Item::Rope, 5), (Item::GiantLog, 2), (Item::Nail, 4), (Item::Moss, 3), (Item::Rock, 2)], tools: vec![Item::Axe, Item::Hammer] });
    r.push(Recipe { result: Item::SingleBed, ingredients: vec![(Item::DryGrass, 8), (Item::Branch, 4), (Item::Stone, 8)], tools: vec![] });
    r.push(Recipe { result: Item::Fire, ingredients: vec![(Item::DryGrass, 3), (Item::Branch, 2), (Item::Stone, 2)], tools: vec![] });
    r.push(Recipe { result: Item::PirateShip, ingredients: vec![(Item::LargeSail, 1), (Item::GiantLog, 3), (Item::Nail, 8), (Item::Rope, 5), (Item::Stick, 6), (Item::Moss, 5)], tools: vec![Item::Saw, Item::Hammer, Item::Compass, Item::IslandMap, Item::Sextant, Item::Anchor] });
    r.push(Recipe { result: Item::RugMachine, ingredients: vec![(Item::Bamboo, 1), (Item::Plank, 2), (Item::Rope, 4)], tools: vec![Item::Saw, Item::Hammer] });
    r.push(Recipe { result: Item::Barrel, ingredients: vec![(Item::Plank, 4), (Item::Rope, 2), (Item::Clay, 2), (Item::TreeRoot, 2)], tools: vec![Item::Axe, Item::Knife] });
    r.push(Recipe { result: Item::Rug, ingredients: vec![(Item::Wool, 3), (Item::Spiral, 4)], tools: vec![Item::RugMachine] });
    r.push(Recipe { result: Item::DoubleBed, ingredients: vec![(Item::Plank, 4), (Item::Bamboo, 1), (Item::TreeRoot, 3), (Item::Moss, 6), (Item::Rock, 1)], tools: vec![Item::Saw] });
    r.push(Recipe { result: Item::RoastingSpit, ingredients: vec![(Item::Stick, 3)], tools: vec![Item::Knife, Item::Fire] });
    r.push(Recipe { result: Item::PotterWheel, ingredients: vec![(Item::Stick, 1), (Item::Bamboo, 1), (Item::Rope, 2), (Item::Plank, 1)], tools: vec![Item::Axe] });
    r.push(Recipe { result: Item::Raft, ingredients: vec![(Item::Stick, 6), (Item::Rope, 5), (Item::Plank, 5), (Item::Nail, 5), (Item::TreeRoot, 3), (Item::Moss, 4)], tools: vec![Item::Saw, Item::Hammer] });
    r.push(Recipe { result: Item::WeavingMachine, ingredients: vec![(Item::Stick, 4), (Item::Plank, 2), (Item::Rope, 4)], tools: vec![Item::Saw, Item::Hammer] });
    assert(r@.len() == 13);
    r
}

/// The constructions menu makes exactly the construction items: each of its
/// recipes makes one, and each construction item has a recipe there.
pub proof fn lemma_constructions_are_constructions(item: Item)
    ensures
        is_construction_item(item) <==> exists|i: usize| i < 13 && #[trigger] construction_recipe(i).0 == item,
{
    if is_construction_item(item) {
        let i: usize = match item {
            Item::Tent => 0,
            Item::Cabin => 1,
            Item::SingleBed => 2,
            Item::Fire => 3,
            Item::PirateShip => 4,
            Item::RugMachine => 5,
            Item::Barrel => 6,
            Item::Rug => 7,
            Item::DoubleBed => 8,
            Item::RoastingSpit => 9,
            Item::PotterWheel => 10,
            Item::Raft => 11,
            _ => 12,
        };
        assert(construction_recipe(i).0 == item);
    }
}

/// No recipe of either menu lists an ingredient twice.
pub proof fn lemma_recipe_tables_distinct(i: usize)
    ensures
        i < 32 ==> distinct_ingredients(creation_recipe(i).1),
        i < 13 ==> distinct_ingredients(construction_recipe(i).1),
{
}

/// The tools of the creations menu, as the original lists them: the axe,
/// fishing rod, loincloth, straw shoes and hat are made by hand; everything
/// else needs a knife, the plane, needle and scissors, the potter's wheel
/// and a fire, or the weaving machine, exactly as below. A tool that is
/// neither carried nor built nearby keeps the recipe from being crafted.
pub proof fn lemma_creation_tools(i: usize)
    requires
        i < 32,
    ensures
        forall|k: int| 0 <= k < creation_recipe(i).2.len() ==> ({ let x = #[trigger] creation_recipe(i).2[k]; x is Fire || x is Knife || x is Needle || x is Plane || x is PotterWheel || x is Scissors || x is WeavingMachine }),
        creation_recipe(i).2.contains(Item::Fire) == matches!(creation_recipe(i).0, Item::Pot),
        creation_recipe(i).2.contains(Item::Knife) == matches!(creation_recipe(i).0, Item::Hide | Item::Stick | Item::Arrow | Item::Fur | Item::Bow | Item::Net | Item::Rope | Item::WoolThread | Item::CottonThread | Item::WoolJacket | Item::FurPants | Item::FurShoe | Item::StrawHat | Item::FurHat),
        creation_recipe(i).2.contains(Item::Needle) == matches!(creation_recipe(i).0, Item::LargeSail | Item::TShirt | Item::PirateJacket | Item::WoolJacket | Item::HideJacket | Item::CottonPants | Item::FurPants | Item::WoolPants | Item::HideShoe | Item::CottonShoe | Item::FurShoe | Item::HideHat | Item::FurHat),
        creation_recipe(i).2.contains(Item::Plane) == matches!(creation_recipe(i).0, Item::Plank),
        creation_recipe(i).2.contains(Item::PotterWheel) == matches!(creation_recipe(i).0, Item::Pot),
        creation_recipe(i).2.contains(Item::Scissors) == matches!(creation_recipe(i).0, Item::LargeSail | Item::Wool | Item::TShirt | Item::PirateJacket | Item::HideJacket | Item::CottonPants | Item::WoolPants | Item::HideShoe | Item::CottonShoe | Item::HideHat),
        creation_recipe(i).2.contains(Item::WeavingMachine) == matches!(creation_recipe(i).0, Item::Fabric),
        (creation_recipe(i).2.len() == 0) == matches!(creation_recipe(i).0, Item::Axe | Item::FishingRod | Item::Loincloth | Item::StrawShoe | Item::Hat),
{
    let tools = creation_recipe(i).2;
    if tools.len() > 0 {
        assert(tools.contains(tools[0]));
    }
    if tools.len() > 1 {
        assert(tools.contains(tools[1]));
    }
}

/// The tools of the constructions menu, as the original lists them: the
/// single bed and the fire need none; the others need a knife, axe, hammer,
/// saw, the navigation instruments, the rug machine or a fire, exactly as
/// below.
pub proof fn lemma_construction_tools(i: usize)
    requires
        i < 13,
    ensures
        forall|k: int| 0 <= k < construction_recipe(i).2.len() ==> ({ let x = #[trigger] construction_recipe(i).2[k]; x is Anchor || x is Axe || x is Compass || x is Fire || x is Hammer || x is IslandMap || x is Knife || x is RugMachine || x is Saw || x is Sextant }),
        construction_recipe(i).2.contains(Item::Anchor) == matches!(construction_recipe(i).0, Item::PirateShip),
        construction_recipe(i).2.contains(Item::Axe) == matches!(construction_recipe(i).0, Item::Cabin | Item::Barrel | Item::PotterWheel),
        construction_recipe(i).2.contains(Item::Compass) == matches!(construction_recipe(i).0, Item::PirateShip),
        construction_recipe(i).2.contains(Item::Fire) == matches!(construction_recipe(i).0, Item::RoastingSpit),
        construction_recipe(i).2.contains(Item::Hammer) == matches!(construction_recipe(i).0, Item::Cabin | Item::PirateShip | Item::RugMachine | Item::Raft | Item::WeavingMachine),
        construction_recipe(i).2.contains(Item::IslandMap) == matches!(construction_recipe(i).0, Item::PirateShip),
        construction_recipe(i).2.contains(Item::Knife) == matches!(construction_recipe(i).0, Item::Tent | Item::Barrel | Item::RoastingSpit),
        construction_recipe(i).2.contains(Item::RugMachine) == matches!(construction_recipe(i).0, Item::Rug),
        construction_recipe(i).2.contains(Item::Saw) == matches!(construction_recipe(i).0, Item::PirateShip | Item::RugMachine | Item::DoubleBed | Item::Raft | Item::WeavingMachine),
        construction_recipe(i).2.contains(Item::Sextant) == matches!(construction_recipe(i).0, Item::PirateShip),
        (construction_recipe(i).2.len() == 0) == matches!(construction_recipe(i).0, Item::SingleBed | Item::Fire),
{
    let tools = construction_recipe(i).2;
    if tools.len() > 0 {
        assert(tools.contains(tools[0]));
    }
    if tools.len() > 1 {
        assert(tools.contains(tools[1]));
    }
}

} // verus!
