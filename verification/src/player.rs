//! The player's facing, the tile in front of them, their walk sprites, and
//! the clothing they wear with its overlay sprites.

use vstd::prelude::*;
use crate::inventory::Item;

verus! {

/// The direction the player faces.
#[derive(Debug, Clone, Copy, PartialEq, Eq, Structural)]
pub enum Facing {
    North,
    South,
    East,
    West,
}

/// The first sprite of a facing on the player sheet: idle pose, then four
/// walk frames.
pub open spec fn base_sprite_of(facing: Facing) -> u32 {
    match facing {
        Facing::South => 0,
        Facing::North => 5,
        Facing::West => 10,
        Facing::East => 15,
    }
}

impl Facing {
    /// Base sprite index on the player sheet for this facing direction.
    pub fn base_sprite(self) -> (r: u32)
        ensures
            r == base_sprite_of(self),
    {
        match self {
            Facing::South => 0,
            Facing::North => 5,
            Facing::West => 10,
            Facing::East => 15,
        }
    }
}

/// The tile one step from a tile in a facing direction (north is up).
pub open spec fn step_toward(tile: (i32, i32), facing: Facing) -> (int, int) {
    match facing {
        Facing::North => (tile.0 as int, tile.1 - 1),
        Facing::South => (tile.0 as int, tile.1 + 1),
        Facing::West => (tile.0 - 1, tile.1 as int),
        Facing::East => (tile.0 + 1, tile.1 as int),
    }
}

/// The tile in front of a player standing on `tile` and facing `facing`:
/// the tile that "interact with what's in front of me" actions use.
pub fn facing_tile(tile: (i32, i32), facing: Facing) -> (r: (i32, i32))
    requires
        i32::MIN < tile.0 < i32::MAX,
        i32::MIN < tile.1 < i32::MAX,
    ensures
        r.0 == step_toward(tile, facing).0,
        r.1 == step_toward(tile, facing).1,
{
    let (tx, ty) = tile;
    match facing {
        Facing::North => (tx, ty - 1),
        Facing::South => (tx, ty + 1),
        Facing::West => (tx - 1, ty),
        Facing::East => (tx + 1, ty),
    }
}

/// The player sprite: the idle pose when standing, else one of the four
/// walk frames picked by `walk_step`.
pub fn player_sprite_index(facing: Facing, moving: bool, walk_step: u32) -> (r: u32)
    ensures
        !moving ==> r == base_sprite_of(facing),
        moving ==> r == base_sprite_of(facing) + 1 + walk_step % 4,
{
    let base = facing.base_sprite();
    if !moving {
        return base;
    }
    base + 1 + walk_step % 4
}

/// The first clothing overlay sprite on sheet 5 for an item worn facing a
/// direction, and whether it is a hat (one fixed sprite per direction).
pub open spec fn clothing_base(item: Item, facing: Facing) -> Option<(u32, bool)> {
    match item {
        Item::TShirt => Some((match facing {
            Facing::North => 0u32,
            Facing::South => 15u32,
            Facing::West => 30u32,
            Facing::East => 45u32,
        }, false)),
        Item::PirateJacket => Some((match facing {
            Facing::North => 5u32,
            Facing::South => 20u32,
            Facing::West => 35u32,
            Facing::East => 50u32,
        }, false)),
        Item::WoolJacket => Some((match facing {
            Facing::North => 10u32,
            Facing::South => 25u32,
            Facing::West => 40u32,
            Facing::East => 55u32,
        }, false)),
        Item::HideJacket => Some((match facing {
            Facing::North => 60u32,
            Facing::South => 75u32,
            Facing::West => 90u32,
            Facing::East => 105u32,
        }, false)),
        Item::CottonPants => Some((match facing {
            Facing::North => 65u32,
            Facing::South => 80u32,
            Facing::West => 95u32,
            Facing::East => 110u32,
        }, false)),
        Item::Loincloth => Some((match facing {
            Facing::North => 70u32,
            Facing::South => 85u32,
            Facing::West => 100u32,
            Facing::East => 115u32,
        }, false)),
        Item::FurPants => Some((match facing {
            Facing::North => 120u32,
            Facing::South => 135u32,
            Facing::West => 150u32,
            Facing::East => 165u32,
        }, false)),
        Item::WoolPants => Some((match facing {
            Facing::North => 125u32,
            Facing::South => 140u32,
            Facing::West => 155u32,
            Facing::East => 170u32,
        }, false)),
        Item::HideShoe => Some((match facing {
            Facing::North => 130u32,
            Facing::South => 145u32,
            Facing::West => 160u32,
            Facing::East => 175u32,
        }, false)),
        Item::CottonShoe => Some((match facing {
            Facing::North => 180u32,
            Facing::South => 195u32,
            Facing::West => 210u32,
            Facing::East => 225u32,
        }, false)),
        Item::StrawShoe => Some((match facing {
            Facing::North => 185u32,
            Facing::South => 200u32,
            Facing::West => 215u32,
            Facing::East => 230u32,
        }, false)),
        Item::FurShoe => Some((match facing {
            Facing::North => 190u32,
            Facing::South => 205u32,
            Facing::West => 220u32,
            Facing::East => 235u32,
        }, false)),
        Item::HideHat => Some((match facing {
            Facing::North => 240u32,
            Facing::South => 241u32,
            Facing::West => 242u32,
            Facing::East => 243u32,
        }, true)),
        Item::Hat => Some((match facing {
            Facing::North => 244u32,
            Facing::South => 245u32,
            Facing::West => 246u32,
            Facing::East => 247u32,
        }, true)),
        Item::StrawHat => Some((match facing {
            Facing::North => 248u32,
            Facing::South => 249u32,
            Facing::West => 250u32,
            Facing::East => 251u32,
        }, true)),
        Item::FurHat => Some((match facing {
            Facing::North => 252u32,
            Facing::South => 253u32,
            Facing::West => 254u32,
            Facing::East => 255u32,
        }, true)),
        _ => None,
    }
}

/// The clothing overlay sprite on sheet 5 for an item worn facing a
/// direction at a walk frame: hats have one sprite per direction, other
/// clothes follow the five-frame walk cycle. Items that are not clothes
/// have none.
pub fn clothing_sprite_index(item: Item, facing: Facing, walk_frame: u32) -> (r: Option<u32>)
    ensures
        match clothing_base(item, facing) {
            Some((base, true)) => r == Some(base),
            Some((base, false)) => r == Some((base + walk_frame % 5) as u32),
            None => r is None,
        },
{
    let frame = walk_frame % 5;
    let base: u32 = match item {
        Item::TShirt => match facing {
            Facing::North => 0,
            Facing::South => 15,
            Facing::West => 30,
            Facing::East => 45,
        },
        Item::PirateJacket => match facing {
            Facing::North => 5,
            Facing::South => 20,
            Facing::West => 35,
            Facing::East => 50,
        },
        Item::WoolJacket => match facing {
            Facing::North => 10,
            Facing::South => 25,
            Facing::West => 40,
            Facing::East => 55,
        },
        Item::HideJacket => match facing {
            Facing::North => 60,
            Facing::South => 75,
            Facing::West => 90,
            Facing::East => 105,
        },
        Item::CottonPants => match facing {
            Facing::North => 65,
            Facing::South => 80,
            Facing::West => 95,
            Facing::East => 110,
        },
        Item::Loincloth => match facing {
            Facing::North => 70,
            Facing::South => 85,
            Facing::West => 100,
            Facing::East => 115,
        },
        Item::FurPants => match facing {
            Facing::North => 120,
            Facing::South => 135,
            Facing::West => 150,
            Facing::East => 165,
        },
        Item::WoolPants => match facing {
            Facing::North => 125,
            Facing::South => 140,
            Facing::West => 155,
            Facing::East => 170,
        },
        Item::HideShoe => match facing {
            Facing::North => 130,
            Facing::South => 145,
            Facing::West => 160,
            Facing::East => 175,
        },
        Item::CottonShoe => match facing {
            Facing::North => 180,
            Facing::South => 195,
            Facing::West => 210,
            Facing::East => 225,
        },
        Item::StrawShoe => match facing {
            Facing::North => 185,
            Facing::South => 200,
            Facing::West => 215,
            Facing::East => 230,
        },
        Item::FurShoe => match facing {
            Facing::North => 190,
            Facing::South => 205,
            Facing::West => 220,
            Facing::East => 235,
        },
        Item::HideHat => match facing {
            Facing::North => return Some(240),
            Facing::South => return Some(241),
            Facing::West => return Some(242),
            Facing::East => return Some(243),
        },
        Item::Hat => match facing {
            Facing::North => return Some(244),
            Facing::South => return Some(245),
            Facing::West => return Some(246),
            Facing::East => return Some(247),
        },
        Item::StrawHat => match facing {
            Facing::North => return Some(248),
            Facing::South => return Some(249),
            Facing::West => return Some(250),
            Facing::East => return Some(251),
        },
        Item::FurHat => match facing {
            Facing::North => return Some(252),
            Facing::South => return Some(253),
            Facing::West => return Some(254),
            Facing::East => return Some(255),
        },
        _ => return None,
    };
    Some(base + frame)
}

/// The body slot an item of clothing is worn in.
#[derive(Debug, Clone, Copy, PartialEq, Eq, Structural)]
pub enum ClothingSlot {
    Hat,
    Jacket,
    Pants,
    Shoes,
}

/// The slot each item of clothing takes.
pub open spec fn slot_of(item: Item) -> Option<ClothingSlot> {
    match item {
        Item::TShirt | Item::PirateJacket | Item::WoolJacket | Item::HideJacket => Some(
            ClothingSlot::Jacket,
        ),
        Item::CottonPants | Item::Loincloth | Item::FurPants | Item::WoolPants => Some(
            ClothingSlot::Pants,
        ),
        Item::HideShoe | Item::CottonShoe | Item::StrawShoe | Item::FurShoe => Some(
            ClothingSlot::Shoes,
        ),
        Item::HideHat | Item::Hat | Item::StrawHat | Item::FurHat => Some(ClothingSlot::Hat),
        _ => None,
    }
}

/// The slot an item of clothing takes, if it is clothing.
pub fn clothing_slot(item: Item) -> (r: Option<ClothingSlot>)
    ensures
        r == slot_of(item),
{
    match item {
        Item::TShirt | Item::PirateJacket | Item::WoolJacket | Item::HideJacket => Some(
            ClothingSlot::Jacket,
        ),
        Item::CottonPants | Item::Loincloth | Item::FurPants | Item::WoolPants => Some(
            ClothingSlot::Pants,
        ),
        Item::HideShoe | Item::CottonShoe | Item::StrawShoe | Item::FurShoe => Some(
            ClothingSlot::Shoes,
        ),
        Item::HideHat | Item::Hat | Item::StrawHat | Item::FurHat => Some(ClothingSlot::Hat),
        _ => None,
    }
}

/// What the player wears, one item or nothing per slot.
#[derive(Debug, Clone, Copy, PartialEq, Eq, Structural)]
pub struct Outfit {
    pub hat: Option<Item>,
    pub jacket: Option<Item>,
    pub pants: Option<Item>,
    pub shoes: Option<Item>,
}

/// The item worn in a slot.
pub open spec fn worn_in(o: Outfit, slot: ClothingSlot) -> Option<Item> {
    match slot {
        ClothingSlot::Hat => o.hat,
        ClothingSlot::Jacket => o.jacket,
        ClothingSlot::Pants => o.pants,
        ClothingSlot::Shoes => o.shoes,
    }
}

impl Outfit {
    /// Nothing worn.
    pub fn new() -> (r: Outfit)
        ensures
            r.hat is None && r.jacket is None && r.pants is None && r.shoes is None,
    {
        Outfit { hat: None, jacket: None, pants: None, shoes: None }
    }

    /// Put on an item of clothing, or take it off when it is already worn;
    /// whatever else filled its slot comes off. Other slots, and items that
    /// are not clothing, change nothing.
    pub fn toggle(&mut self, item: Item)
        ensures
            match slot_of(item) {
                Some(slot) => {
                    &&& worn_in(*final(self), slot) == if worn_in(*old(self), slot) == Some(item) {
                        None
                    } else {
                        Some(item)
                    }
                    &&& forall|other: ClothingSlot|
                        other != slot ==> worn_in(*final(self), other) == worn_in(*old(self), other)
                },
                None => *final(self) == *old(self),
            },
    {
        match clothing_slot(item) {
            Some(ClothingSlot::Jacket) => {
                if self.jacket == Some(item) {
                    self.jacket = None;
                } else {
                    self.jacket = Some(item);
                }
            },
            Some(ClothingSlot::Pants) => {
                if self.pants == Some(item) {
                    self.pants = None;
                } else {
                    self.pants = Some(item);
                }
            },
            Some(ClothingSlot::Shoes) => {
                if self.shoes == Some(item) {
                    self.shoes = None;
                } else {
                    self.shoes = Some(item);
                }
            },
            Some(ClothingSlot::Hat) => {
                if self.hat == Some(item) {
                    self.hat = None;
                } else {
                    self.hat = Some(item);
                }
            },
            None => {},
        }
    }
}

/// Toggling the same item of clothing twice leaves the outfit as it was.
pub proof fn lemma_toggle_twice_restores(o: Outfit, mid: Outfit, end: Outfit, item: Item)
    requires
        match slot_of(item) {
            Some(slot) => {
                &&& worn_in(mid, slot) == if worn_in(o, slot) == Some(item) {
                    None
                } else {
                    Some(item)
                }
                &&& forall|other: ClothingSlot| other != slot ==> worn_in(mid, other) == worn_in(o, other)
                &&& worn_in(end, slot) == if worn_in(mid, slot) == Some(item) {
                    None
                } else {
                    Some(item)
                }
                &&& forall|other: ClothingSlot| other != slot ==> worn_in(end, other) == worn_in(mid, other)
            },
            None => mid == o && end == mid,
        },
        slot_of(item) matches Some(slot) ==> worn_in(o, slot) is None || worn_in(o, slot) == Some(item),
    ensures
        end == o,
{
    if let Some(slot) = slot_of(item) {
        assert(worn_in(end, ClothingSlot::Hat) == worn_in(o, ClothingSlot::Hat));
        assert(worn_in(end, ClothingSlot::Jacket) == worn_in(o, ClothingSlot::Jacket));
        assert(worn_in(end, ClothingSlot::Pants) == worn_in(o, ClothingSlot::Pants));
        assert(worn_in(end, ClothingSlot::Shoes) == worn_in(o, ClothingSlot::Shoes));
    }
}

} // verus!
