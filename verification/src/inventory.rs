//! Items, their numbering in the game data, labels and icons, and the player's
//! inventory with its storage chest.

use vstd::prelude::*;

verus! {

/// Number of slots in the item numbering of the game data (0 to 119). Slot
/// 95 is an internal marker and holds no item.
pub const ITEM_SLOTS: usize = 120;

/// Number of distinct items.
pub const ITEM_COUNT: usize = 119;

/// Every item of the game, in the order of the game data's item list.
#[derive(Debug, Clone, Copy, PartialEq, Eq, Hash, Structural)]
pub enum Item {
    Mango,
    Coconut,
    GrayFish,
    Stone,
    WildGoat,
    Axe,
    Vine,
    DryGrass,
    Branch,
    Tent,
    Cabin,
    Log,
    Sail,
    Nail,
    FishingRod,
    SingleBed,
    Fire,
    PirateShip,
    Flag,
    PirateShipwreck,
    Clay,
    Rock,
    Sextant,
    IslandMap,
    Banana,
    Papaya,
    Potato,
    Pineapple,
    Berry,
    Hide,
    WhiteMushroom,
    RedMushroom,
    CreamMushroom,
    OrangeMushroom,
    RugMachine,
    TreeRoot,
    Stick,
    Plank,
    Bamboo,
    Moss,
    Crab,
    Alligator,
    Jaguar,
    Peccary,
    Arrow,
    Porcupine,
    Turtle,
    GreenSnake,
    Boa,
    Barrel,
    GreenParrot,
    Seagull,
    Pelican,
    LargeSail,
    Shark,
    Rug,
    GreenIguana,
    Toucan,
    RedIbis,
    Spiral,
    Whelk,
    Oyster,
    Clam,
    Conch,
    Fur,
    SeaSnail,
    Mussel,
    Scallop,
    Starfish,
    SeaUrchin,
    BrownFish,
    BlueFish,
    YellowFish,
    PufferFish,
    Goldfish,
    Egg,
    Knife,
    Hammer,
    Saw,
    Anchor,
    Compass,
    Bow,
    RoastingSpit,
    Net,
    DoubleBed,
    BrokenRaft,
    Needle,
    Pot,
    PotterWheel,
    Plane,
    Worms,
    Rope,
    Gunpowder,
    GiantLog,
    Raft,
    Machete,
    Scissors,
    Cotton,
    TShirt,
    PirateJacket,
    WoolJacket,
    HideJacket,
    CottonPants,
    Loincloth,
    FurPants,
    WoolPants,
    HideShoe,
    CottonShoe,
    StrawShoe,
    FurShoe,
    HideHat,
    Hat,
    StrawHat,
    FurHat,
    WoolThread,
    CottonThread,
    WeavingMachine,
    Fabric,
    Wool,
}

/// The game data's number of each item.
pub open spec fn item_index(item: Item) -> usize {
    match item {
        Item::Mango => 0,
        Item::Coconut => 1,
        Item::GrayFish => 2,
        Item::Stone => 3,
        Item::WildGoat => 4,
        Item::Axe => 5,
        Item::Vine => 6,
        Item::DryGrass => 7,
        Item::Branch => 8,
        Item::Tent => 9,
        Item::Cabin => 10,
        Item::Log => 11,
        Item::Sail => 12,
        Item::Nail => 13,
        Item::FishingRod => 14,
        Item::SingleBed => 15,
        Item::Fire => 16,
        Item::PirateShip => 19,
        Item::Flag => 17,
        Item::PirateShipwreck => 18,
        Item::Clay => 20,
        Item::Rock => 21,
        Item::Sextant => 22,
        Item::IslandMap => 23,
        Item::Banana => 24,
        Item::Papaya => 25,
        Item::Potato => 26,
        Item::Pineapple => 27,
        Item::Berry => 28,
        Item::Hide => 29,
        Item::WhiteMushroom => 30,
        Item::RedMushroom => 31,
        Item::CreamMushroom => 32,
        Item::OrangeMushroom => 33,
        Item::RugMachine => 34,
        Item::TreeRoot => 35,
        Item::Stick => 36,
        Item::Plank => 37,
        Item::Bamboo => 38,
        Item::Moss => 39,
        Item::Crab => 41,
        Item::Alligator => 42,
        Item::Jaguar => 43,
        Item::Peccary => 44,
        Item::Arrow => 45,
        Item::Porcupine => 46,
        Item::Turtle => 47,
        Item::GreenSnake => 48,
        Item::Boa => 49,
        Item::Barrel => 50,
        Item::GreenParrot => 51,
        Item::Seagull => 52,
        Item::Pelican => 53,
        Item::LargeSail => 54,
        Item::Shark => 55,
        Item::Rug => 60,
        Item::GreenIguana => 61,
        Item::Toucan => 62,
        Item::RedIbis => 63,
        Item::Spiral => 64,
        Item::Whelk => 65,
        Item::Oyster => 66,
        Item::Clam => 67,
        Item::Conch => 68,
        Item::Fur => 69,
        Item::SeaSnail => 70,
        Item::Mussel => 71,
        Item::Scallop => 72,
        Item::Starfish => 73,
        Item::SeaUrchin => 74,
        Item::BrownFish => 40,
        Item::BlueFish => 56,
        Item::YellowFish => 57,
        Item::PufferFish => 58,
        Item::Goldfish => 59,
        Item::Egg => 75,
        Item::Knife => 76,
        Item::Hammer => 77,
        Item::Saw => 78,
        Item::Anchor => 79,
        Item::Compass => 80,
        Item::Bow => 81,
        Item::RoastingSpit => 82,
        Item::Net => 83,
        Item::DoubleBed => 85,
        Item::BrokenRaft => 84,
        Item::Needle => 86,
        Item::Pot => 87,
        Item::PotterWheel => 88,
        Item::Plane => 89,
        Item::Worms => 90,
        Item::Rope => 91,
        Item::Gunpowder => 92,
        Item::GiantLog => 93,
        Item::Raft => 94,
        Item::Machete => 96,
        Item::Scissors => 97,
        Item::Cotton => 98,
        Item::TShirt => 99,
        Item::PirateJacket => 100,
        Item::WoolJacket => 101,
        Item::HideJacket => 102,
        Item::CottonPants => 103,
        Item::Loincloth => 104,
        Item::FurPants => 105,
        Item::WoolPants => 106,
        Item::HideShoe => 107,
        Item::CottonShoe => 108,
        Item::StrawShoe => 109,
        Item::FurShoe => 110,
        Item::HideHat => 111,
        Item::Hat => 112,
        Item::StrawHat => 113,
        Item::FurHat => 114,
        Item::WoolThread => 115,
        Item::CottonThread => 116,
        Item::WeavingMachine => 117,
        Item::Fabric => 118,
        Item::Wool => 119,
    }
}

/// The item that carries a given number, if one does.
pub open spec fn item_at_index(i: usize) -> Option<Item> {
    match i {
        0 => Some(Item::Mango),
        1 => Some(Item::Coconut),
        2 => Some(Item::GrayFish),
        3 => Some(Item::Stone),
        4 => Some(Item::WildGoat),
        5 => Some(Item::Axe),
        6 => Some(Item::Vine),
        7 => Some(Item::DryGrass),
        8 => Some(Item::Branch),
        9 => Some(Item::Tent),
        10 => Some(Item::Cabin),
        11 => Some(Item::Log),
        12 => Some(Item::Sail),
        13 => Some(Item::Nail),
        14 => Some(Item::FishingRod),
        15 => Some(Item::SingleBed),
        16 => Some(Item::Fire),
        17 => Some(Item::Flag),
        18 => Some(Item::PirateShipwreck),
        19 => Some(Item::PirateShip),
        20 => Some(Item::Clay),
        21 => Some(Item::Rock),
        22 => Some(Item::Sextant),
        23 => Some(Item::IslandMap),
        24 => Some(Item::Banana),
        25 => Some(Item::Papaya),
        26 => Some(Item::Potato),
        27 => Some(Item::Pineapple),
        28 => Some(Item::Berry),
        29 => Some(Item::Hide),
        30 => Some(Item::WhiteMushroom),
        31 => Some(Item::RedMushroom),
        32 => Some(Item::CreamMushroom),
        33 => Some(Item::OrangeMushroom),
        34 => Some(Item::RugMachine),
        35 => Some(Item::TreeRoot),
        36 => Some(Item::Stick),
        37 => Some(Item::Plank),
        38 => Some(Item::Bamboo),
        39 => Some(Item::Moss),
        40 => Some(Item::BrownFish),
        41 => Some(Item::Crab),
        42 => Some(Item::Alligator),
        43 => Some(Item::Jaguar),
        44 => Some(Item::Peccary),
        45 => Some(Item::Arrow),
        46 => Some(Item::Porcupine),
        47 => Some(Item::Turtle),
        48 => Some(Item::GreenSnake),
        49 => Some(Item::Boa),
        50 => Some(Item::Barrel),
        51 => Some(Item::GreenParrot),
        52 => Some(Item::Seagull),
        53 => Some(Item::Pelican),
        54 => Some(Item::LargeSail),
        55 => Some(Item::Shark),
        56 => Some(Item::BlueFish),
        57 => Some(Item::YellowFish),
        58 => Some(Item::PufferFish),
        59 => Some(Item::Goldfish),
        60 => Some(Item::Rug),
        61 => Some(Item::GreenIguana),
        62 => Some(Item::Toucan),
        63 => Some(Item::RedIbis),
        64 => Some(Item::Spiral),
        65 => Some(Item::Whelk),
        66 => Some(Item::Oyster),
        67 => Some(Item::Clam),
        68 => Some(Item::Conch),
        69 => Some(Item::Fur),
        70 => Some(Item::SeaSnail),
        71 => Some(Item::Mussel),
        72 => Some(Item::Scallop),
        73 => Some(Item::Starfish),
        74 => Some(Item::SeaUrchin),
        75 => Some(Item::Egg),
        76 => Some(Item::Knife),
        77 => Some(Item::Hammer),
        78 => Some(Item::Saw),
        79 => Some(Item::Anchor),
        80 => Some(Item::Compass),
        81 => Some(Item::Bow),
        82 => Some(Item::RoastingSpit),
        83 => Some(Item::Net),
        84 => Some(Item::BrokenRaft),
        85 => Some(Item::DoubleBed),
        86 => Some(Item::Needle),
        87 => Some(Item::Pot),
        88 => Some(Item::PotterWheel),
        89 => Some(Item::Plane),
        90 => Some(Item::Worms),
        91 => Some(Item::Rope),
        92 => Some(Item::Gunpowder),
        93 => Some(Item::GiantLog),
        94 => Some(Item::Raft),
        96 => Some(Item::Machete),
        97 => Some(Item::Scissors),
        98 => Some(Item::Cotton),
        99 => Some(Item::TShirt),
        100 => Some(Item::PirateJacket),
        101 => Some(Item::WoolJacket),
        102 => Some(Item::HideJacket),
        103 => Some(Item::CottonPants),
        104 => Some(Item::Loincloth),
        105 => Some(Item::FurPants),
        106 => Some(Item::WoolPants),
        107 => Some(Item::HideShoe),
        108 => Some(Item::CottonShoe),
        109 => Some(Item::StrawShoe),
        110 => Some(Item::FurShoe),
        111 => Some(Item::HideHat),
        112 => Some(Item::Hat),
        113 => Some(Item::StrawHat),
        114 => Some(Item::FurHat),
        115 => Some(Item::WoolThread),
        116 => Some(Item::CottonThread),
        117 => Some(Item::WeavingMachine),
        118 => Some(Item::Fabric),
        119 => Some(Item::Wool),
        _ => None,
    }
}

/// Packed icon sprite of each item number; -1 where the item has
/// no icon of its own.
pub open spec fn object_palette(i: usize) -> i32 {
    match i {
        0 => 851971i32,
        1 => 851970i32,
        2 => 131130i32,
        3 => 851972i32,
        4 => 131076i32,
        5 => 851988i32,
        6 => 851973i32,
        7 => 851974i32,
        8 => 851975i32,
        9 => 393216i32,
        10 => 393217i32,
        11 => 851982i32,
        12 => 851983i32,
        13 => 851987i32,
        14 => 851976i32,
        15 => -1i32,
        16 => 851968i32,
        17 => 393219i32,
        18 => 393235i32,
        19 => 393236i32,
        20 => 852023i32,
        21 => 852024i32,
        22 => 852029i32,
        23 => 852030i32,
        24 => 852003i32,
        25 => 852008i32,
        26 => 852007i32,
        27 => 852004i32,
        28 => 852009i32,
        29 => 852052i32,
        30 => 851998i32,
        31 => 851999i32,
        32 => 851997i32,
        33 => 852000i32,
        34 => 852051i32,
        35 => 852006i32,
        36 => 852001i32,
        37 => 852002i32,
        38 => 852015i32,
        39 => 852005i32,
        40 => 131100i32,
        41 => 131112i32,
        42 => 131086i32,
        43 => 131158i32,
        44 => 131082i32,
        45 => 851991i32,
        46 => 131090i32,
        47 => 131078i32,
        48 => 131124i32,
        49 => 131118i32,
        50 => 852041i32,
        51 => 131174i32,
        52 => 131142i32,
        53 => 131150i32,
        54 => -1i32,
        55 => 131162i32,
        56 => 131106i32,
        57 => 131094i32,
        58 => 131168i32,
        59 => 131136i32,
        60 => -1i32,
        61 => 131114i32,
        62 => 131190i32,
        63 => 131186i32,
        64 => 852019i32,
        65 => 852022i32,
        66 => 852031i32,
        67 => 852027i32,
        68 => 852020i32,
        69 => 852053i32,
        70 => 852018i32,
        71 => 852021i32,
        72 => 852017i32,
        73 => 852016i32,
        74 => 852028i32,
        75 => 852010i32,
        76 => 851989i32,
        77 => 852032i32,
        78 => 852033i32,
        79 => 852034i32,
        80 => 852035i32,
        81 => 851977i32,
        82 => 852055i32,
        83 => 851986i32,
        84 => 393232i32,
        85 => -1i32,
        86 => 852037i32,
        87 => 852038i32,
        88 => 852039i32,
        89 => 852036i32,
        90 => 852011i32,
        91 => 852040i32,
        92 => 852043i32,
        93 => 852025i32,
        94 => 393224i32,
        95 => 852059i32,
        96 => 852054i32,
        97 => 852050i32,
        98 => 852045i32,
        99 => 327680i32,
        100 => 327685i32,
        101 => 327690i32,
        102 => 327740i32,
        103 => 327745i32,
        104 => 327750i32,
        105 => 327800i32,
        106 => 327805i32,
        107 => 327810i32,
        108 => 327860i32,
        109 => 327865i32,
        110 => 327870i32,
        111 => 327920i32,
        112 => 327924i32,
        113 => 327928i32,
        114 => 327932i32,
        115 => 852046i32,
        116 => 852047i32,
        117 => 852048i32,
        118 => 852049i32,
        119 => 852044i32,
        _ => -1i32,
    }
}

/// The display label of each item, as characters.
pub open spec fn item_label(item: Item) -> Seq<char> {
    match item {
        Item::Mango => seq!['M', 'a', 'n', 'g', 'o'],
        Item::Coconut => seq!['C', 'o', 'c', 'o', 'n', 'u', 't'],
        Item::GrayFish => seq!['G', 'r', 'a', 'y', ' ', 'f', 'i', 's', 'h'],
        Item::Stone => seq!['S', 't', 'o', 'n', 'e'],
        Item::WildGoat => seq!['W', 'i', 'l', 'd', ' ', 'g', 'o', 'a', 't'],
        Item::Axe => seq!['A', 'x', 'e'],
        Item::Vine => seq!['V', 'i', 'n', 'e'],
        Item::DryGrass => seq!['D', 'r', 'y', ' ', 'g', 'r', 'a', 's', 's'],
        Item::Branch => seq!['B', 'r', 'a', 'n', 'c', 'h'],
        Item::Tent => seq!['T', 'e', 'n', 't'],
        Item::Cabin => seq!['C', 'a', 'b', 'i', 'n'],
        Item::Log => seq!['L', 'o', 'g'],
        Item::Sail => seq!['S', 'a', 'i', 'l'],
        Item::Nail => seq!['N', 'a', 'i', 'l'],
        Item::FishingRod => seq!['F', 'i', 's', 'h', 'i', 'n', 'g', ' ', 'r', 'o', 'd'],
        Item::SingleBed => seq!['S', 'i', 'n', 'g', 'l', 'e', ' ', 'b', 'e', 'd'],
        Item::Fire => seq!['F', 'i', 'r', 'e'],
        Item::PirateShip => seq!['P', 'i', 'r', 'a', 't', 'e', ' ', 's', 'h', 'i', 'p'],
        Item::Flag => seq!['F', 'l', 'a', 'g'],
        Item::PirateShipwreck => seq!['P', 'i', 'r', 'a', 't', 'e', ' ', 's', 'h', 'i', 'p', 'w', 'r', 'e', 'c', 'k'],
        Item::Clay => seq!['C', 'l', 'a', 'y'],
        Item::Rock => seq!['R', 'o', 'c', 'k'],
        Item::Sextant => seq!['S', 'e', 'x', 't', 'a', 'n', 't'],
        Item::IslandMap => seq!['M', 'a', 'p'],
        Item::Banana => seq!['B', 'a', 'n', 'a', 'n', 'a'],
        Item::Papaya => seq!['P', 'a', 'p', 'a', 'y', 'a'],
        Item::Potato => seq!['P', 'o', 't', 'a', 't', 'o'],
        Item::Pineapple => seq!['P', 'i', 'n', 'e', 'a', 'p', 'p', 'l', 'e'],
        Item::Berry => seq!['B', 'e', 'r', 'r', 'y'],
        Item::Hide => seq!['H', 'i', 'd', 'e'],
        Item::WhiteMushroom => seq!['W', 'h', 'i', 't', 'e', ' ', 'm', 'u', 's', 'h', 'r', 'o', 'o', 'm'],
        Item::RedMushroom => seq!['R', 'e', 'd', ' ', 'm', 'u', 's', 'h', 'r', 'o', 'o', 'm'],
        Item::CreamMushroom => seq!['C', 'r', 'e', 'a', 'm', ' ', 'm', 'u', 's', 'h', 'r', 'o', 'o', 'm'],
        Item::OrangeMushroom => seq!['O', 'r', 'a', 'n', 'g', 'e', ' ', 'm', 'u', 's', 'h', 'r', 'o', 'o', 'm'],
        Item::RugMachine => seq!['R', 'u', 'g', ' ', 'm', 'a', 'c', 'h', 'i', 'n', 'e'],
        Item::TreeRoot => seq!['T', 'r', 'e', 'e', ' ', 'r', 'o', 'o', 't'],
        Item::Stick => seq!['S', 't', 'i', 'c', 'k'],
        Item::Plank => seq!['P', 'l', 'a', 'n', 'k'],
        Item::Bamboo => seq!['B', 'a', 'm', 'b', 'o', 'o'],
        Item::Moss => seq!['M', 'o', 's', 's'],
        Item::Crab => seq!['C', 'r', 'a', 'b'],
        Item::Alligator => seq!['A', 'l', 'l', 'i', 'g', 'a', 't', 'o', 'r'],
        Item::Jaguar => seq!['J', 'a', 'g', 'u', 'a', 'r'],
        Item::Peccary => seq!['P', 'e', 'c', 'c', 'a', 'r', 'y'],
        Item::Arrow => seq!['A', 'r', 'r', 'o', 'w'],
        Item::Porcupine => seq!['P', 'o', 'r', 'c', 'u', 'p', 'i', 'n', 'e'],
        Item::Turtle => seq!['T', 'u', 'r', 't', 'l', 'e'],
        Item::GreenSnake => seq!['G', 'r', 'e', 'e', 'n', ' ', 's', 'n', 'a', 'k', 'e'],
        Item::Boa => seq!['B', 'o', 'a'],
        Item::Barrel => seq!['B', 'a', 'r', 'r', 'e', 'l'],
        Item::GreenParrot => seq!['G', 'r', 'e', 'e', 'n', ' ', 'p', 'a', 'r', 'r', 'o', 't'],
        Item::Seagull => seq!['S', 'e', 'a', 'g', 'u', 'l', 'l'],
        Item::Pelican => seq!['P', 'e', 'l', 'i', 'c', 'a', 'n'],
        Item::LargeSail => seq!['L', 'a', 'r', 'g', 'e', ' ', 's', 'a', 'i', 'l'],
        Item::Shark => seq!['S', 'h', 'a', 'r', 'k'],
        Item::Rug => seq!['R', 'u', 'g'],
        Item::GreenIguana => seq!['G', 'r', 'e', 'e', 'n', ' ', 'i', 'g', 'u', 'a', 'n', 'a'],
        Item::Toucan => seq!['T', 'o', 'u', 'c', 'a', 'n'],
        Item::RedIbis => seq!['R', 'e', 'd', ' ', 'i', 'b', 'i', 's'],
        Item::Spiral => seq!['S', 'p', 'i', 'r', 'a', 'l'],
        Item::Whelk => seq!['W', 'h', 'e', 'l', 'k'],
        Item::Oyster => seq!['O', 'y', 's', 't', 'e', 'r'],
        Item::Clam => seq!['C', 'l', 'a', 'm'],
        Item::Conch => seq!['C', 'o', 'n', 'c', 'h'],
        Item::Fur => seq!['F', 'u', 'r'],
        Item::SeaSnail => seq!['S', 'e', 'a', ' ', 's', 'n', 'a', 'i', 'l'],
        Item::Mussel => seq!['M', 'u', 's', 's', 'e', 'l'],
        Item::Scallop => seq!['S', 'c', 'a', 'l', 'l', 'o', 'p'],
        Item::Starfish => seq!['S', 't', 'a', 'r', 'f', 'i', 's', 'h'],
        Item::SeaUrchin => seq!['S', 'e', 'a', ' ', 'u', 'r', 'c', 'h', 'i', 'n'],
        Item::BrownFish => seq!['B', 'r', 'o', 'w', 'n', ' ', 'f', 'i', 's', 'h'],
        Item::BlueFish => seq!['B', 'l', 'u', 'e', ' ', 'f', 'i', 's', 'h'],
        Item::YellowFish => seq!['Y', 'e', 'l', 'l', 'o', 'w', ' ', 'f', 'i', 's', 'h'],
        Item::PufferFish => seq!['P', 'u', 'f', 'f', 'e', 'r', ' ', 'f', 'i', 's', 'h'],
        Item::Goldfish => seq!['G', 'o', 'l', 'd', 'f', 'i', 's', 'h'],
        Item::Egg => seq!['E', 'g', 'g'],
        Item::Knife => seq!['K', 'n', 'i', 'f', 'e'],
        Item::Hammer => seq!['H', 'a', 'm', 'm', 'e', 'r'],
        Item::Saw => seq!['S', 'a', 'w'],
        Item::Anchor => seq!['A', 'n', 'c', 'h', 'o', 'r'],
        Item::Compass => seq!['C', 'o', 'm', 'p', 'a', 's', 's'],
        Item::Bow => seq!['B', 'o', 'w'],
        Item::RoastingSpit => seq!['R', 'o', 'a', 's', 't', 'i', 'n', 'g', ' ', 's', 'p', 'i', 't'],
        Item::Net => seq!['N', 'e', 't'],
        Item::DoubleBed => seq!['D', 'o', 'u', 'b', 'l', 'e', ' ', 'b', 'e', 'd'],
        Item::BrokenRaft => seq!['B', 'r', 'o', 'k', 'e', 'n', ' ', 'r', 'a', 'f', 't'],
        Item::Needle => seq!['N', 'e', 'e', 'd', 'l', 'e'],
        Item::Pot => seq!['P', 'o', 't'],
        Item::PotterWheel => seq!['P', 'o', 't', 't', 'e', 'r', '\'', 's', ' ', 'w', 'h', 'e', 'e', 'l'],
        Item::Plane => seq!['P', 'l', 'a', 'n', 'e'],
        Item::Worms => seq!['W', 'o', 'r', 'm', 's'],
        Item::Rope => seq!['R', 'o', 'p', 'e'],
        Item::Gunpowder => seq!['G', 'u', 'n', 'p', 'o', 'w', 'd', 'e', 'r'],
        Item::GiantLog => seq!['G', 'i', 'a', 'n', 't', ' ', 'l', 'o', 'g'],
        Item::Raft => seq!['R', 'a', 'f', 't'],
        Item::Machete => seq!['M', 'a', 'c', 'h', 'e', 't', 'e'],
        Item::Scissors => seq!['S', 'c', 'i', 's', 's', 'o', 'r', 's'],
        Item::Cotton => seq!['C', 'o', 't', 't', 'o', 'n'],
        Item::TShirt => seq!['T', '-', 's', 'h', 'i', 'r', 't'],
        Item::PirateJacket => seq!['P', 'i', 'r', 'a', 't', 'e', '\'', 's', ' ', 'j', 'a', 'c', 'k', 'e', 't'],
        Item::WoolJacket => seq!['W', 'o', 'o', 'l', ' ', 'j', 'a', 'c', 'k', 'e', 't'],
        Item::HideJacket => seq!['H', 'i', 'd', 'e', ' ', 'j', 'a', 'c', 'k', 'e', 't'],
        Item::CottonPants => seq!['C', 'o', 't', 't', 'o', 'n', ' ', 'p', 'a', 'n', 't', 's'],
        Item::Loincloth => seq!['L', 'o', 'i', 'n', 'c', 'l', 'o', 't', 'h'],
        Item::FurPants => seq!['F', 'u', 'r', ' ', 'p', 'a', 'n', 't', 's'],
        Item::WoolPants => seq!['W', 'o', 'o', 'l', ' ', 'p', 'a', 'n', 't', 's'],
        Item::HideShoe => seq!['H', 'i', 'd', 'e', ' ', 's', 'h', 'o', 'e'],
        Item::CottonShoe => seq!['C', 'o', 't', 't', 'o', 'n', ' ', 's', 'h', 'o', 'e'],
        Item::StrawShoe => seq!['S', 't', 'r', 'a', 'w', ' ', 's', 'h', 'o', 'e'],
        Item::FurShoe => seq!['F', 'u', 'r', ' ', 's', 'h', 'o', 'e'],
        Item::HideHat => seq!['H', 'i', 'd', 'e', ' ', 'h', 'a', 't'],
        Item::Hat => seq!['H', 'a', 't'],
        Item::StrawHat => seq!['S', 't', 'r', 'a', 'w', ' ', 'h', 'a', 't'],
        Item::FurHat => seq!['F', 'u', 'r', ' ', 'h', 'a', 't'],
        Item::WoolThread => seq!['W', 'o', 'o', 'l', ' ', 't', 'h', 'r', 'e', 'a', 'd'],
        Item::CottonThread => seq!['C', 'o', 't', 't', 'o', 'n', ' ', 't', 'h', 'r', 'e', 'a', 'd'],
        Item::WeavingMachine => seq!['W', 'e', 'a', 'v', 'i', 'n', 'g', ' ', 'm', 'a', 'c', 'h', 'i', 'n', 'e'],
        Item::Fabric => seq!['F', 'a', 'b', 'r', 'i', 'c'],
        Item::Wool => seq!['W', 'o', 'o', 'l'],
    }
}

/// The items listed by label, in ascending order of their labels.
pub open spec fn label_rank_item(r: usize) -> Item {
    match r {
        0 => Item::Alligator,
        1 => Item::Anchor,
        2 => Item::Arrow,
        3 => Item::Axe,
        4 => Item::Bamboo,
        5 => Item::Banana,
        6 => Item::Barrel,
        7 => Item::Berry,
        8 => Item::BlueFish,
        9 => Item::Boa,
        10 => Item::Bow,
        11 => Item::Branch,
        12 => Item::BrokenRaft,
        13 => Item::BrownFish,
        14 => Item::Cabin,
        15 => Item::Clam,
        16 => Item::Clay,
        17 => Item::Coconut,
        18 => Item::Compass,
        19 => Item::Conch,
        20 => Item::Cotton,
        21 => Item::CottonPants,
        22 => Item::CottonShoe,
        23 => Item::CottonThread,
        24 => Item::Crab,
        25 => Item::CreamMushroom,
        26 => Item::DoubleBed,
        27 => Item::DryGrass,
        28 => Item::Egg,
        29 => Item::Fabric,
        30 => Item::Fire,
        31 => Item::FishingRod,
        32 => Item::Flag,
        33 => Item::Fur,
        34 => Item::FurHat,
        35 => Item::FurPants,
        36 => Item::FurShoe,
        37 => Item::GiantLog,
        38 => Item::Goldfish,
        39 => Item::GrayFish,
        40 => Item::GreenIguana,
        41 => Item::GreenParrot,
        42 => Item::GreenSnake,
        43 => Item::Gunpowder,
        44 => Item::Hammer,
        45 => Item::Hat,
        46 => Item::Hide,
        47 => Item::HideHat,
        48 => Item::HideJacket,
        49 => Item::HideShoe,
        50 => Item::Jaguar,
        51 => Item::Knife,
        52 => Item::LargeSail,
        53 => Item::Log,
        54 => Item::Loincloth,
        55 => Item::Machete,
        56 => Item::Mango,
        57 => Item::IslandMap,
        58 => Item::Moss,
        59 => Item::Mussel,
        60 => Item::Nail,
        61 => Item::Needle,
        62 => Item::Net,
        63 => Item::OrangeMushroom,
        64 => Item::Oyster,
        65 => Item::Papaya,
        66 => Item::Peccary,
        67 => Item::Pelican,
        68 => Item::Pineapple,
        69 => Item::PirateShip,
        70 => Item::PirateShipwreck,
        71 => Item::PirateJacket,
        72 => Item::Plane,
        73 => Item::Plank,
        74 => Item::Porcupine,
        75 => Item::Pot,
        76 => Item::Potato,
        77 => Item::PotterWheel,
        78 => Item::PufferFish,
        79 => Item::Raft,
        80 => Item::RedIbis,
        81 => Item::RedMushroom,
        82 => Item::RoastingSpit,
        83 => Item::Rock,
        84 => Item::Rope,
        85 => Item::Rug,
        86 => Item::RugMachine,
        87 => Item::Sail,
        88 => Item::Saw,
        89 => Item::Scallop,
        90 => Item::Scissors,
        91 => Item::SeaSnail,
        92 => Item::SeaUrchin,
        93 => Item::Seagull,
        94 => Item::Sextant,
        95 => Item::Shark,
        96 => Item::SingleBed,
        97 => Item::Spiral,
        98 => Item::Starfish,
        99 => Item::Stick,
        100 => Item::Stone,
        101 => Item::StrawHat,
        102 => Item::StrawShoe,
        103 => Item::TShirt,
        104 => Item::Tent,
        105 => Item::Toucan,
        106 => Item::TreeRoot,
        107 => Item::Turtle,
        108 => Item::Vine,
        109 => Item::WeavingMachine,
        110 => Item::Whelk,
        111 => Item::WhiteMushroom,
        112 => Item::WildGoat,
        113 => Item::Wool,
        114 => Item::WoolJacket,
        115 => Item::WoolPants,
        116 => Item::WoolThread,
        117 => Item::Worms,
        _ => Item::YellowFish,
    }
}

/// The position of each item in the label order.
pub open spec fn label_rank(item: Item) -> usize {
    match item {
        Item::Mango => 56,
        Item::Coconut => 17,
        Item::GrayFish => 39,
        Item::Stone => 100,
        Item::WildGoat => 112,
        Item::Axe => 3,
        Item::Vine => 108,
        Item::DryGrass => 27,
        Item::Branch => 11,
        Item::Tent => 104,
        Item::Cabin => 14,
        Item::Log => 53,
        Item::Sail => 87,
        Item::Nail => 60,
        Item::FishingRod => 31,
        Item::SingleBed => 96,
        Item::Fire => 30,
        Item::PirateShip => 69,
        Item::Flag => 32,
        Item::PirateShipwreck => 70,
        Item::Clay => 16,
        Item::Rock => 83,
        Item::Sextant => 94,
        Item::IslandMap => 57,
        Item::Banana => 5,
        Item::Papaya => 65,
        Item::Potato => 76,
        Item::Pineapple => 68,
        Item::Berry => 7,
        Item::Hide => 46,
        Item::WhiteMushroom => 111,
        Item::RedMushroom => 81,
        Item::CreamMushroom => 25,
        Item::OrangeMushroom => 63,
        Item::RugMachine => 86,
        Item::TreeRoot => 106,
        Item::Stick => 99,
        Item::Plank => 73,
        Item::Bamboo => 4,
        Item::Moss => 58,
        Item::Crab => 24,
        Item::Alligator => 0,
        Item::Jaguar => 50,
        Item::Peccary => 66,
        Item::Arrow => 2,
        Item::Porcupine => 74,
        Item::Turtle => 107,
        Item::GreenSnake => 42,
        Item::Boa => 9,
        Item::Barrel => 6,
        Item::GreenParrot => 41,
        Item::Seagull => 93,
        Item::Pelican => 67,
        Item::LargeSail => 52,
        Item::Shark => 95,
        Item::Rug => 85,
        Item::GreenIguana => 40,
        Item::Toucan => 105,
        Item::RedIbis => 80,
        Item::Spiral => 97,
        Item::Whelk => 110,
        Item::Oyster => 64,
        Item::Clam => 15,
        Item::Conch => 19,
        Item::Fur => 33,
        Item::SeaSnail => 91,
        Item::Mussel => 59,
        Item::Scallop => 89,
        Item::Starfish => 98,
        Item::SeaUrchin => 92,
        Item::BrownFish => 13,
        Item::BlueFish => 8,
        Item::YellowFish => 118,
        Item::PufferFish => 78,
        Item::Goldfish => 38,
        Item::Egg => 28,
        Item::Knife => 51,
        Item::Hammer => 44,
        Item::Saw => 88,
        Item::Anchor => 1,
        Item::Compass => 18,
        Item::Bow => 10,
        Item::RoastingSpit => 82,
        Item::Net => 62,
        Item::DoubleBed => 26,
        Item::BrokenRaft => 12,
        Item::Needle => 61,
        Item::Pot => 75,
        Item::PotterWheel => 77,
        Item::Plane => 72,
        Item::Worms => 117,
        Item::Rope => 84,
        Item::Gunpowder => 43,
        Item::GiantLog => 37,
        Item::Raft => 79,
        Item::Machete => 55,
        Item::Scissors => 90,
        Item::Cotton => 20,
        Item::TShirt => 103,
        Item::PirateJacket => 71,
        Item::WoolJacket => 114,
        Item::HideJacket => 48,
        Item::CottonPants => 21,
        Item::Loincloth => 54,
        Item::FurPants => 35,
        Item::WoolPants => 115,
        Item::HideShoe => 49,
        Item::CottonShoe => 22,
        Item::StrawShoe => 102,
        Item::FurShoe => 36,
        Item::HideHat => 47,
        Item::Hat => 45,
        Item::StrawHat => 101,
        Item::FurHat => 34,
        Item::WoolThread => 116,
        Item::CottonThread => 23,
        Item::WeavingMachine => 109,
        Item::Fabric => 29,
        Item::Wool => 113,
    }
}

/// Strict lexicographic order on character sequences, by code point, which
/// for the item labels is the byte order that sorting strings uses.
pub open spec fn lex_lt(a: Seq<char>, b: Seq<char>) -> bool
    decreases a.len(),
{
    if a.len() == 0 {
        b.len() > 0
    } else if b.len() == 0 {
        false
    } else if a[0] != b[0] {
        (a[0] as u32) < (b[0] as u32)
    } else {
        lex_lt(a.drop_first(), b.drop_first())
    }
}

/// The icon of an item: sheet and sprite index from its palette entry, or
/// the fallback icon (sheet 13, sprite 0) where the palette has none.
pub open spec fn icon_sprite_of(item: Item) -> (u32, u32) {
    let v = object_palette(item_index(item));
    if v == -1i32 {
        (13u32, 0u32)
    } else {
        ((v / 0x1_0000) as u32, (v % 0x1_0000) as u32)
    }
}

/// Every palette entry is either -1 or a packed sprite.
pub proof fn lemma_palette_entries_nonnegative_or_absent(i: usize)
    ensures
        object_palette(i) == -1i32 || object_palette(i) >= 0,
{
}

/// Each item has a number below the slot count, and that number
/// names the item again; each number that names an item is that item's
/// number. So the numbering is one-to-one.
pub proof fn lemma_item_index_round_trip(item: Item, i: usize)
    ensures
        item_index(item) < ITEM_SLOTS,
        item_at_index(item_index(item)) == Some(item),
        item_at_index(i) matches Some(it) ==> item_index(it) == i,
        i >= ITEM_SLOTS ==> item_at_index(i) is None,
{
}

/// Two different items never share a number.
pub proof fn lemma_item_index_injective(a: Item, b: Item)
    ensures
        a != b ==> item_index(a) != item_index(b),
{
    lemma_item_index_round_trip(a, 0);
    lemma_item_index_round_trip(b, 0);
}

/// The label order is a bijection between positions `0..ITEM_COUNT` and the
/// items.
pub proof fn lemma_label_rank_bijection(item: Item, r: usize)
    ensures
        label_rank(item) < ITEM_COUNT,
        label_rank_item(label_rank(item)) == item,
        r < ITEM_COUNT ==> label_rank(label_rank_item(r)) == r,
{
}

/// The strict label order is transitive.
pub proof fn lemma_lex_lt_transitive(a: Seq<char>, b: Seq<char>, c: Seq<char>)
    requires
        lex_lt(a, b),
        lex_lt(b, c),
    ensures
        lex_lt(a, c),
    decreases a.len(),
{
    if a.len() > 0 && b.len() > 0 && c.len() > 0 {
        if a[0] == b[0] && b[0] == c[0] {
            lemma_lex_lt_transitive(a.drop_first(), b.drop_first(), c.drop_first());
        }
    }
}

/// The strict label order is irreflexive.
pub proof fn lemma_lex_lt_irreflexive(a: Seq<char>)
    ensures
        !lex_lt(a, a),
    decreases a.len(),
{
    if a.len() > 0 {
        lemma_lex_lt_irreflexive(a.drop_first());
    }
}

/// Items listed in label order, each with its amount under `f`, leaving out
/// those whose amount is zero: the first `n` positions of the label order.
pub open spec fn listing_upto(f: spec_fn(Item) -> u32, n: int) -> Seq<(Item, u32)>
    decreases n,
{
    if n <= 0 {
        Seq::empty()
    } else {
        let prev = listing_upto(f, n - 1);
        let it = label_rank_item((n - 1) as usize);
        if f(it) > 0 {
            prev.push((it, f(it)))
        } else {
            prev
        }
    }
}

/// The sum of the amounts under `f` of the items at the first `n` positions
/// of the label order.
pub open spec fn amount_total_upto(f: spec_fn(Item) -> u32, n: int) -> nat
    decreases n,
{
    if n <= 0 {
        0
    } else {
        amount_total_upto(f, n - 1) + f(label_rank_item((n - 1) as usize)) as nat
    }
}

/// The sum of the amounts under `f` over all items.
pub open spec fn amount_total(f: spec_fn(Item) -> u32) -> nat {
    amount_total_upto(f, ITEM_COUNT as int)
}

proof fn lemma_amount_total_bound(f: spec_fn(Item) -> u32, n: int)
    requires
        0 <= n,
    ensures
        amount_total_upto(f, n) <= n * 0xFFFF_FFFF,
    decreases n,
{
    if n > 0 {
        lemma_amount_total_bound(f, n - 1);
    }
}

/// The listing of all items with a nonzero amount under `f`, ordered by label.
pub open spec fn listing_of(f: spec_fn(Item) -> u32) -> Seq<(Item, u32)> {
    listing_upto(f, ITEM_COUNT as int)
}

proof fn lemma_listing_upto_facts(f: spec_fn(Item) -> u32, n: int)
    requires
        0 <= n <= ITEM_COUNT,
    ensures
        forall|i: int|
            0 <= i < listing_upto(f, n).len() ==> {
                let e = #[trigger] listing_upto(f, n)[i];
                &&& label_rank(e.0) < n
                &&& e.1 == f(e.0)
                &&& e.1 > 0
            },
        forall|i: int, j: int|
            0 <= i < j < listing_upto(f, n).len() ==> label_rank(#[trigger] listing_upto(
                f,
                n,
            )[i].0) < label_rank(#[trigger] listing_upto(f, n)[j].0),
        forall|it: Item|
            label_rank(it) < n && #[trigger] f(it) > 0 ==> exists|i: int|
                0 <= i < listing_upto(f, n).len() && (#[trigger] listing_upto(f, n)[i]).0 == it,
    decreases n,
{
    if n > 0 {
        lemma_listing_upto_facts(f, n - 1);
        let prev = listing_upto(f, n - 1);
        let it = label_rank_item((n - 1) as usize);
        lemma_label_rank_bijection(it, (n - 1) as usize);
        assert forall|x: Item| label_rank(x) < n && #[trigger] f(x) > 0 implies exists|i: int|
            0 <= i < listing_upto(f, n).len() && (#[trigger] listing_upto(f, n)[i]).0 == x by {
            lemma_label_rank_bijection(x, 0);
            if label_rank(x) == n - 1 {
                assert(listing_upto(f, n)[prev.len() as int].0 == x);
            } else {
                let i = choose|i: int| 0 <= i < prev.len() && (#[trigger] prev[i]).0 == x;
                assert(listing_upto(f, n)[i].0 == x);
            }
        }
    }
}

proof fn lemma_label_order_adjacent_0(r: usize)
    requires
        0 <= r < 15,
    ensures
        lex_lt(item_label(label_rank_item(r)), item_label(label_rank_item((r + 1) as usize))),
{
    match r {
        0 => {
            assert(lex_lt(item_label(Item::Alligator), item_label(Item::Anchor))) by {
                reveal_with_fuel(lex_lt, 3);
            }
        },
        1 => {
            assert(lex_lt(item_label(Item::Anchor), item_label(Item::Arrow))) by {
                reveal_with_fuel(lex_lt, 3);
            }
        },
        2 => {
            assert(lex_lt(item_label(Item::Arrow), item_label(Item::Axe))) by {
                reveal_with_fuel(lex_lt, 3);
            }
        },
        3 => {
            assert(lex_lt(item_label(Item::Axe), item_label(Item::Bamboo))) by {
                reveal_with_fuel(lex_lt, 2);
            }
        },
        4 => {
            assert(lex_lt(item_label(Item::Bamboo), item_label(Item::Banana))) by {
                reveal_with_fuel(lex_lt, 4);
            }
        },
        5 => {
            assert(lex_lt(item_label(Item::Banana), item_label(Item::Barrel))) by {
                reveal_with_fuel(lex_lt, 4);
            }
        },
        6 => {
            assert(lex_lt(item_label(Item::Barrel), item_label(Item::Berry))) by {
                reveal_with_fuel(lex_lt, 3);
            }
        },
        7 => {
            assert(lex_lt(item_label(Item::Berry), item_label(Item::BlueFish))) by {
                reveal_with_fuel(lex_lt, 3);
            }
        },
        8 => {
            assert(lex_lt(item_label(Item::BlueFish), item_label(Item::Boa))) by {
                reveal_with_fuel(lex_lt, 3);
            }
        },
        9 => {
            assert(lex_lt(item_label(Item::Boa), item_label(Item::Bow))) by {
                reveal_with_fuel(lex_lt, 4);
            }
        },
        10 => {
            assert(lex_lt(item_label(Item::Bow), item_label(Item::Branch))) by {
                reveal_with_fuel(lex_lt, 3);
            }
        },
        11 => {
            assert(lex_lt(item_label(Item::Branch), item_label(Item::BrokenRaft))) by {
                reveal_with_fuel(lex_lt, 4);
            }
        },
        12 => {
            assert(lex_lt(item_label(Item::BrokenRaft), item_label(Item::BrownFish))) by {
                reveal_with_fuel(lex_lt, 5);
            }
        },
        13 => {
            assert(lex_lt(item_label(Item::BrownFish), item_label(Item::Cabin))) by {
                reveal_with_fuel(lex_lt, 2);
            }
        },
        14 => {
            assert(lex_lt(item_label(Item::Cabin), item_label(Item::Clam))) by {
                reveal_with_fuel(lex_lt, 3);
            }
        },
        _ => {},
    }
}

proof fn lemma_label_order_adjacent_1(r: usize)
    requires
        15 <= r < 30,
    ensures
        lex_lt(item_label(label_rank_item(r)), item_label(label_rank_item((r + 1) as usize))),
{
    match r {
        15 => {
            assert(lex_lt(item_label(Item::Clam), item_label(Item::Clay))) by {
                reveal_with_fuel(lex_lt, 5);
            }
        },
        16 => {
            assert(lex_lt(item_label(Item::Clay), item_label(Item::Coconut))) by {
                reveal_with_fuel(lex_lt, 3);
            }
        },
        17 => {
            assert(lex_lt(item_label(Item::Coconut), item_label(Item::Compass))) by {
                reveal_with_fuel(lex_lt, 4);
            }
        },
        18 => {
            assert(lex_lt(item_label(Item::Compass), item_label(Item::Conch))) by {
                reveal_with_fuel(lex_lt, 4);
            }
        },
        19 => {
            assert(lex_lt(item_label(Item::Conch), item_label(Item::Cotton))) by {
                reveal_with_fuel(lex_lt, 4);
            }
        },
        20 => {
            assert(lex_lt(item_label(Item::Cotton), item_label(Item::CottonPants))) by {
                reveal_with_fuel(lex_lt, 8);
            }
        },
        21 => {
            assert(lex_lt(item_label(Item::CottonPants), item_label(Item::CottonShoe))) by {
                reveal_with_fuel(lex_lt, 9);
            }
        },
        22 => {
            assert(lex_lt(item_label(Item::CottonShoe), item_label(Item::CottonThread))) by {
                reveal_with_fuel(lex_lt, 9);
            }
        },
        23 => {
            assert(lex_lt(item_label(Item::CottonThread), item_label(Item::Crab))) by {
                reveal_with_fuel(lex_lt, 3);
            }
        },
        24 => {
            assert(lex_lt(item_label(Item::Crab), item_label(Item::CreamMushroom))) by {
                reveal_with_fuel(lex_lt, 4);
            }
        },
        25 => {
            assert(lex_lt(item_label(Item::CreamMushroom), item_label(Item::DoubleBed))) by {
                reveal_with_fuel(lex_lt, 2);
            }
        },
        26 => {
            assert(lex_lt(item_label(Item::DoubleBed), item_label(Item::DryGrass))) by {
                reveal_with_fuel(lex_lt, 3);
            }
        },
        27 => {
            assert(lex_lt(item_label(Item::DryGrass), item_label(Item::Egg))) by {
                reveal_with_fuel(lex_lt, 2);
            }
        },
        28 => {
            assert(lex_lt(item_label(Item::Egg), item_label(Item::Fabric))) by {
                reveal_with_fuel(lex_lt, 2);
            }
        },
        29 => {
            assert(lex_lt(item_label(Item::Fabric), item_label(Item::Fire))) by {
                reveal_with_fuel(lex_lt, 3);
            }
        },
        _ => {},
    }
}

proof fn lemma_label_order_adjacent_2(r: usize)
    requires
        30 <= r < 45,
    ensures
        lex_lt(item_label(label_rank_item(r)), item_label(label_rank_item((r + 1) as usize))),
{
    match r {
        30 => {
            assert(lex_lt(item_label(Item::Fire), item_label(Item::FishingRod))) by {
                reveal_with_fuel(lex_lt, 4);
            }
        },
        31 => {
            assert(lex_lt(item_label(Item::FishingRod), item_label(Item::Flag))) by {
                reveal_with_fuel(lex_lt, 3);
            }
        },
        32 => {
            assert(lex_lt(item_label(Item::Flag), item_label(Item::Fur))) by {
                reveal_with_fuel(lex_lt, 3);
            }
        },
        33 => {
            assert(lex_lt(item_label(Item::Fur), item_label(Item::FurHat))) by {
                reveal_with_fuel(lex_lt, 5);
            }
        },
        34 => {
            assert(lex_lt(item_label(Item::FurHat), item_label(Item::FurPants))) by {
                reveal_with_fuel(lex_lt, 6);
            }
        },
        35 => {
            assert(lex_lt(item_label(Item::FurPants), item_label(Item::FurShoe))) by {
                reveal_with_fuel(lex_lt, 6);
            }
        },
        36 => {
            assert(lex_lt(item_label(Item::FurShoe), item_label(Item::GiantLog))) by {
                reveal_with_fuel(lex_lt, 2);
            }
        },
        37 => {
            assert(lex_lt(item_label(Item::GiantLog), item_label(Item::Goldfish))) by {
                reveal_with_fuel(lex_lt, 3);
            }
        },
        38 => {
            assert(lex_lt(item_label(Item::Goldfish), item_label(Item::GrayFish))) by {
                reveal_with_fuel(lex_lt, 3);
            }
        },
        39 => {
            assert(lex_lt(item_label(Item::GrayFish), item_label(Item::GreenIguana))) by {
                reveal_with_fuel(lex_lt, 4);
            }
        },
        40 => {
            assert(lex_lt(item_label(Item::GreenIguana), item_label(Item::GreenParrot))) by {
                reveal_with_fuel(lex_lt, 8);
            }
        },
        41 => {
            assert(lex_lt(item_label(Item::GreenParrot), item_label(Item::GreenSnake))) by {
                reveal_with_fuel(lex_lt, 8);
            }
        },
        42 => {
            assert(lex_lt(item_label(Item::GreenSnake), item_label(Item::Gunpowder))) by {
                reveal_with_fuel(lex_lt, 3);
            }
        },
        43 => {
            assert(lex_lt(item_label(Item::Gunpowder), item_label(Item::Hammer))) by {
                reveal_with_fuel(lex_lt, 2);
            }
        },
        44 => {
            assert(lex_lt(item_label(Item::Hammer), item_label(Item::Hat))) by {
                reveal_with_fuel(lex_lt, 4);
            }
        },
        _ => {},
    }
}

proof fn lemma_label_order_adjacent_3(r: usize)
    requires
        45 <= r < 60,
    ensures
        lex_lt(item_label(label_rank_item(r)), item_label(label_rank_item((r + 1) as usize))),
{
    match r {
        45 => {
            assert(lex_lt(item_label(Item::Hat), item_label(Item::Hide))) by {
                reveal_with_fuel(lex_lt, 3);
            }
        },
        46 => {
            assert(lex_lt(item_label(Item::Hide), item_label(Item::HideHat))) by {
                reveal_with_fuel(lex_lt, 6);
            }
        },
        47 => {
            assert(lex_lt(item_label(Item::HideHat), item_label(Item::HideJacket))) by {
                reveal_with_fuel(lex_lt, 7);
            }
        },
        48 => {
            assert(lex_lt(item_label(Item::HideJacket), item_label(Item::HideShoe))) by {
                reveal_with_fuel(lex_lt, 7);
            }
        },
        49 => {
            assert(lex_lt(item_label(Item::HideShoe), item_label(Item::Jaguar))) by {
                reveal_with_fuel(lex_lt, 2);
            }
        },
        50 => {
            assert(lex_lt(item_label(Item::Jaguar), item_label(Item::Knife))) by {
                reveal_with_fuel(lex_lt, 2);
            }
        },
        51 => {
            assert(lex_lt(item_label(Item::Knife), item_label(Item::LargeSail))) by {
                reveal_with_fuel(lex_lt, 2);
            }
        },
        52 => {
            assert(lex_lt(item_label(Item::LargeSail), item_label(Item::Log))) by {
                reveal_with_fuel(lex_lt, 3);
            }
        },
        53 => {
            assert(lex_lt(item_label(Item::Log), item_label(Item::Loincloth))) by {
                reveal_with_fuel(lex_lt, 4);
            }
        },
        54 => {
            assert(lex_lt(item_label(Item::Loincloth), item_label(Item::Machete))) by {
                reveal_with_fuel(lex_lt, 2);
            }
        },
        55 => {
            assert(lex_lt(item_label(Item::Machete), item_label(Item::Mango))) by {
                reveal_with_fuel(lex_lt, 4);
            }
        },
        56 => {
            assert(lex_lt(item_label(Item::Mango), item_label(Item::IslandMap))) by {
                reveal_with_fuel(lex_lt, 4);
            }
        },
        57 => {
            assert(lex_lt(item_label(Item::IslandMap), item_label(Item::Moss))) by {
                reveal_with_fuel(lex_lt, 3);
            }
        },
        58 => {
            assert(lex_lt(item_label(Item::Moss), item_label(Item::Mussel))) by {
                reveal_with_fuel(lex_lt, 3);
            }
        },
        59 => {
            assert(lex_lt(item_label(Item::Mussel), item_label(Item::Nail))) by {
                reveal_with_fuel(lex_lt, 2);
            }
        },
        _ => {},
    }
}

proof fn lemma_label_order_adjacent_4(r: usize)
    requires
        60 <= r < 75,
    ensures
        lex_lt(item_label(label_rank_item(r)), item_label(label_rank_item((r + 1) as usize))),
{
    match r {
        60 => {
            assert(lex_lt(item_label(Item::Nail), item_label(Item::Needle))) by {
                reveal_with_fuel(lex_lt, 3);
            }
        },
        61 => {
            assert(lex_lt(item_label(Item::Needle), item_label(Item::Net))) by {
                reveal_with_fuel(lex_lt, 4);
            }
        },
        62 => {
            assert(lex_lt(item_label(Item::Net), item_label(Item::OrangeMushroom))) by {
                reveal_with_fuel(lex_lt, 2);
            }
        },
        63 => {
            assert(lex_lt(item_label(Item::OrangeMushroom), item_label(Item::Oyster))) by {
                reveal_with_fuel(lex_lt, 3);
            }
        },
        64 => {
            assert(lex_lt(item_label(Item::Oyster), item_label(Item::Papaya))) by {
                reveal_with_fuel(lex_lt, 2);
            }
        },
        65 => {
            assert(lex_lt(item_label(Item::Papaya), item_label(Item::Peccary))) by {
                reveal_with_fuel(lex_lt, 3);
            }
        },
        66 => {
            assert(lex_lt(item_label(Item::Peccary), item_label(Item::Pelican))) by {
                reveal_with_fuel(lex_lt, 4);
            }
        },
        67 => {
            assert(lex_lt(item_label(Item::Pelican), item_label(Item::Pineapple))) by {
                reveal_with_fuel(lex_lt, 3);
            }
        },
        68 => {
            assert(lex_lt(item_label(Item::Pineapple), item_label(Item::PirateShip))) by {
                reveal_with_fuel(lex_lt, 4);
            }
        },
        69 => {
            assert(lex_lt(item_label(Item::PirateShip), item_label(Item::PirateShipwreck))) by {
                reveal_with_fuel(lex_lt, 13);
            }
        },
        70 => {
            assert(lex_lt(item_label(Item::PirateShipwreck), item_label(Item::PirateJacket))) by {
                reveal_with_fuel(lex_lt, 8);
            }
        },
        71 => {
            assert(lex_lt(item_label(Item::PirateJacket), item_label(Item::Plane))) by {
                reveal_with_fuel(lex_lt, 3);
            }
        },
        72 => {
            assert(lex_lt(item_label(Item::Plane), item_label(Item::Plank))) by {
                reveal_with_fuel(lex_lt, 6);
            }
        },
        73 => {
            assert(lex_lt(item_label(Item::Plank), item_label(Item::Porcupine))) by {
                reveal_with_fuel(lex_lt, 3);
            }
        },
        74 => {
            assert(lex_lt(item_label(Item::Porcupine), item_label(Item::Pot))) by {
                reveal_with_fuel(lex_lt, 4);
            }
        },
        _ => {},
    }
}

proof fn lemma_label_order_adjacent_5(r: usize)
    requires
        75 <= r < 90,
    ensures
        lex_lt(item_label(label_rank_item(r)), item_label(label_rank_item((r + 1) as usize))),
{
    match r {
        75 => {
            assert(lex_lt(item_label(Item::Pot), item_label(Item::Potato))) by {
                reveal_with_fuel(lex_lt, 5);
            }
        },
        76 => {
            assert(lex_lt(item_label(Item::Potato), item_label(Item::PotterWheel))) by {
                reveal_with_fuel(lex_lt, 5);
            }
        },
        77 => {
            assert(lex_lt(item_label(Item::PotterWheel), item_label(Item::PufferFish))) by {
                reveal_with_fuel(lex_lt, 3);
            }
        },
        78 => {
            assert(lex_lt(item_label(Item::PufferFish), item_label(Item::Raft))) by {
                reveal_with_fuel(lex_lt, 2);
            }
        },
        79 => {
            assert(lex_lt(item_label(Item::Raft), item_label(Item::RedIbis))) by {
                reveal_with_fuel(lex_lt, 3);
            }
        },
        80 => {
            assert(lex_lt(item_label(Item::RedIbis), item_label(Item::RedMushroom))) by {
                reveal_with_fuel(lex_lt, 6);
            }
        },
        81 => {
            assert(lex_lt(item_label(Item::RedMushroom), item_label(Item::RoastingSpit))) by {
                reveal_with_fuel(lex_lt, 3);
            }
        },
        82 => {
            assert(lex_lt(item_label(Item::RoastingSpit), item_label(Item::Rock))) by {
                reveal_with_fuel(lex_lt, 4);
            }
        },
        83 => {
            assert(lex_lt(item_label(Item::Rock), item_label(Item::Rope))) by {
                reveal_with_fuel(lex_lt, 4);
            }
        },
        84 => {
            assert(lex_lt(item_label(Item::Rope), item_label(Item::Rug))) by {
                reveal_with_fuel(lex_lt, 3);
            }
        },
        85 => {
            assert(lex_lt(item_label(Item::Rug), item_label(Item::RugMachine))) by {
                reveal_with_fuel(lex_lt, 5);
            }
        },
        86 => {
            assert(lex_lt(item_label(Item::RugMachine), item_label(Item::Sail))) by {
                reveal_with_fuel(lex_lt, 2);
            }
        },
        87 => {
            assert(lex_lt(item_label(Item::Sail), item_label(Item::Saw))) by {
                reveal_with_fuel(lex_lt, 4);
            }
        },
        88 => {
            assert(lex_lt(item_label(Item::Saw), item_label(Item::Scallop))) by {
                reveal_with_fuel(lex_lt, 3);
            }
        },
        89 => {
            assert(lex_lt(item_label(Item::Scallop), item_label(Item::Scissors))) by {
                reveal_with_fuel(lex_lt, 4);
            }
        },
        _ => {},
    }
}

proof fn lemma_label_order_adjacent_6(r: usize)
    requires
        90 <= r < 105,
    ensures
        lex_lt(item_label(label_rank_item(r)), item_label(label_rank_item((r + 1) as usize))),
{
    match r {
        90 => {
            assert(lex_lt(item_label(Item::Scissors), item_label(Item::SeaSnail))) by {
                reveal_with_fuel(lex_lt, 3);
            }
        },
        91 => {
            assert(lex_lt(item_label(Item::SeaSnail), item_label(Item::SeaUrchin))) by {
                reveal_with_fuel(lex_lt, 6);
            }
        },
        92 => {
            assert(lex_lt(item_label(Item::SeaUrchin), item_label(Item::Seagull))) by {
                reveal_with_fuel(lex_lt, 5);
            }
        },
        93 => {
            assert(lex_lt(item_label(Item::Seagull), item_label(Item::Sextant))) by {
                reveal_with_fuel(lex_lt, 4);
            }
        },
        94 => {
            assert(lex_lt(item_label(Item::Sextant), item_label(Item::Shark))) by {
                reveal_with_fuel(lex_lt, 3);
            }
        },
        95 => {
            assert(lex_lt(item_label(Item::Shark), item_label(Item::SingleBed))) by {
                reveal_with_fuel(lex_lt, 3);
            }
        },
        96 => {
            assert(lex_lt(item_label(Item::SingleBed), item_label(Item::Spiral))) by {
                reveal_with_fuel(lex_lt, 3);
            }
        },
        97 => {
            assert(lex_lt(item_label(Item::Spiral), item_label(Item::Starfish))) by {
                reveal_with_fuel(lex_lt, 3);
            }
        },
        98 => {
            assert(lex_lt(item_label(Item::Starfish), item_label(Item::Stick))) by {
                reveal_with_fuel(lex_lt, 4);
            }
        },
        99 => {
            assert(lex_lt(item_label(Item::Stick), item_label(Item::Stone))) by {
                reveal_with_fuel(lex_lt, 4);
            }
        },
        100 => {
            assert(lex_lt(item_label(Item::Stone), item_label(Item::StrawHat))) by {
                reveal_with_fuel(lex_lt, 4);
            }
        },
        101 => {
            assert(lex_lt(item_label(Item::StrawHat), item_label(Item::StrawShoe))) by {
                reveal_with_fuel(lex_lt, 8);
            }
        },
        102 => {
            assert(lex_lt(item_label(Item::StrawShoe), item_label(Item::TShirt))) by {
                reveal_with_fuel(lex_lt, 2);
            }
        },
        103 => {
            assert(lex_lt(item_label(Item::TShirt), item_label(Item::Tent))) by {
                reveal_with_fuel(lex_lt, 3);
            }
        },
        104 => {
            assert(lex_lt(item_label(Item::Tent), item_label(Item::Toucan))) by {
                reveal_with_fuel(lex_lt, 3);
            }
        },
        _ => {},
    }
}

proof fn lemma_label_order_adjacent_7(r: usize)
    requires
        105 <= r < 118,
    ensures
        lex_lt(item_label(label_rank_item(r)), item_label(label_rank_item((r + 1) as usize))),
{
    match r {
        105 => {
            assert(lex_lt(item_label(Item::Toucan), item_label(Item::TreeRoot))) by {
                reveal_with_fuel(lex_lt, 3);
            }
        },
        106 => {
            assert(lex_lt(item_label(Item::TreeRoot), item_label(Item::Turtle))) by {
                reveal_with_fuel(lex_lt, 3);
            }
        },
        107 => {
            assert(lex_lt(item_label(Item::Turtle), item_label(Item::Vine))) by {
                reveal_with_fuel(lex_lt, 2);
            }
        },
        108 => {
            assert(lex_lt(item_label(Item::Vine), item_label(Item::WeavingMachine))) by {
                reveal_with_fuel(lex_lt, 2);
            }
        },
        109 => {
            assert(lex_lt(item_label(Item::WeavingMachine), item_label(Item::Whelk))) by {
                reveal_with_fuel(lex_lt, 3);
            }
        },
        110 => {
            assert(lex_lt(item_label(Item::Whelk), item_label(Item::WhiteMushroom))) by {
                reveal_with_fuel(lex_lt, 4);
            }
        },
        111 => {
            assert(lex_lt(item_label(Item::WhiteMushroom), item_label(Item::WildGoat))) by {
                reveal_with_fuel(lex_lt, 3);
            }
        },
        112 => {
            assert(lex_lt(item_label(Item::WildGoat), item_label(Item::Wool))) by {
                reveal_with_fuel(lex_lt, 3);
            }
        },
        113 => {
            assert(lex_lt(item_label(Item::Wool), item_label(Item::WoolJacket))) by {
                reveal_with_fuel(lex_lt, 6);
            }
        },
        114 => {
            assert(lex_lt(item_label(Item::WoolJacket), item_label(Item::WoolPants))) by {
                reveal_with_fuel(lex_lt, 7);
            }
        },
        115 => {
            assert(lex_lt(item_label(Item::WoolPants), item_label(Item::WoolThread))) by {
                reveal_with_fuel(lex_lt, 7);
            }
        },
        116 => {
            assert(lex_lt(item_label(Item::WoolThread), item_label(Item::Worms))) by {
                reveal_with_fuel(lex_lt, 4);
            }
        },
        117 => {
            assert(lex_lt(item_label(Item::Worms), item_label(Item::YellowFish))) by {
                reveal_with_fuel(lex_lt, 2);
            }
        },
        _ => {},
    }
}

/// Labels at consecutive positions of the label order increase.
proof fn lemma_label_order_adjacent(r: usize)
    requires
        r + 1 < ITEM_COUNT,
    ensures
        lex_lt(item_label(label_rank_item(r)), item_label(label_rank_item((r + 1) as usize))),
{
    if r < 15 {
        lemma_label_order_adjacent_0(r);
    } else if r < 30 {
        lemma_label_order_adjacent_1(r);
    } else if r < 45 {
        lemma_label_order_adjacent_2(r);
    } else if r < 60 {
        lemma_label_order_adjacent_3(r);
    } else if r < 75 {
        lemma_label_order_adjacent_4(r);
    } else if r < 90 {
        lemma_label_order_adjacent_5(r);
    } else if r < 105 {
        lemma_label_order_adjacent_6(r);
    } else if r < 118 {
        lemma_label_order_adjacent_7(r);
    }
}

/// Labels increase strictly along the label order.
pub proof fn lemma_label_order_sorted(r: usize, s: usize)
    requires
        r < s < ITEM_COUNT,
    ensures
        lex_lt(item_label(label_rank_item(r)), item_label(label_rank_item(s))),
    decreases s - r,
{
    lemma_label_order_adjacent((s - 1) as usize);
    if r + 1 < s {
        lemma_label_order_sorted(r, (s - 1) as usize);
        lemma_lex_lt_transitive(
            item_label(label_rank_item(r)),
            item_label(label_rank_item((s - 1) as usize)),
            item_label(label_rank_item(s)),
        );
    }
}

/// The listing of an inventory view holds each item with a nonzero amount
/// exactly once, with that amount, and strictly ascending by label.
pub proof fn lemma_listing_sorted_complete(f: spec_fn(Item) -> u32)
    ensures
        forall|i: int|
            0 <= i < listing_of(f).len() ==> (#[trigger] listing_of(f)[i]).1 == f(
                listing_of(f)[i].0,
            ) && listing_of(f)[i].1 > 0,
        forall|i: int, j: int|
            0 <= i < j < listing_of(f).len() ==> lex_lt(
                item_label(#[trigger] listing_of(f)[i].0),
                item_label(#[trigger] listing_of(f)[j].0),
            ),
        forall|it: Item|
            #[trigger] f(it) > 0 ==> exists|i: int|
                0 <= i < listing_of(f).len() && (#[trigger] listing_of(f)[i]).0 == it,
{
    lemma_listing_upto_facts(f, ITEM_COUNT as int);
    assert forall|it: Item| #[trigger] f(it) > 0 implies exists|i: int|
        0 <= i < listing_of(f).len() && (#[trigger] listing_of(f)[i]).0 == it by {
        lemma_label_rank_bijection(it, 0);
    }
    assert forall|i: int, j: int| 0 <= i < j < listing_of(f).len() implies lex_lt(
        item_label(#[trigger] listing_of(f)[i].0),
        item_label(#[trigger] listing_of(f)[j].0),
    ) by {
        let a = listing_of(f)[i].0;
        let b = listing_of(f)[j].0;
        lemma_label_rank_bijection(a, 0);
        lemma_label_rank_bijection(b, 0);
        lemma_label_order_sorted(label_rank(a), label_rank(b));
    }
}

/// The icon palette entry of an item number.
pub fn object_sprite_palette(i: usize) -> (r: i32)
    ensures
        r == object_palette(i),
{
    match i {
        0 => 851971,
        1 => 851970,
        2 => 131130,
        3 => 851972,
        4 => 131076,
        5 => 851988,
        6 => 851973,
        7 => 851974,
        8 => 851975,
        9 => 393216,
        10 => 393217,
        11 => 851982,
        12 => 851983,
        13 => 851987,
        14 => 851976,
        15 => -1,
        16 => 851968,
        17 => 393219,
        18 => 393235,
        19 => 393236,
        20 => 852023,
        21 => 852024,
        22 => 852029,
        23 => 852030,
        24 => 852003,
        25 => 852008,
        26 => 852007,
        27 => 852004,
        28 => 852009,
        29 => 852052,
        30 => 851998,
        31 => 851999,
        32 => 851997,
        33 => 852000,
        34 => 852051,
        35 => 852006,
        36 => 852001,
        37 => 852002,
        38 => 852015,
        39 => 852005,
        40 => 131100,
        41 => 131112,
        42 => 131086,
        43 => 131158,
        44 => 131082,
        45 => 851991,
        46 => 131090,
        47 => 131078,
        48 => 131124,
        49 => 131118,
        50 => 852041,
        51 => 131174,
        52 => 131142,
        53 => 131150,
        54 => -1,
        55 => 131162,
        56 => 131106,
        57 => 131094,
        58 => 131168,
        59 => 131136,
        60 => -1,
        61 => 131114,
        62 => 131190,
        63 => 131186,
        64 => 852019,
        65 => 852022,
        66 => 852031,
        67 => 852027,
        68 => 852020,
        69 => 852053,
        70 => 852018,
        71 => 852021,
        72 => 852017,
        73 => 852016,
        74 => 852028,
        75 => 852010,
        76 => 851989,
        77 => 852032,
        78 => 852033,
        79 => 852034,
        80 => 852035,
        81 => 851977,
        82 => 852055,
        83 => 851986,
        84 => 393232,
        85 => -1,
        86 => 852037,
        87 => 852038,
        88 => 852039,
        89 => 852036,
        90 => 852011,
        91 => 852040,
        92 => 852043,
        93 => 852025,
        94 => 393224,
        95 => 852059,
        96 => 852054,
        97 => 852050,
        98 => 852045,
        99 => 327680,
        100 => 327685,
        101 => 327690,
        102 => 327740,
        103 => 327745,
        104 => 327750,
        105 => 327800,
        106 => 327805,
        107 => 327810,
        108 => 327860,
        109 => 327865,
        110 => 327870,
        111 => 327920,
        112 => 327924,
        113 => 327928,
        114 => 327932,
        115 => 852046,
        116 => 852047,
        117 => 852048,
        118 => 852049,
        119 => 852044,
        _ => -1,
    }
}

/// The item at a position of the label order.
pub fn item_by_label_rank(r: usize) -> (it: Item)
    requires
        r < ITEM_COUNT,
    ensures
        it == label_rank_item(r),
{
    match r {
        0 => Item::Alligator,
        1 => Item::Anchor,
        2 => Item::Arrow,
        3 => Item::Axe,
        4 => Item::Bamboo,
        5 => Item::Banana,
        6 => Item::Barrel,
        7 => Item::Berry,
        8 => Item::BlueFish,
        9 => Item::Boa,
        10 => Item::Bow,
        11 => Item::Branch,
        12 => Item::BrokenRaft,
        13 => Item::BrownFish,
        14 => Item::Cabin,
        15 => Item::Clam,
        16 => Item::Clay,
        17 => Item::Coconut,
        18 => Item::Compass,
        19 => Item::Conch,
        20 => Item::Cotton,
        21 => Item::CottonPants,
        22 => Item::CottonShoe,
        23 => Item::CottonThread,
        24 => Item::Crab,
        25 => Item::CreamMushroom,
        26 => Item::DoubleBed,
        27 => Item::DryGrass,
        28 => Item::Egg,
        29 => Item::Fabric,
        30 => Item::Fire,
        31 => Item::FishingRod,
        32 => Item::Flag,
        33 => Item::Fur,
        34 => Item::FurHat,
        35 => Item::FurPants,
        36 => Item::FurShoe,
        37 => Item::GiantLog,
        38 => Item::Goldfish,
        39 => Item::GrayFish,
        40 => Item::GreenIguana,
        41 => Item::GreenParrot,
        42 => Item::GreenSnake,
        43 => Item::Gunpowder,
        44 => Item::Hammer,
        45 => Item::Hat,
        46 => Item::Hide,
        47 => Item::HideHat,
        48 => Item::HideJacket,
        49 => Item::HideShoe,
        50 => Item::Jaguar,
        51 => Item::Knife,
        52 => Item::LargeSail,
        53 => Item::Log,
        54 => Item::Loincloth,
        55 => Item::Machete,
        56 => Item::Mango,
        57 => Item::IslandMap,
        58 => Item::Moss,
        59 => Item::Mussel,
        60 => Item::Nail,
        61 => Item::Needle,
        62 => Item::Net,
        63 => Item::OrangeMushroom,
        64 => Item::Oyster,
        65 => Item::Papaya,
        66 => Item::Peccary,
        67 => Item::Pelican,
        68 => Item::Pineapple,
        69 => Item::PirateShip,
        70 => Item::PirateShipwreck,
        71 => Item::PirateJacket,
        72 => Item::Plane,
        73 => Item::Plank,
        74 => Item::Porcupine,
        75 => Item::Pot,
        76 => Item::Potato,
        77 => Item::PotterWheel,
        78 => Item::PufferFish,
        79 => Item::Raft,
        80 => Item::RedIbis,
        81 => Item::RedMushroom,
        82 => Item::RoastingSpit,
        83 => Item::Rock,
        84 => Item::Rope,
        85 => Item::Rug,
        86 => Item::RugMachine,
        87 => Item::Sail,
        88 => Item::Saw,
        89 => Item::Scallop,
        90 => Item::Scissors,
        91 => Item::SeaSnail,
        92 => Item::SeaUrchin,
        93 => Item::Seagull,
        94 => Item::Sextant,
        95 => Item::Shark,
        96 => Item::SingleBed,
        97 => Item::Spiral,
        98 => Item::Starfish,
        99 => Item::Stick,
        100 => Item::Stone,
        101 => Item::StrawHat,
        102 => Item::StrawShoe,
        103 => Item::TShirt,
        104 => Item::Tent,
        105 => Item::Toucan,
        106 => Item::TreeRoot,
        107 => Item::Turtle,
        108 => Item::Vine,
        109 => Item::WeavingMachine,
        110 => Item::Whelk,
        111 => Item::WhiteMushroom,
        112 => Item::WildGoat,
        113 => Item::Wool,
        114 => Item::WoolJacket,
        115 => Item::WoolPants,
        116 => Item::WoolThread,
        117 => Item::Worms,
        _ => Item::YellowFish,
    }
}

impl Item {
    /// The item's number in the game data.
    pub fn j2me_index(self) -> (r: usize)
        ensures
            r == item_index(self),
    {
        match self {
            Item::Mango => 0,
            Item::Coconut => 1,
            Item::GrayFish => 2,
            Item::Stone => 3,
            Item::WildGoat => 4,
            Item::Axe => 5,
            Item::Vine => 6,
            Item::DryGrass => 7,
            Item::Branch => 8,
            Item::Tent => 9,
            Item::Cabin => 10,
            Item::Log => 11,
            Item::Sail => 12,
            Item::Nail => 13,
            Item::FishingRod => 14,
            Item::SingleBed => 15,
            Item::Fire => 16,
            Item::PirateShip => 19,
            Item::Flag => 17,
            Item::PirateShipwreck => 18,
            Item::Clay => 20,
            Item::Rock => 21,
            Item::Sextant => 22,
            Item::IslandMap => 23,
            Item::Banana => 24,
            Item::Papaya => 25,
            Item::Potato => 26,
            Item::Pineapple => 27,
            Item::Berry => 28,
            Item::Hide => 29,
            Item::WhiteMushroom => 30,
            Item::RedMushroom => 31,
            Item::CreamMushroom => 32,
            Item::OrangeMushroom => 33,
            Item::RugMachine => 34,
            Item::TreeRoot => 35,
            Item::Stick => 36,
            Item::Plank => 37,
            Item::Bamboo => 38,
            Item::Moss => 39,
            Item::Crab => 41,
            Item::Alligator => 42,
            Item::Jaguar => 43,
            Item::Peccary => 44,
            Item::Arrow => 45,
            Item::Porcupine => 46,
            Item::Turtle => 47,
            Item::GreenSnake => 48,
            Item::Boa => 49,
            Item::Barrel => 50,
            Item::GreenParrot => 51,
            Item::Seagull => 52,
            Item::Pelican => 53,
            Item::LargeSail => 54,
            Item::Shark => 55,
            Item::Rug => 60,
            Item::GreenIguana => 61,
            Item::Toucan => 62,
            Item::RedIbis => 63,
            Item::Spiral => 64,
            Item::Whelk => 65,
            Item::Oyster => 66,
            Item::Clam => 67,
            Item::Conch => 68,
            Item::Fur => 69,
            Item::SeaSnail => 70,
            Item::Mussel => 71,
            Item::Scallop => 72,
            Item::Starfish => 73,
            Item::SeaUrchin => 74,
            Item::BrownFish => 40,
            Item::BlueFish => 56,
            Item::YellowFish => 57,
            Item::PufferFish => 58,
            Item::Goldfish => 59,
            Item::Egg => 75,
            Item::Knife => 76,
            Item::Hammer => 77,
            Item::Saw => 78,
            Item::Anchor => 79,
            Item::Compass => 80,
            Item::Bow => 81,
            Item::RoastingSpit => 82,
            Item::Net => 83,
            Item::DoubleBed => 85,
            Item::BrokenRaft => 84,
            Item::Needle => 86,
            Item::Pot => 87,
            Item::PotterWheel => 88,
            Item::Plane => 89,
            Item::Worms => 90,
            Item::Rope => 91,
            Item::Gunpowder => 92,
            Item::GiantLog => 93,
            Item::Raft => 94,
            Item::Machete => 96,
            Item::Scissors => 97,
            Item::Cotton => 98,
            Item::TShirt => 99,
            Item::PirateJacket => 100,
            Item::WoolJacket => 101,
            Item::HideJacket => 102,
            Item::CottonPants => 103,
            Item::Loincloth => 104,
            Item::FurPants => 105,
            Item::WoolPants => 106,
            Item::HideShoe => 107,
            Item::CottonShoe => 108,
            Item::StrawShoe => 109,
            Item::FurShoe => 110,
            Item::HideHat => 111,
            Item::Hat => 112,
            Item::StrawHat => 113,
            Item::FurHat => 114,
            Item::WoolThread => 115,
            Item::CottonThread => 116,
            Item::WeavingMachine => 117,
            Item::Fabric => 118,
            Item::Wool => 119,
        }
    }

    /// The item with a given number in the game data, if any.
    pub fn from_j2me_index(idx: usize) -> (r: Option<Item>)
        ensures
            r == item_at_index(idx),
    {
        match idx {
            0 => Some(Item::Mango),
            1 => Some(Item::Coconut),
            2 => Some(Item::GrayFish),
            3 => Some(Item::Stone),
            4 => Some(Item::WildGoat),
            5 => Some(Item::Axe),
            6 => Some(Item::Vine),
            7 => Some(Item::DryGrass),
            8 => Some(Item::Branch),
            9 => Some(Item::Tent),
            10 => Some(Item::Cabin),
            11 => Some(Item::Log),
            12 => Some(Item::Sail),
            13 => Some(Item::Nail),
            14 => Some(Item::FishingRod),
            15 => Some(Item::SingleBed),
            16 => Some(Item::Fire),
            17 => Some(Item::Flag),
            18 => Some(Item::PirateShipwreck),
            19 => Some(Item::PirateShip),
            20 => Some(Item::Clay),
            21 => Some(Item::Rock),
            22 => Some(Item::Sextant),
            23 => Some(Item::IslandMap),
            24 => Some(Item::Banana),
            25 => Some(Item::Papaya),
            26 => Some(Item::Potato),
            27 => Some(Item::Pineapple),
            28 => Some(Item::Berry),
            29 => Some(Item::Hide),
            30 => Some(Item::WhiteMushroom),
            31 => Some(Item::RedMushroom),
            32 => Some(Item::CreamMushroom),
            33 => Some(Item::OrangeMushroom),
            34 => Some(Item::RugMachine),
            35 => Some(Item::TreeRoot),
            36 => Some(Item::Stick),
            37 => Some(Item::Plank),
            38 => Some(Item::Bamboo),
            39 => Some(Item::Moss),
            40 => Some(Item::BrownFish),
            41 => Some(Item::Crab),
            42 => Some(Item::Alligator),
            43 => Some(Item::Jaguar),
            44 => Some(Item::Peccary),
            45 => Some(Item::Arrow),
            46 => Some(Item::Porcupine),
            47 => Some(Item::Turtle),
            48 => Some(Item::GreenSnake),
            49 => Some(Item::Boa),
            50 => Some(Item::Barrel),
            51 => Some(Item::GreenParrot),
            52 => Some(Item::Seagull),
            53 => Some(Item::Pelican),
            54 => Some(Item::LargeSail),
            55 => Some(Item::Shark),
            56 => Some(Item::BlueFish),
            57 => Some(Item::YellowFish),
            58 => Some(Item::PufferFish),
            59 => Some(Item::Goldfish),
            60 => Some(Item::Rug),
            61 => Some(Item::GreenIguana),
            62 => Some(Item::Toucan),
            63 => Some(Item::RedIbis),
            64 => Some(Item::Spiral),
            65 => Some(Item::Whelk),
            66 => Some(Item::Oyster),
            67 => Some(Item::Clam),
            68 => Some(Item::Conch),
            69 => Some(Item::Fur),
            70 => Some(Item::SeaSnail),
            71 => Some(Item::Mussel),
            72 => Some(Item::Scallop),
            73 => Some(Item::Starfish),
            74 => Some(Item::SeaUrchin),
            75 => Some(Item::Egg),
            76 => Some(Item::Knife),
            77 => Some(Item::Hammer),
            78 => Some(Item::Saw),
            79 => Some(Item::Anchor),
            80 => Some(Item::Compass),
            81 => Some(Item::Bow),
            82 => Some(Item::RoastingSpit),
            83 => Some(Item::Net),
            84 => Some(Item::BrokenRaft),
            85 => Some(Item::DoubleBed),
            86 => Some(Item::Needle),
            87 => Some(Item::Pot),
            88 => Some(Item::PotterWheel),
            89 => Some(Item::Plane),
            90 => Some(Item::Worms),
            91 => Some(Item::Rope),
            92 => Some(Item::Gunpowder),
            93 => Some(Item::GiantLog),
            94 => Some(Item::Raft),
            96 => Some(Item::Machete),
            97 => Some(Item::Scissors),
            98 => Some(Item::Cotton),
            99 => Some(Item::TShirt),
            100 => Some(Item::PirateJacket),
            101 => Some(Item::WoolJacket),
            102 => Some(Item::HideJacket),
            103 => Some(Item::CottonPants),
            104 => Some(Item::Loincloth),
            105 => Some(Item::FurPants),
            106 => Some(Item::WoolPants),
            107 => Some(Item::HideShoe),
            108 => Some(Item::CottonShoe),
            109 => Some(Item::StrawShoe),
            110 => Some(Item::FurShoe),
            111 => Some(Item::HideHat),
            112 => Some(Item::Hat),
            113 => Some(Item::StrawHat),
            114 => Some(Item::FurHat),
            115 => Some(Item::WoolThread),
            116 => Some(Item::CottonThread),
            117 => Some(Item::WeavingMachine),
            118 => Some(Item::Fabric),
            119 => Some(Item::Wool),
            _ => None,
        }
    }

    /// The name the interface shows for the item.
    pub fn label(self) -> (r: &'static str)
        ensures
            r@ == item_label(self),
    {
        match self {
            Item::Mango => {
                proof {
                    reveal_strlit("Mango");
                }
                "Mango"
            },
            Item::Coconut => {
                proof {
                    reveal_strlit("Coconut");
                }
                "Coconut"
            },
            Item::GrayFish => {
                proof {
                    reveal_strlit("Gray fish");
                }
                "Gray fish"
            },
            Item::Stone => {
                proof {
                    reveal_strlit("Stone");
                }
                "Stone"
            },
            Item::WildGoat => {
                proof {
                    reveal_strlit("Wild goat");
                }
                "Wild goat"
            },
            Item::Axe => {
                proof {
                    reveal_strlit("Axe");
                }
                "Axe"
            },
            Item::Vine => {
                proof {
                    reveal_strlit("Vine");
                }
                "Vine"
            },
            Item::DryGrass => {
                proof {
                    reveal_strlit("Dry grass");
                }
                "Dry grass"
            },
            Item::Branch => {
                proof {
                    reveal_strlit("Branch");
                }
                "Branch"
            },
            Item::Tent => {
                proof {
                    reveal_strlit("Tent");
                }
                "Tent"
            },
            Item::Cabin => {
                proof {
                    reveal_strlit("Cabin");
                }
                "Cabin"
            },
            Item::Log => {
                proof {
                    reveal_strlit("Log");
                }
                "Log"
            },
            Item::Sail => {
                proof {
                    reveal_strlit("Sail");
                }
                "Sail"
            },
            Item::Nail => {
                proof {
                    reveal_strlit("Nail");
                }
                "Nail"
            },
            Item::FishingRod => {
                proof {
                    reveal_strlit("Fishing rod");
                }
                "Fishing rod"
            },
            Item::SingleBed => {
                proof {
                    reveal_strlit("Single bed");
                }
                "Single bed"
            },
            Item::Fire => {
                proof {
                    reveal_strlit("Fire");
                }
                "Fire"
            },
            Item::PirateShip => {
                proof {
                    reveal_strlit("Pirate ship");
                }
                "Pirate ship"
            },
            Item::Flag => {
                proof {
                    reveal_strlit("Flag");
                }
                "Flag"
            },
            Item::PirateShipwreck => {
                proof {
                    reveal_strlit("Pirate shipwreck");
                }
                "Pirate shipwreck"
            },
            Item::Clay => {
                proof {
                    reveal_strlit("Clay");
                }
                "Clay"
            },
            Item::Rock => {
                proof {
                    reveal_strlit("Rock");
                }
                "Rock"
            },
            Item::Sextant => {
                proof {
                    reveal_strlit("Sextant");
                }
                "Sextant"
            },
            Item::IslandMap => {
                proof {
                    reveal_strlit("Map");
                }
                "Map"
            },
            Item::Banana => {
                proof {
                    reveal_strlit("Banana");
                }
                "Banana"
            },
            Item::Papaya => {
                proof {
                    reveal_strlit("Papaya");
                }
                "Papaya"
            },
            Item::Potato => {
                proof {
                    reveal_strlit("Potato");
                }
                "Potato"
            },
            Item::Pineapple => {
                proof {
                    reveal_strlit("Pineapple");
                }
                "Pineapple"
            },
            Item::Berry => {
                proof {
                    reveal_strlit("Berry");
                }
                "Berry"
            },
            Item::Hide => {
                proof {
                    reveal_strlit("Hide");
                }
                "Hide"
            },
            Item::WhiteMushroom => {
                proof {
                    reveal_strlit("White mushroom");
                }
                "White mushroom"
            },
            Item::RedMushroom => {
                proof {
                    reveal_strlit("Red mushroom");
                }
                "Red mushroom"
            },
            Item::CreamMushroom => {
                proof {
                    reveal_strlit("Cream mushroom");
                }
                "Cream mushroom"
            },
            Item::OrangeMushroom => {
                proof {
                    reveal_strlit("Orange mushroom");
                }
                "Orange mushroom"
            },
            Item::RugMachine => {
                proof {
                    reveal_strlit("Rug machine");
                }
                "Rug machine"
            },
            Item::TreeRoot => {
                proof {
                    reveal_strlit("Tree root");
                }
                "Tree root"
            },
            Item::Stick => {
                proof {
                    reveal_strlit("Stick");
                }
                "Stick"
            },
            Item::Plank => {
                proof {
                    reveal_strlit("Plank");
                }
                "Plank"
            },
            Item::Bamboo => {
                proof {
                    reveal_strlit("Bamboo");
                }
                "Bamboo"
            },
            Item::Moss => {
                proof {
                    reveal_strlit("Moss");
                }
                "Moss"
            },
            Item::Crab => {
                proof {
                    reveal_strlit("Crab");
                }
                "Crab"
            },
            Item::Alligator => {
                proof {
                    reveal_strlit("Alligator");
                }
                "Alligator"
            },
            Item::Jaguar => {
                proof {
                    reveal_strlit("Jaguar");
                }
                "Jaguar"
            },
            Item::Peccary => {
                proof {
                    reveal_strlit("Peccary");
                }
                "Peccary"
            },
            Item::Arrow => {
                proof {
                    reveal_strlit("Arrow");
                }
                "Arrow"
            },
            Item::Porcupine => {
                proof {
                    reveal_strlit("Porcupine");
                }
                "Porcupine"
            },
            Item::Turtle => {
                proof {
                    reveal_strlit("Turtle");
                }
                "Turtle"
            },
            Item::GreenSnake => {
                proof {
                    reveal_strlit("Green snake");
                }
                "Green snake"
            },
            Item::Boa => {
                proof {
                    reveal_strlit("Boa");
                }
                "Boa"
            },
            Item::Barrel => {
                proof {
                    reveal_strlit("Barrel");
                }
                "Barrel"
            },
            Item::GreenParrot => {
                proof {
                    reveal_strlit("Green parrot");
                }
                "Green parrot"
            },
            Item::Seagull => {
                proof {
                    reveal_strlit("Seagull");
                }
                "Seagull"
            },
            Item::Pelican => {
                proof {
                    reveal_strlit("Pelican");
                }
                "Pelican"
            },
            Item::LargeSail => {
                proof {
                    reveal_strlit("Large sail");
                }
                "Large sail"
            },
            Item::Shark => {
                proof {
                    reveal_strlit("Shark");
                }
                "Shark"
            },
            Item::Rug => {
                proof {
                    reveal_strlit("Rug");
                }
                "Rug"
            },
            Item::GreenIguana => {
                proof {
                    reveal_strlit("Green iguana");
                }
                "Green iguana"
            },
            Item::Toucan => {
                proof {
                    reveal_strlit("Toucan");
                }
                "Toucan"
            },
            Item::RedIbis => {
                proof {
                    reveal_strlit("Red ibis");
                }
                "Red ibis"
            },
            Item::Spiral => {
                proof {
                    reveal_strlit("Spiral");
                }
                "Spiral"
            },
            Item::Whelk => {
                proof {
                    reveal_strlit("Whelk");
                }
                "Whelk"
            },
            Item::Oyster => {
                proof {
                    reveal_strlit("Oyster");
                }
                "Oyster"
            },
            Item::Clam => {
                proof {
                    reveal_strlit("Clam");
                }
                "Clam"
            },
            Item::Conch => {
                proof {
                    reveal_strlit("Conch");
                }
                "Conch"
            },
            Item::Fur => {
                proof {
                    reveal_strlit("Fur");
                }
                "Fur"
            },
            Item::SeaSnail => {
                proof {
                    reveal_strlit("Sea snail");
                }
                "Sea snail"
            },
            Item::Mussel => {
                proof {
                    reveal_strlit("Mussel");
                }
                "Mussel"
            },
            Item::Scallop => {
                proof {
                    reveal_strlit("Scallop");
                }
                "Scallop"
            },
            Item::Starfish => {
                proof {
                    reveal_strlit("Starfish");
                }
                "Starfish"
            },
            Item::SeaUrchin => {
                proof {
                    reveal_strlit("Sea urchin");
                }
                "Sea urchin"
            },
            Item::BrownFish => {
                proof {
                    reveal_strlit("Brown fish");
                }
                "Brown fish"
            },
            Item::BlueFish => {
                proof {
                    reveal_strlit("Blue fish");
                }
                "Blue fish"
            },
            Item::YellowFish => {
                proof {
                    reveal_strlit("Yellow fish");
                }
                "Yellow fish"
            },
            Item::PufferFish => {
                proof {
                    reveal_strlit("Puffer fish");
                }
                "Puffer fish"
            },
            Item::Goldfish => {
                proof {
                    reveal_strlit("Goldfish");
                }
                "Goldfish"
            },
            Item::Egg => {
                proof {
                    reveal_strlit("Egg");
                }
                "Egg"
            },
            Item::Knife => {
                proof {
                    reveal_strlit("Knife");
                }
                "Knife"
            },
            Item::Hammer => {
                proof {
                    reveal_strlit("Hammer");
                }
                "Hammer"
            },
            Item::Saw => {
                proof {
                    reveal_strlit("Saw");
                }
                "Saw"
            },
            Item::Anchor => {
                proof {
                    reveal_strlit("Anchor");
                }
                "Anchor"
            },
            Item::Compass => {
                proof {
                    reveal_strlit("Compass");
                }
                "Compass"
            },
            Item::Bow => {
                proof {
                    reveal_strlit("Bow");
                }
                "Bow"
            },
            Item::RoastingSpit => {
                proof {
                    reveal_strlit("Roasting spit");
                }
                "Roasting spit"
            },
            Item::Net => {
                proof {
                    reveal_strlit("Net");
                }
                "Net"
            },
            Item::DoubleBed => {
                proof {
                    reveal_strlit("Double bed");
                }
                "Double bed"
            },
            Item::BrokenRaft => {
                proof {
                    reveal_strlit("Broken raft");
                }
                "Broken raft"
            },
            Item::Needle => {
                proof {
                    reveal_strlit("Needle");
                }
                "Needle"
            },
            Item::Pot => {
                proof {
                    reveal_strlit("Pot");
                }
                "Pot"
            },
            Item::PotterWheel => {
                proof {
                    reveal_strlit("Potter's wheel");
                }
                "Potter's wheel"
            },
            Item::Plane => {
                proof {
                    reveal_strlit("Plane");
                }
                "Plane"
            },
            Item::Worms => {
                proof {
                    reveal_strlit("Worms");
                }
                "Worms"
            },
            Item::Rope => {
                proof {
                    reveal_strlit("Rope");
                }
                "Rope"
            },
            Item::Gunpowder => {
                proof {
                    reveal_strlit("Gunpowder");
                }
                "Gunpowder"
            },
            Item::GiantLog => {
                proof {
                    reveal_strlit("Giant log");
                }
                "Giant log"
            },
            Item::Raft => {
                proof {
                    reveal_strlit("Raft");
                }
                "Raft"
            },
            Item::Machete => {
                proof {
                    reveal_strlit("Machete");
                }
                "Machete"
            },
            Item::Scissors => {
                proof {
                    reveal_strlit("Scissors");
                }
                "Scissors"
            },
            Item::Cotton => {
                proof {
                    reveal_strlit("Cotton");
                }
                "Cotton"
            },
            Item::TShirt => {
                proof {
                    reveal_strlit("T-shirt");
                }
                "T-shirt"
            },
            Item::PirateJacket => {
                proof {
                    reveal_strlit("Pirate's jacket");
                }
                "Pirate's jacket"
            },
            Item::WoolJacket => {
                proof {
                    reveal_strlit("Wool jacket");
                }
                "Wool jacket"
            },
            Item::HideJacket => {
                proof {
                    reveal_strlit("Hide jacket");
                }
                "Hide jacket"
            },
            Item::CottonPants => {
                proof {
                    reveal_strlit("Cotton pants");
                }
                "Cotton pants"
            },
            Item::Loincloth => {
                proof {
                    reveal_strlit("Loincloth");
                }
                "Loincloth"
            },
            Item::FurPants => {
                proof {
                    reveal_strlit("Fur pants");
                }
                "Fur pants"
            },
            Item::WoolPants => {
                proof {
                    reveal_strlit("Wool pants");
                }
                "Wool pants"
            },
            Item::HideShoe => {
                proof {
                    reveal_strlit("Hide shoe");
                }
                "Hide shoe"
            },
            Item::CottonShoe => {
                proof {
                    reveal_strlit("Cotton shoe");
                }
                "Cotton shoe"
            },
            Item::StrawShoe => {
                proof {
                    reveal_strlit("Straw shoe");
                }
                "Straw shoe"
            },
            Item::FurShoe => {
                proof {
                    reveal_strlit("Fur shoe");
                }
                "Fur shoe"
            },
            Item::HideHat => {
                proof {
                    reveal_strlit("Hide hat");
                }
                "Hide hat"
            },
            Item::Hat => {
                proof {
                    reveal_strlit("Hat");
                }
                "Hat"
            },
            Item::StrawHat => {
                proof {
                    reveal_strlit("Straw hat");
                }
                "Straw hat"
            },
            Item::FurHat => {
                proof {
                    reveal_strlit("Fur hat");
                }
                "Fur hat"
            },
            Item::WoolThread => {
                proof {
                    reveal_strlit("Wool thread");
                }
                "Wool thread"
            },
            Item::CottonThread => {
                proof {
                    reveal_strlit("Cotton thread");
                }
                "Cotton thread"
            },
            Item::WeavingMachine => {
                proof {
                    reveal_strlit("Weaving machine");
                }
                "Weaving machine"
            },
            Item::Fabric => {
                proof {
                    reveal_strlit("Fabric");
                }
                "Fabric"
            },
            Item::Wool => {
                proof {
                    reveal_strlit("Wool");
                }
                "Wool"
            },
        }
    }
    /// The sheet and sprite index of the item's icon.
    pub fn icon_sprite(self) -> (r: (u32, u32))
        ensures
            r == icon_sprite_of(self),
    {
        let idx = self.j2me_index();
        proof {
            lemma_item_index_round_trip(self, 0);
            lemma_palette_entries_nonnegative_or_absent(idx);
        }
        let val = object_sprite_palette(idx);
        if val == -1 {
            (13, 0)
        } else {
            let sheet = val >> 16u32;
            let sprite = val & 0xFFFFi32;
            assert(sheet == val / 0x1_0000 && sprite == val % 0x1_0000) by (bit_vector)
                requires
                    val >= 0,
                    sheet == val >> 16u32,
                    sprite == val & 0xFFFFi32,
            ;
            (sheet as u32, sprite as u32)
        }
    }

    /// The sprite index of the item's icon on its sheet.
    pub fn icon_index(self) -> (r: u32)
        ensures
            r == icon_sprite_of(self).1,
    {
        let (_, sprite) = self.icon_sprite();
        sprite
    }
}

/// What the player carries and what lies in the storage chest, counted per
/// item.
pub struct Inventory {
    counts: Vec<u32>,
    chest: Vec<u32>,
}

impl Inventory {
    /// The inventory holds one counter per item slot, carried and stored.
    pub closed spec fn wf(self) -> bool {
        &&& self.counts.len() == ITEM_SLOTS
        &&& self.chest.len() == ITEM_SLOTS
    }

    /// How many of an item the player carries.
    pub closed spec fn amount(self, item: Item) -> u32 {
        self.counts@[item_index(item) as int]
    }

    /// How many of an item lie in the storage chest.
    pub closed spec fn stored(self, item: Item) -> u32 {
        self.chest@[item_index(item) as int]
    }

    /// An inventory with nothing carried and nothing stored.
    pub fn new() -> (r: Inventory)
        ensures
            r.wf(),
            forall|it: Item| r.amount(it) == 0 && r.stored(it) == 0,
    {
        let mut counts: Vec<u32> = Vec::new();
        let mut chest: Vec<u32> = Vec::new();
        let mut i: usize = 0;
        while i < ITEM_SLOTS
            invariant
                i <= ITEM_SLOTS,
                counts.len() == i,
                chest.len() == i,
                forall|j: int| 0 <= j < i ==> counts@[j] == 0 && chest@[j] == 0,
            decreases ITEM_SLOTS - i,
        {
            counts.push(0);
            chest.push(0);
            i = i + 1;
        }
        let r = Inventory { counts, chest };
        proof {
            assert forall|it: Item| r.amount(it) == 0 && r.stored(it) == 0 by {
                lemma_item_index_round_trip(it, 0);
            }
        }
        r
    }

    /// A second inventory holding the same counts, carried and stored.
    pub fn duplicate(&self) -> (r: Inventory)
        requires
            self.wf(),
        ensures
            r.wf(),
            same_counts(*self, r),
    {
        let mut counts: Vec<u32> = Vec::new();
        let mut chest: Vec<u32> = Vec::new();
        let mut i: usize = 0;
        while i < ITEM_SLOTS
            invariant
                self.wf(),
                i <= ITEM_SLOTS,
                counts@ == self.counts@.take(i as int),
                chest@ == self.chest@.take(i as int),
            decreases ITEM_SLOTS - i,
        {
            counts.push(self.counts[i]);
            chest.push(self.chest[i]);
            proof {
                assert(self.counts@.take(i + 1) =~= self.counts@.take(i as int).push(self.counts@[i as int]));
                assert(self.chest@.take(i + 1) =~= self.chest@.take(i as int).push(self.chest@[i as int]));
            }
            i = i + 1;
        }
        proof {
            assert(counts@ =~= self.counts@);
            assert(chest@ =~= self.chest@);
        }
        Inventory { counts, chest }
    }

    /// How many of an item the player carries.
    pub fn count(&self, item: Item) -> (r: u32)
        requires
            self.wf(),
        ensures
            r == self.amount(item),
    {
        proof {
            lemma_item_index_round_trip(item, 0);
        }
        self.counts[item.j2me_index()]
    }

    /// How many of an item lie in the storage chest.
    pub fn chest_count(&self, item: Item) -> (r: u32)
        requires
            self.wf(),
        ensures
            r == self.stored(item),
    {
        proof {
            lemma_item_index_round_trip(item, 0);
        }
        self.chest[item.j2me_index()]
    }

    /// True when the player carries nothing.
    pub fn is_empty(&self) -> (r: bool)
        requires
            self.wf(),
        ensures
            r == forall|it: Item| self.amount(it) == 0,
    {
        let mut i: usize = 0;
        while i < ITEM_SLOTS
            invariant
                i <= ITEM_SLOTS,
                self.counts.len() == ITEM_SLOTS,
                forall|it: Item| item_index(it) < i ==> self.amount(it) == 0,
            decreases ITEM_SLOTS - i,
        {
            if let Some(it) = Item::from_j2me_index(i) {
                proof {
                    lemma_item_index_round_trip(it, i);
                }
                if self.counts[i] != 0 {
                    assert(self.amount(it) != 0);
                    return false;
                }
            }
            proof {
                assert forall|x: Item| item_index(x) < i + 1 implies self.amount(x) == 0 by {
                    lemma_item_index_round_trip(x, i);
                }
            }
            i = i + 1;
        }
        proof {
            assert forall|x: Item| self.amount(x) == 0 by {
                lemma_item_index_round_trip(x, 0);
            }
        }
        true
    }

    /// Add `n` of an item to what the player carries.
    pub fn add(&mut self, item: Item, n: u32)
        requires
            old(self).wf(),
            old(self).amount(item) + n <= u32::MAX,
        ensures
            final(self).wf(),
            carried_more(*old(self), *final(self), item, n),
    {
        proof {
            lemma_item_index_round_trip(item, 0);
        }
        let i = item.j2me_index();
        let v = self.counts[i];
        self.counts.set(i, v + n);
        proof {
            assert forall|other: Item| other != item implies self.amount(other) == old(self).amount(other) by {
                lemma_item_index_injective(other, item);
            }
        }
    }

    /// Take `n` of an item away from what the player carries.
    pub fn remove(&mut self, item: Item, n: u32)
        requires
            old(self).wf(),
            old(self).amount(item) >= n,
        ensures
            final(self).wf(),
            carried_more(*final(self), *old(self), item, n),
    {
        proof {
            lemma_item_index_round_trip(item, 0);
        }
        let i = item.j2me_index();
        let v = self.counts[i];
        self.counts.set(i, v - n);
        proof {
            assert forall|other: Item| other != item implies self.amount(other) == old(self).amount(other) by {
                lemma_item_index_injective(other, item);
            }
        }
    }

    /// Move one of an item from what the player carries into the chest.
    pub fn store_one(&mut self, item: Item)
        requires
            old(self).wf(),
            old(self).amount(item) > 0,
            old(self).stored(item) < u32::MAX,
        ensures
            final(self).wf(),
            moved_to_chest(*old(self), *final(self), item),
    {
        proof {
            lemma_item_index_round_trip(item, 0);
        }
        let i = item.j2me_index();
        let v = self.counts[i];
        self.counts.set(i, v - 1);
        let c = self.chest[i];
        self.chest.set(i, c + 1);
        proof {
            assert forall|other: Item| other != item implies self.amount(other) == old(self).amount(
                other,
            ) && self.stored(other) == old(self).stored(other) by {
                lemma_item_index_injective(other, item);
            }
        }
    }

    /// Move one of an item from the chest back to what the player carries.
    pub fn retrieve_one(&mut self, item: Item)
        requires
            old(self).wf(),
            old(self).stored(item) > 0,
            old(self).amount(item) < u32::MAX,
        ensures
            final(self).wf(),
            moved_to_chest(*final(self), *old(self), item),
    {
        proof {
            lemma_item_index_round_trip(item, 0);
        }
        let i = item.j2me_index();
        let c = self.chest[i];
        self.chest.set(i, c - 1);
        let v = self.counts[i];
        self.counts.set(i, v + 1);
        proof {
            assert forall|other: Item| other != item implies self.amount(other) == old(self).amount(
                other,
            ) && self.stored(other) == old(self).stored(other) by {
                lemma_item_index_injective(other, item);
            }
        }
    }

    /// The number of things carried, all items together.
    pub fn carried_total(&self) -> (r: u64)
        requires
            self.wf(),
        ensures
            r == amount_total(|it: Item| self.amount(it)),
    {
        let ghost f = |it: Item| self.amount(it);
        let mut total: u64 = 0;
        let mut r: usize = 0;
        while r < ITEM_COUNT
            invariant
                r <= ITEM_COUNT,
                self.wf(),
                f == (|it: Item| self.amount(it)),
                total == amount_total_upto(f, r as int),
            decreases ITEM_COUNT - r,
        {
            proof {
                lemma_amount_total_bound(f, r as int + 1);
            }
            let it = item_by_label_rank(r);
            total = total + self.count(it) as u64;
            r = r + 1;
        }
        total
    }

    /// The carried items with a nonzero count, with their counts, ordered by
    /// label, for the inventory display.
    pub fn items_ordered(&self) -> (r: Vec<(Item, u32)>)
        requires
            self.wf(),
        ensures
            r@ == listing_of(|it: Item| self.amount(it)),
    {
        let ghost f = |it: Item| self.amount(it);
        let mut out: Vec<(Item, u32)> = Vec::new();
        let mut r: usize = 0;
        while r < ITEM_COUNT
            invariant
                r <= ITEM_COUNT,
                self.wf(),
                out@ == listing_upto(f, r as int),
                f == (|it: Item| self.amount(it)),
            decreases ITEM_COUNT - r,
        {
            let it = item_by_label_rank(r);
            let n = self.count(it);
            if n > 0 {
                out.push((it, n));
            }
            r = r + 1;
        }
        out
    }

    /// The stored items with a nonzero count, with their counts, ordered by
    /// label, for the storage display.
    pub fn chest_items_ordered(&self) -> (r: Vec<(Item, u32)>)
        requires
            self.wf(),
        ensures
            r@ == listing_of(|it: Item| self.stored(it)),
    {
        let ghost f = |it: Item| self.stored(it);
        let mut out: Vec<(Item, u32)> = Vec::new();
        let mut r: usize = 0;
        while r < ITEM_COUNT
            invariant
                r <= ITEM_COUNT,
                self.wf(),
                out@ == listing_upto(f, r as int),
                f == (|it: Item| self.stored(it)),
            decreases ITEM_COUNT - r,
        {
            let it = item_by_label_rank(r);
            let n = self.chest_count(it);
            if n > 0 {
                out.push((it, n));
            }
            r = r + 1;
        }
        out
    }
}

/// `after` carries `n` more of `item` than `before`, and every other count,
/// carried or stored, is the same.
pub open spec fn carried_more(before: Inventory, after: Inventory, item: Item, n: u32) -> bool {
    &&& after.amount(item) == before.amount(item) + n
    &&& forall|other: Item| other != item ==> after.amount(other) == before.amount(other)
    &&& forall|other: Item| after.stored(other) == before.stored(other)
}

/// `after` is `before` with one of `item` moved from what is carried into
/// the chest; every other count is the same.
pub open spec fn moved_to_chest(before: Inventory, after: Inventory, item: Item) -> bool {
    &&& after.amount(item) == before.amount(item) - 1
    &&& after.stored(item) == before.stored(item) + 1
    &&& forall|other: Item|
        other != item ==> after.amount(other) == before.amount(other) && after.stored(other)
            == before.stored(other)
}

/// Two inventories hold the same counts, carried and stored, of every item.
pub open spec fn same_counts(a: Inventory, b: Inventory) -> bool {
    forall|it: Item| a.amount(it) == b.amount(it) && a.stored(it) == b.stored(it)
}

/// Adding `n` of an item and then removing `n` of it gives back the
/// inventory one started with.
pub proof fn lemma_add_then_remove_restores(a: Inventory, b: Inventory, c: Inventory, item: Item, n: u32)
    requires
        carried_more(a, b, item, n),
        carried_more(c, b, item, n),
    ensures
        same_counts(a, c),
{
}

/// Storing one of an item in the chest and taking it out again gives back
/// the inventory one started with.
pub proof fn lemma_store_then_retrieve_restores(a: Inventory, b: Inventory, c: Inventory, item: Item)
    requires
        moved_to_chest(a, b, item),
        moved_to_chest(c, b, item),
    ensures
        same_counts(a, c),
{
}

/// Taking one of an item out of the chest and storing it again gives back
/// the inventory one started with.
pub proof fn lemma_retrieve_then_store_restores(a: Inventory, b: Inventory, c: Inventory, item: Item)
    requires
        moved_to_chest(b, a, item),
        moved_to_chest(b, c, item),
    ensures
        same_counts(a, c),
{
}

proof fn lemma_total_upto_one_item_more(
    fa: spec_fn(Item) -> u32,
    fb: spec_fn(Item) -> u32,
    item: Item,
    n: nat,
    r: int,
)
    requires
        0 <= r <= ITEM_COUNT,
        forall|it: Item| it != item ==> #[trigger] fb(it) == fa(it),
        fb(item) == fa(item) + n,
    ensures
        amount_total_upto(fb, r) == amount_total_upto(fa, r) + if label_rank(item) < r {
            n
        } else {
            0
        },
    decreases r,
{
    if r > 0 {
        lemma_total_upto_one_item_more(fa, fb, item, n, r - 1);
        lemma_label_rank_bijection(item, (r - 1) as usize);
        let it = label_rank_item((r - 1) as usize);
        assert(it == item <==> label_rank(item) == r - 1);
    }
}

/// Carrying `n` more of an item adds `n` to the total carried, the weight
/// the player bears.
pub proof fn lemma_total_grows_by_what_is_added(a: Inventory, b: Inventory, item: Item, n: u32)
    requires
        carried_more(a, b, item, n),
    ensures
        amount_total(|it: Item| b.amount(it)) == amount_total(|it: Item| a.amount(it)) + n,
{
    let fa = |it: Item| a.amount(it);
    let fb = |it: Item| b.amount(it);
    lemma_label_rank_bijection(item, 0);
    lemma_total_upto_one_item_more(fa, fb, item, n as nat, ITEM_COUNT as int);
}

impl Default for Inventory {
    fn default() -> (r: Inventory)
        ensures
            r.wf(),
            forall|it: Item| r.amount(it) == 0 && r.stored(it) == 0,
    {
        Inventory::new()
    }
}

} // verus!
