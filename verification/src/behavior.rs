//! Behaviour constants of the game: string identifiers,
//! minigame rules, and the tutorial thoughts tied to map markers.

use vstd::prelude::*;

verus! {

/// Positions of the interface strings in the game's string table.
pub const STR_TITLE_LOAD: usize = 53;
pub const STR_TITLE_NEW: usize = 54;
pub const STR_OPTIONS: usize = 55;
pub const STR_HELP: usize = 56;
pub const STR_CREDITS: usize = 57;
pub const STR_INVENTORY: usize = 60;
pub const STR_STATS: usize = 61;
pub const STR_EXAMINE: usize = 62;
pub const STR_REST_SLEEP: usize = 64;
pub const STR_CREATIONS: usize = 65;
pub const STR_CONSTRUCTIONS: usize = 66;
pub const STR_STORAGE: usize = 69;
pub const STR_MAP: usize = 70;
pub const STR_WEATHER: usize = 71;
pub const STR_RECONSTRUCTION: usize = 72;
pub const STR_HUNGRY: usize = 73;
pub const STR_THIRSTY: usize = 74;
pub const STR_ENERGY: usize = 75;
pub const STR_STRENGTH: usize = 76;
pub const STR_MORALE: usize = 77;
pub const STR_WEIGHT: usize = 78;
pub const STR_FISH_WIN: usize = 89;
pub const STR_NO_WORMS: usize = 90;
pub const STR_ENOUGH_FISH: usize = 91;
pub const STR_NO_POTATOES: usize = 93;
pub const STR_COCONUT_WIN: usize = 94;
pub const STR_COCONUT_TWO_HITS: usize = 95;
pub const STR_NO_STONES: usize = 96;
pub const STR_NO_ARROWS: usize = 97;
pub const STR_GAME_OVER: usize = 99;
pub const STR_DANGEROUS_ANIMAL_DEATH: usize = 100;
pub const STR_EXHAUSTION_DEATH: usize = 101;
pub const STR_VICTORY_TITLE: usize = 102;
pub const STR_VICTORY_BODY: usize = 103;
pub const STR_TIDE: usize = 106;
pub const STR_NEXT_TIDE: usize = 107;
pub const STR_DAY: usize = 109;
pub const STR_TIME: usize = 110;
pub const STR_HIGH: usize = 111;
pub const STR_LOW: usize = 112;
pub const STR_POISON_DEATH: usize = 115;

/// Hits a coconut must take before it falls.
pub const COCONUT_HITS_REQUIRED: u8 = 2;

/// Fish caught before the success message appears.
pub const FISH_FOR_SUCCESS_MESSAGE: u32 = 10;

/// First and last map marker that carries a tutorial thought.
pub const FIRST_THOUGHT_MARKER: u8 = 50;
pub const LAST_THOUGHT_MARKER: u8 = 62;

/// A tutorial thought shown when the player reaches a marker tile: the
/// marker byte, the progress flag that records it was shown, and its text.
#[derive(Debug, Clone, Copy, PartialEq, Eq)]
pub struct LocationThought {
    pub marker: u8,
    pub flag: &'static str,
    pub text: &'static str,
}

/// The progress flag of the thought at each marker.
pub open spec fn thought_flag(marker: u8) -> Seq<char> {
    match marker {
        50 => seq!['m', 'a', 'r', 'k', 'e', 'r', '_', '5', '0', '_', 'i', 'n', 't', 'r', 'o'],
        51 => seq!['m', 'a', 'r', 'k', 'e', 'r', '_', '5', '1', '_', 'w', 'r', 'e', 'c', 'k', 'a', 'g', 'e'],
        52 => seq!['m', 'a', 'r', 'k', 'e', 'r', '_', '5', '2', '_', 'p', 'i', 'c', 'k', 'u', 'p'],
        53 => seq!['m', 'a', 'r', 'k', 'e', 'r', '_', '5', '3', '_', 'c', 'r', 'e', 'a', 't', 'e'],
        54 => seq!['m', 'a', 'r', 'k', 'e', 'r', '_', '5', '4', '_', 's', 'l', 'e', 'e', 'p'],
        55 => seq!['m', 'a', 'r', 'k', 'e', 'r', '_', '5', '5', '_', 'c', 'o', 'c', 'o', 'n', 'u', 't'],
        56 => seq!['m', 'a', 'r', 'k', 'e', 'r', '_', '5', '6', '_', 'n', 'e', 't'],
        57 => seq!['m', 'a', 'r', 'k', 'e', 'r', '_', '5', '7', '_', 'r', 'o', 'd'],
        58 => seq!['m', 'a', 'r', 'k', 'e', 'r', '_', '5', '8', '_', 'b', 'o', 'w'],
        59 => seq!['m', 'a', 'r', 'k', 'e', 'r', '_', '5', '9', '_', 'f', 'l', 'a', 'g'],
        60 => seq!['m', 'a', 'r', 'k', 'e', 'r', '_', '6', '0', '_', 'c', 'a', 'm', 'p', '_', 'c', 'r', 'e', 'a', 't', 'e'],
        61 => seq!['m', 'a', 'r', 'k', 'e', 'r', '_', '6', '1', '_', 'c', 'l', 'o', 't', 'h', 'e', 's'],
        62 => seq!['m', 'a', 'r', 'k', 'e', 'r', '_', '6', '2', '_', 't', 'i', 'd', 'e'],
        _ => Seq::empty(),
    }
}

/// The text of the thought at each marker.
pub open spec fn thought_text(marker: u8) -> Seq<char> {
    match marker {
        50 => "Where am I? Where's my boat, the Amber Queen? Giving up is not an option. I must survive!"@,
        51 => "Walking along the wreckage-strewn beach brings back that horrific storm. The Amber Queen was driven onto the rocks..."@,
        52 => "Hey, what's that object on the floor? Stand in front of it and press Space to pick it up."@,
        53 => "If I find enough objects, I might be able to make invaluable tools. Press F to open creations."@,
        54 => "If I'm feeling tired, I'll have to sleep or I'll die from exhaustion. Press Z to sleep or wake up."@,
        55 => "There are coconuts at the top of some palm trees. With a Stone, face the tree and press E to throw."@,
        56 => "There's no shortage of fish here. With a Net and Potato bait, use the fishing action near shallow water."@,
        57 => "To fish further out, I'll need a Fishing rod and Worms. Use the fishing action near deep water."@,
        58 => "Hmm, there are lots of animals around here. With a Bow and Arrow, face an animal and press E to hunt."@,
        59 => "Poor Amber Queen... this flag is all that remains. I can place a Hut or Tent on camp spots beside it."@,
        60 => "My camp can be improved if I gather enough materials. Press F to create or build useful things."@,
        61 => "I lost all my clothes in the shipwreck. I'll have to make or find something better to wear."@,
        62 => "The tides strongly affect this island. I should watch the day, time, and tide display to reach new places."@,
        _ => Seq::empty(),
    }
}

/// The thought tied to a marker byte, if the marker carries one.
pub fn location_thought_for_marker(marker: u8) -> (r: Option<LocationThought>)
    ensures
        r is Some <==> FIRST_THOUGHT_MARKER <= marker <= LAST_THOUGHT_MARKER,
        r matches Some(t) ==> t.marker == marker && t.flag@ == thought_flag(marker) && t.text@
            == thought_text(marker),
{
    match marker {
        50 => {
            proof {
                reveal_strlit("marker_50_intro");
            }
            Some(LocationThought { marker: 50, flag: "marker_50_intro", text: "Where am I? Where's my boat, the Amber Queen? Giving up is not an option. I must survive!" })
        },
        51 => {
            proof {
                reveal_strlit("marker_51_wreckage");
            }
            Some(LocationThought { marker: 51, flag: "marker_51_wreckage", text: "Walking along the wreckage-strewn beach brings back that horrific storm. The Amber Queen was driven onto the rocks..." })
        },
        52 => {
            proof {
                reveal_strlit("marker_52_pickup");
            }
            Some(LocationThought { marker: 52, flag: "marker_52_pickup", text: "Hey, what's that object on the floor? Stand in front of it and press Space to pick it up." })
        },
        53 => {
            proof {
                reveal_strlit("marker_53_create");
            }
            Some(LocationThought { marker: 53, flag: "marker_53_create", text: "If I find enough objects, I might be able to make invaluable tools. Press F to open creations." })
        },
        54 => {
            proof {
                reveal_strlit("marker_54_sleep");
            }
            Some(LocationThought { marker: 54, flag: "marker_54_sleep", text: "If I'm feeling tired, I'll have to sleep or I'll die from exhaustion. Press Z to sleep or wake up." })
        },
        55 => {
            proof {
                reveal_strlit("marker_55_coconut");
            }
            Some(LocationThought { marker: 55, flag: "marker_55_coconut", text: "There are coconuts at the top of some palm trees. With a Stone, face the tree and press E to throw." })
        },
        56 => {
            proof {
                reveal_strlit("marker_56_net");
            }
            Some(LocationThought { marker: 56, flag: "marker_56_net", text: "There's no shortage of fish here. With a Net and Potato bait, use the fishing action near shallow water." })
        },
        57 => {
            proof {
                reveal_strlit("marker_57_rod");
            }
            Some(LocationThought { marker: 57, flag: "marker_57_rod", text: "To fish further out, I'll need a Fishing rod and Worms. Use the fishing action near deep water." })
        },
        58 => {
            proof {
                reveal_strlit("marker_58_bow");
            }
            Some(LocationThought { marker: 58, flag: "marker_58_bow", text: "Hmm, there are lots of animals around here. With a Bow and Arrow, face an animal and press E to hunt." })
        },
        59 => {
            proof {
                reveal_strlit("marker_59_flag");
            }
            Some(LocationThought { marker: 59, flag: "marker_59_flag", text: "Poor Amber Queen... this flag is all that remains. I can place a Hut or Tent on camp spots beside it." })
        },
        60 => {
            proof {
                reveal_strlit("marker_60_camp_create");
            }
            Some(LocationThought { marker: 60, flag: "marker_60_camp_create", text: "My camp can be improved if I gather enough materials. Press F to create or build useful things." })
        },
        61 => {
            proof {
                reveal_strlit("marker_61_clothes");
            }
            Some(LocationThought { marker: 61, flag: "marker_61_clothes", text: "I lost all my clothes in the shipwreck. I'll have to make or find something better to wear." })
        },
        62 => {
            proof {
                reveal_strlit("marker_62_tide");
            }
            Some(LocationThought { marker: 62, flag: "marker_62_tide", text: "The tides strongly affect this island. I should watch the day, time, and tide display to reach new places." })
        },
        _ => None,
    }
}

/// All tutorial thoughts, in marker order.
pub fn location_thoughts() -> (r: Vec<LocationThought>)
    ensures
        r.len() == LAST_THOUGHT_MARKER - FIRST_THOUGHT_MARKER + 1,
        forall|i: int|
            0 <= i < r.len() ==> (#[trigger] r[i]).marker == FIRST_THOUGHT_MARKER + i
                && r[i].flag@ == thought_flag(r[i].marker) && r[i].text@ == thought_text(
                r[i].marker,
            ),
{
    let mut r: Vec<LocationThought> = Vec::new();
    let mut m: u8 = FIRST_THOUGHT_MARKER;
    while m <= LAST_THOUGHT_MARKER
        invariant
            FIRST_THOUGHT_MARKER <= m <= LAST_THOUGHT_MARKER + 1,
            r.len() == m - FIRST_THOUGHT_MARKER,
            forall|i: int|
                0 <= i < r.len() ==> (#[trigger] r[i]).marker == FIRST_THOUGHT_MARKER + i
                    && r[i].flag@ == thought_flag(r[i].marker) && r[i].text@ == thought_text(
                    r[i].marker,
                ),
        decreases LAST_THOUGHT_MARKER + 1 - m,
    {
        match location_thought_for_marker(m) {
            Some(t) => r.push(t),
            None => {},
        }
        m = m + 1;
    }
    r
}

/// Different thought markers record different progress flags.
pub proof fn lemma_thought_flags_unique(a: u8, b: u8)
    requires
        FIRST_THOUGHT_MARKER <= a <= LAST_THOUGHT_MARKER,
        FIRST_THOUGHT_MARKER <= b <= LAST_THOUGHT_MARKER,
        a != b,
    ensures
        thought_flag(a) != thought_flag(b),
{
    assert(thought_flag(a)[7] != thought_flag(b)[7] || thought_flag(a)[8] != thought_flag(b)[8]);
}

/// The interface strings of the title menu, the action menu and the results.
pub open spec fn ui_strings() -> Seq<Seq<char>> {
    seq![
        "LOAD"@,
        "NEW"@,
        "OPTIONS"@,
        "HELP"@,
        "CREDITS"@,
        "EXAMINE"@,
        "REST / SLEEP"@,
        "CREATIONS"@,
        "CONSTRUCTIONS"@,
        "HOUSE STORAGE"@,
        "WEATHER"@,
        "You must hit the coconut twice to make it fall!"@,
        "You've won a coconut!"@,
        "You haven't got any stones to throw at the coconuts."@,
        "You haven't got any arrows to go hunting with the bow."@,
        "You've been killed by a dangerous wild animal!"@,
        "You've collapsed from exhaustion beneath the blazing tropical sun!"@,
        "You've won!"@,
        "After surviving for so many days, you finally manage to repair the boat and escape from the island."@
    ]
}

/// The interface strings of the title menu, the action menu and the results.
pub fn strings() -> (r: Vec<&'static str>)
    ensures
        r@.map_values(|s: &'static str| s@) == ui_strings(),
{
    let r: Vec<&'static str> = vec![
        "LOAD",
        "NEW",
        "OPTIONS",
        "HELP",
        "CREDITS",
        "EXAMINE",
        "REST / SLEEP",
        "CREATIONS",
        "CONSTRUCTIONS",
        "HOUSE STORAGE",
        "WEATHER",
        "You must hit the coconut twice to make it fall!",
        "You've won a coconut!",
        "You haven't got any stones to throw at the coconuts.",
        "You haven't got any arrows to go hunting with the bow.",
        "You've been killed by a dangerous wild animal!",
        "You've collapsed from exhaustion beneath the blazing tropical sun!",
        "You've won!",
        "After surviving for so many days, you finally manage to repair the boat and escape from the island."
    ];
    assert(r@.map_values(|s: &'static str| s@) =~= ui_strings());
    r
}

} // verus!