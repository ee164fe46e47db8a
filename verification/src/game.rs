//! The decisions of the game loop, apart from the window and the clock:
//! which screen follows which, how a selection moves through the menus,
//! what eating, fishing, throwing, hunting, building and repairing do to
//! the inventory, the map and the progress, and the texts the menus show.

use vstd::prelude::*;
use crate::actions::{ContextualAction, coconut_can_land, coconut_drop_offset, find_coconut_drop_tile};
use crate::behavior::COCONUT_HITS_REQUIRED;
use crate::inventory::{Inventory, Item, carried_more};
use crate::npc::{dangerous_animal_key, is_dangerous_animal};
use crate::objects::{definition_of, first_item_key, key_for_item, object_item_entry, OBJECT_ITEM_KEY_COUNT};
use crate::player::{ClothingSlot, Outfit, slot_of};
use crate::recipes::{Recipe, required_amount};
use crate::save::{ProgressState, TerminalState};
use crate::world::{World, tile_index};

verus! {

/// The screen the game shows.
#[derive(Debug, Clone, Copy, PartialEq, Eq, Structural)]
pub enum Screen {
    TitleMenu,
    Options,
    Help,
    Credits,
    Playing,
    Paused,
    InventoryMenu,
    ActionMenu,
    Minigame,
    GameOver,
    Victory,
    Placing(Item),
}

/// Where the escape key leads from each screen: back to the title from its
/// sub-screens and from the end screens, in and out of the pause, and back
/// to play from every overlay.
pub open spec fn escape_of(s: Screen) -> Screen {
    match s {
        Screen::TitleMenu => Screen::TitleMenu,
        Screen::Options | Screen::Help | Screen::Credits => Screen::TitleMenu,
        Screen::Playing => Screen::Paused,
        Screen::Paused => Screen::Playing,
        Screen::InventoryMenu | Screen::ActionMenu | Screen::Minigame => Screen::Playing,
        Screen::GameOver | Screen::Victory => Screen::TitleMenu,
        Screen::Placing(_) => Screen::Playing,
    }
}

/// The screen the escape key leads to.
pub fn escape_transition(s: Screen) -> (r: Screen)
    ensures
        r == escape_of(s),
{
    match s {
        Screen::TitleMenu => Screen::TitleMenu,
        Screen::Options | Screen::Help | Screen::Credits => Screen::TitleMenu,
        Screen::Playing => Screen::Paused,
        Screen::Paused => Screen::Playing,
        Screen::InventoryMenu | Screen::ActionMenu | Screen::Minigame => Screen::Playing,
        Screen::GameOver | Screen::Victory => Screen::TitleMenu,
        Screen::Placing(_) => Screen::Playing,
    }
}

/// Pressing escape twice from play, or from the pause, comes back to where
/// it started.
pub proof fn lemma_escape_twice_toggles_pause(s: Screen)
    requires
        s == Screen::Playing || s == Screen::Paused,
    ensures
        escape_of(escape_of(s)) == s,
{
}

/// The last entry of the title menu.
pub const TITLE_LAST_ENTRY: usize = 4;

/// The title menu entry selected after the up and down keys of one frame:
/// up moves one entry up unless at the top, then down one entry down unless
/// at the bottom.
pub fn title_menu_move(selected: usize, up: bool, down: bool) -> (r: usize)
    ensures
        r == ({
            let s1 = if up && selected > 0 {
                selected - 1
            } else {
                selected as int
            };
            if down && s1 < TITLE_LAST_ENTRY {
                s1 + 1
            } else {
                s1
            }
        }),
{
    let mut s = selected;
    if up && s > 0 {
        s = s - 1;
    }
    if down && s < TITLE_LAST_ENTRY {
        s = s + 1;
    }
    s
}

/// The entries of the title menu.
#[derive(Debug, Clone, Copy, PartialEq, Eq, Structural)]
pub enum TitleChoice {
    LoadGame,
    NewGame,
    Options,
    Help,
    Credits,
}

/// The title entry at a position of the menu.
pub open spec fn title_choice_at(selected: usize) -> Option<TitleChoice> {
    if selected == 0 {
        Some(TitleChoice::LoadGame)
    } else if selected == 1 {
        Some(TitleChoice::NewGame)
    } else if selected == 2 {
        Some(TitleChoice::Options)
    } else if selected == 3 {
        Some(TitleChoice::Help)
    } else if selected == 4 {
        Some(TitleChoice::Credits)
    } else {
        None
    }
}

/// What the selected title entry starts.
pub fn title_choice(selected: usize) -> (r: Option<TitleChoice>)
    ensures
        r == title_choice_at(selected),
{
    match selected {
        0 => Some(TitleChoice::LoadGame),
        1 => Some(TitleChoice::NewGame),
        2 => Some(TitleChoice::Options),
        3 => Some(TitleChoice::Help),
        4 => Some(TitleChoice::Credits),
        _ => None,
    }
}

/// The screen a loaded game opens on: play, or the end it had reached.
pub fn screen_after_load(terminal: &TerminalState) -> (r: Screen)
    ensures
        r == match terminal {
            TerminalState::Running => Screen::Playing,
            TerminalState::GameOver { .. } => Screen::GameOver,
            TerminalState::Victory => Screen::Victory,
        },
{
    match terminal {
        TerminalState::Running => Screen::Playing,
        TerminalState::GameOver { .. } => Screen::GameOver,
        TerminalState::Victory => Screen::Victory,
    }
}

/// Columns of the item grids of the menu.
pub const MENU_COLUMNS: usize = 4;

/// The tabs of the menu that cycle with Q and E: inventory, creations,
/// constructions, clothes, map and weather. The storage tab (6) only opens
/// at a chest.
pub const CYCLING_TABS: usize = 6;

/// The tab after a tab, cycling through the first six.
pub fn next_menu_tab(tab: usize) -> (r: usize)
    requires
        tab <= CYCLING_TABS,
    ensures
        r == (tab + 1) % (CYCLING_TABS as int),
{
    (tab + 1) % CYCLING_TABS
}

/// The tab before a tab, cycling through the first six.
pub fn previous_menu_tab(tab: usize) -> (r: usize)
    requires
        tab <= CYCLING_TABS,
    ensures
        r == (tab + 5) % (CYCLING_TABS as int),
{
    (tab + 5) % CYCLING_TABS
}

/// Going to the next tab and back again returns to a cycling tab.
pub proof fn lemma_tab_cycle_round_trip(tab: usize)
    requires
        tab < CYCLING_TABS,
    ensures
        ((((tab + 1) % (CYCLING_TABS as int)) + 5) % (CYCLING_TABS as int)) == tab,
        ((((tab + 5) % (CYCLING_TABS as int)) + 1) % (CYCLING_TABS as int)) == tab,
{
}

/// The labels of the menu tabs: the six cycling tabs, with the storage tab
/// added while it is open.
pub open spec fn tab_labels_of(tab: usize) -> Seq<Seq<char>> {
    let base = seq!["INV"@, "CREATE"@, "BUILD"@, "GEAR"@, "MAP"@, "WEATHER"@];
    if tab == 6 {
        base.push("STORAGE"@)
    } else {
        base
    }
}

/// The labels of the menu tabs shown while `tab` is open.
pub fn menu_tab_labels(tab: usize) -> (r: Vec<&'static str>)
    ensures
        r@.map_values(|s: &'static str| s@) == tab_labels_of(tab),
{
    let mut r: Vec<&'static str> = vec!["INV", "CREATE", "BUILD", "GEAR", "MAP", "WEATHER"];
    if tab == 6 {
        r.push("STORAGE");
    }
    assert(r@.map_values(|s: &'static str| s@) =~= tab_labels_of(tab));
    r
}

/// A selection kept inside a list of `len` entries: the last entry at most,
/// and 0 for an empty list.
pub open spec fn clamped(selected: usize, len: usize) -> usize {
    if len == 0 {
        0
    } else if selected < len {
        selected
    } else {
        (len - 1) as usize
    }
}

/// Keep a selection inside a list of `len` entries.
pub fn clamp_selection(selected: usize, len: usize) -> (r: usize)
    ensures
        r == clamped(selected, len),
        len > 0 ==> r < len,
{
    if len == 0 {
        0
    } else if selected < len {
        selected
    } else {
        len - 1
    }
}

/// The arrow keys pressed in one frame.
#[derive(Debug, Clone, Copy, PartialEq, Eq, Structural)]
pub struct ArrowKeys {
    pub left: bool,
    pub right: bool,
    pub up: bool,
    pub down: bool,
}

/// The grid slot selected after one frame of arrow keys, in a grid of `len`
/// slots laid out `cols` to a row. The row and column are those of the slot
/// at the start of the frame; left and right stay within the row, up and
/// down move a whole row, and down stops at the last slot.
pub open spec fn grid_step_of(selected: usize, len: usize, cols: usize, keys: ArrowKeys) -> int {
    let row = selected / cols;
    let col = selected % cols;
    let total_rows = (len + cols - 1) / (cols as int);
    let s1: int = if keys.left && col > 0 {
        selected - 1
    } else {
        selected as int
    };
    let s2: int = if keys.right && col + 1 < cols && s1 + 1 < len {
        s1 + 1
    } else {
        s1
    };
    let s3: int = if keys.up && row > 0 {
        s2 - cols
    } else {
        s2
    };
    if keys.down && row + 1 < total_rows {
        if s3 + cols < len - 1 {
            s3 + cols
        } else {
            len - 1
        }
    } else {
        s3
    }
}

/// Move a grid selection by one frame of arrow keys.
pub fn grid_step(selected: usize, len: usize, cols: usize, keys: ArrowKeys) -> (r: usize)
    requires
        0 < cols,
        selected < len,
        len + cols <= usize::MAX,
    ensures
        r == grid_step_of(selected, len, cols, keys),
        r < len,
{
    let row = selected / cols;
    let col = selected % cols;
    let total_rows = (len + cols - 1) / cols;
    assert(row * cols + col == selected) by (nonlinear_arith)
        requires
            row == selected / cols,
            col == selected % cols,
            cols > 0,
    ;
    let mut s = selected;
    if keys.left && col > 0 {
        s = s - 1;
    }
    if keys.right && col + 1 < cols && s + 1 < len {
        s = s + 1;
    }
    if keys.up && row > 0 {
        assert(s + 1 >= selected);
        assert(row >= 1 ==> row * cols >= cols) by (nonlinear_arith)
            requires
                cols > 0,
        ;
        s = s - cols;
    }
    if keys.down && row + 1 < total_rows {
        if s + cols < len - 1 {
            s = s + cols;
        } else {
            s = len - 1;
        }
    }
    s
}

/// The list entry selected after the up and down keys of one frame: up
/// moves one entry up unless at the top, then down one entry down unless at
/// the end.
pub fn list_step(selected: usize, len: usize, up: bool, down: bool) -> (r: usize)
    requires
        selected < len,
    ensures
        r == ({
            let s1: int = if up && selected > 0 {
                selected - 1
            } else {
                selected as int
            };
            if down && s1 + 1 < len {
                s1 + 1
            } else {
                s1
            }
        }),
        r < len,
{
    let mut s = selected;
    if up && s > 0 {
        s = s - 1;
    }
    if down && s + 1 < len {
        s = s + 1;
    }
    s
}

/// The first row of the recipe grid shown: the grid shows five rows and
/// scrolls so that the selected row is the fourth once it is past the
/// third, without scrolling past the last full screen.
pub open spec fn recipe_start_row_of(selected: usize, count: usize, cols: usize) -> int {
    let active_row = selected / cols;
    let total_rows = (count + cols - 1) / (cols as int);
    let start: int = if active_row >= 4 {
        active_row - 3
    } else {
        0
    };
    let limit: int = if total_rows >= 5 {
        total_rows - 5
    } else {
        0
    };
    if start < limit {
        start
    } else {
        limit
    }
}

/// The first row of the recipe grid to show.
pub fn recipe_grid_start_row(selected: usize, count: usize, cols: usize) -> (r: usize)
    requires
        0 < cols,
        count + cols <= usize::MAX,
    ensures
        r == recipe_start_row_of(selected, count, cols),
{
    let active_row = selected / cols;
    let total_rows = (count + cols - 1) / cols;
    let start = if active_row >= 4 {
        active_row - 3
    } else {
        0
    };
    let limit = if total_rows >= 5 {
        total_rows - 5
    } else {
        0
    };
    if start < limit {
        start
    } else {
        limit
    }
}

/// The first row of a storage column to show: the column shows twelve rows
/// and scrolls, while it is the active column, so that the selected entry
/// is the last row shown, without scrolling past the last full screen.
pub open spec fn list_start_row_of(selected: usize, len: usize, active: bool) -> int {
    let start: int = if active && selected >= 12 {
        selected - 11
    } else {
        0
    };
    let limit: int = if len >= 12 {
        len - 12
    } else {
        0
    };
    if start < limit {
        start
    } else {
        limit
    }
}

/// The first row of a storage column to show.
pub fn list_start_row(selected: usize, len: usize, active: bool) -> (r: usize)
    ensures
        r == list_start_row_of(selected, len, active),
{
    let start = if active && selected >= 12 {
        selected - 11
    } else {
        0
    };
    let limit = if len >= 12 {
        len - 12
    } else {
        0
    };
    if start < limit {
        start
    } else {
        limit
    }
}

/// What eating a food does: the hunger and thirst it restores, whether it
/// is poisonous, and the message shown.
#[derive(Debug, Clone, Copy, PartialEq, Eq)]
pub struct FoodEffect {
    pub hunger: u32,
    pub thirst: u32,
    pub poisonous: bool,
    pub label: &'static str,
}

/// The effect of each food, as hunger, thirst, poison and message.
pub open spec fn food_of(item: Item) -> Option<(u32, u32, bool, Seq<char>)> {
    match item {
        Item::Berry => Some((25u32, 0u32, false, "Ate Berry (+25 Hunger)"@)),
        Item::Coconut => Some((20u32, 25u32, false, "Ate Coconut (+20 Hunger, +25 Thirst)"@)),
        Item::Mango => Some((20u32, 10u32, false, "Ate Mango (+20 Hunger, +10 Thirst)"@)),
        Item::WhiteMushroom | Item::CreamMushroom | Item::OrangeMushroom => Some(
            (15u32, 0u32, false, "Ate Mushroom (+15 Hunger)"@),
        ),
        Item::RedMushroom => Some((0u32, 0u32, true, "That food was poisonous - you're dead!"@)),
        Item::Banana => Some((25u32, 0u32, false, "Ate Banana (+25 Hunger)"@)),
        Item::Papaya => Some((30u32, 15u32, false, "Ate Papaya (+30 Hunger, +15 Thirst)"@)),
        Item::Potato => Some((15u32, 0u32, false, "Ate Potato (+15 Hunger)"@)),
        Item::Pineapple => Some((35u32, 25u32, false, "Ate Pineapple (+35 Hunger, +25 Thirst)"@)),
        _ => None,
    }
}

/// The content of a food effect.
pub open spec fn food_view(e: FoodEffect) -> (u32, u32, bool, Seq<char>) {
    (e.hunger, e.thirst, e.poisonous, e.label@)
}

/// What eating an item does, if it is food.
pub fn food_effect(item: Item) -> (r: Option<FoodEffect>)
    ensures
        match food_of(item) {
            Some(v) => r matches Some(e) && food_view(e) == v,
            None => r is None,
        },
{
    match item {
        Item::Berry => Some(FoodEffect { hunger: 25, thirst: 0, poisonous: false, label: "Ate Berry (+25 Hunger)" }),
        Item::Coconut => Some(FoodEffect { hunger: 20, thirst: 25, poisonous: false, label: "Ate Coconut (+20 Hunger, +25 Thirst)" }),
        Item::Mango => Some(FoodEffect { hunger: 20, thirst: 10, poisonous: false, label: "Ate Mango (+20 Hunger, +10 Thirst)" }),
        Item::WhiteMushroom | Item::CreamMushroom | Item::OrangeMushroom => Some(
            FoodEffect { hunger: 15, thirst: 0, poisonous: false, label: "Ate Mushroom (+15 Hunger)" },
        ),
        Item::RedMushroom => Some(FoodEffect { hunger: 0, thirst: 0, poisonous: true, label: "That food was poisonous - you're dead!" }),
        Item::Banana => Some(FoodEffect { hunger: 25, thirst: 0, poisonous: false, label: "Ate Banana (+25 Hunger)" }),
        Item::Papaya => Some(FoodEffect { hunger: 30, thirst: 15, poisonous: false, label: "Ate Papaya (+30 Hunger, +15 Thirst)" }),
        Item::Potato => Some(FoodEffect { hunger: 15, thirst: 0, poisonous: false, label: "Ate Potato (+15 Hunger)" }),
        Item::Pineapple => Some(FoodEffect { hunger: 35, thirst: 25, poisonous: false, label: "Ate Pineapple (+35 Hunger, +25 Thirst)" }),
        _ => None,
    }
}

/// The food eaten with each number key, 1 to 8.
pub open spec fn quick_food_of(slot: u32) -> Option<Item> {
    if slot == 1 {
        Some(Item::Berry)
    } else if slot == 2 {
        Some(Item::Coconut)
    } else if slot == 3 {
        Some(Item::Mango)
    } else if slot == 4 {
        Some(Item::WhiteMushroom)
    } else if slot == 5 {
        Some(Item::Banana)
    } else if slot == 6 {
        Some(Item::Papaya)
    } else if slot == 7 {
        Some(Item::Potato)
    } else if slot == 8 {
        Some(Item::Pineapple)
    } else {
        None
    }
}

/// The food a number key eats.
pub fn quick_food_item(slot: u32) -> (r: Option<Item>)
    ensures
        r == quick_food_of(slot),
{
    match slot {
        1 => Some(Item::Berry),
        2 => Some(Item::Coconut),
        3 => Some(Item::Mango),
        4 => Some(Item::WhiteMushroom),
        5 => Some(Item::Banana),
        6 => Some(Item::Papaya),
        7 => Some(Item::Potato),
        8 => Some(Item::Pineapple),
        _ => None,
    }
}

/// Eat one of a carried food: one fewer is carried and its effect is
/// returned. Nothing happens for an item that is not food or not carried.
pub fn eat(inv: &mut Inventory, item: Item) -> (r: Option<FoodEffect>)
    requires
        old(inv).wf(),
    ensures
        final(inv).wf(),
        match food_of(item) {
            Some(v) => if old(inv).amount(item) > 0 {
                &&& r matches Some(e) && food_view(e) == v
                &&& carried_more(*final(inv), *old(inv), item, 1)
            } else {
                r is None && *final(inv) == *old(inv)
            },
            None => r is None && *final(inv) == *old(inv),
        },
{
    let effect = match food_effect(item) {
        Some(e) => e,
        None => return None,
    };
    if inv.count(item) == 0 {
        return None;
    }
    inv.remove(item, 1);
    Some(effect)
}

/// The detail line and the action prompt the inventory shows for an item.
pub open spec fn item_detail_of(item: Item) -> (Seq<char>, Seq<char>) {
    match item {
        Item::Berry => ("Restores Hunger: +25"@, "Press [SPACE] to Eat"@),
        Item::Coconut => ("Restores Hunger: +20, Thirst: +25"@, "Press [SPACE] to Drink"@),
        Item::Mango => ("Restores Hunger: +20, Thirst: +10"@, "Press [SPACE] to Eat"@),
        Item::WhiteMushroom | Item::CreamMushroom | Item::OrangeMushroom => (
            "Restores Hunger: +15"@,
            "Press [SPACE] to Eat"@,
        ),
        Item::RedMushroom => ("Looks highly toxic..."@, "Press [SPACE] to Eat"@),
        Item::Banana => ("Restores Hunger: +25"@, "Press [SPACE] to Eat"@),
        Item::Papaya => ("Restores Hunger: +30, Thirst: +15"@, "Press [SPACE] to Eat"@),
        Item::Potato => ("Restores Hunger: +15"@, "Press [SPACE] to Eat"@),
        Item::Pineapple => ("Restores Hunger: +35, Thirst: +25"@, "Press [SPACE] to Eat"@),
        _ => ("Material / Crafting Ingredient"@, ""@),
    }
}

/// The detail line and action prompt of an item in the inventory.
pub fn item_detail_text(item: Item) -> (r: (&'static str, &'static str))
    ensures
        (r.0@, r.1@) == item_detail_of(item),
{
    match item {
        Item::Berry => ("Restores Hunger: +25", "Press [SPACE] to Eat"),
        Item::Coconut => ("Restores Hunger: +20, Thirst: +25", "Press [SPACE] to Drink"),
        Item::Mango => ("Restores Hunger: +20, Thirst: +10", "Press [SPACE] to Eat"),
        Item::WhiteMushroom | Item::CreamMushroom | Item::OrangeMushroom => (
            "Restores Hunger: +15",
            "Press [SPACE] to Eat",
        ),
        Item::RedMushroom => ("Looks highly toxic...", "Press [SPACE] to Eat"),
        Item::Banana => ("Restores Hunger: +25", "Press [SPACE] to Eat"),
        Item::Papaya => ("Restores Hunger: +30, Thirst: +15", "Press [SPACE] to Eat"),
        Item::Potato => ("Restores Hunger: +15", "Press [SPACE] to Eat"),
        Item::Pineapple => ("Restores Hunger: +35, Thirst: +25", "Press [SPACE] to Eat"),
        _ => ("Material / Crafting Ingredient", ""),
    }
}

/// The clothes of the gear tab, in display order.
pub open spec fn clothing_list() -> Seq<Item> {
    seq![
        Item::TShirt,
        Item::PirateJacket,
        Item::WoolJacket,
        Item::HideJacket,
        Item::CottonPants,
        Item::Loincloth,
        Item::FurPants,
        Item::WoolPants,
        Item::HideShoe,
        Item::CottonShoe,
        Item::StrawShoe,
        Item::FurShoe,
        Item::HideHat,
        Item::Hat,
        Item::StrawHat,
        Item::FurHat
    ]
}

/// The clothes of the gear tab.
pub fn clothing_items() -> (r: Vec<Item>)
    ensures
        r@ == clothing_list(),
{
    let r = vec![
        Item::TShirt,
        Item::PirateJacket,
        Item::WoolJacket,
        Item::HideJacket,
        Item::CottonPants,
        Item::Loincloth,
        Item::FurPants,
        Item::WoolPants,
        Item::HideShoe,
        Item::CottonShoe,
        Item::StrawShoe,
        Item::FurShoe,
        Item::HideHat,
        Item::Hat,
        Item::StrawHat,
        Item::FurHat,
    ];
    assert(r@ =~= clothing_list());
    r
}

/// Every item of the gear tab is worn in some slot.
pub proof fn lemma_gear_tab_lists_clothing(i: int)
    requires
        0 <= i < clothing_list().len(),
    ensures
        slot_of(clothing_list()[i]) is Some,
{
}

/// The item is worn in one of the slots.
pub open spec fn worn(o: Outfit, item: Item) -> bool {
    o.jacket == Some(item) || o.pants == Some(item) || o.shoes == Some(item) || o.hat == Some(item)
}

/// Whether the outfit includes an item.
pub fn is_worn(outfit: &Outfit, item: Item) -> (r: bool)
    ensures
        r == worn(*outfit, item),
{
    outfit.jacket == Some(item) || outfit.pants == Some(item) || outfit.shoes == Some(item)
        || outfit.hat == Some(item)
}

/// Put on or take off a carried item of clothing; clothes that are not
/// carried cannot be worn, so nothing changes for them.
pub fn toggle_if_owned(outfit: &mut Outfit, inv: &Inventory, item: Item)
    requires
        inv.wf(),
    ensures
        inv.amount(item) == 0 ==> *final(outfit) == *old(outfit),
        inv.amount(item) > 0 ==> match slot_of(item) {
            Some(slot) => {
                &&& crate::player::worn_in(*final(outfit), slot) == if crate::player::worn_in(
                    *old(outfit),
                    slot,
                ) == Some(item) {
                    None
                } else {
                    Some(item)
                }
                &&& forall|other: ClothingSlot|
                    other != slot ==> crate::player::worn_in(*final(outfit), other)
                        == crate::player::worn_in(*old(outfit), other)
            },
            None => *final(outfit) == *old(outfit),
        },
{
    if inv.count(item) > 0 {
        outfit.toggle(item);
    }
}

/// The status line and prompt of an item of clothing.
pub open spec fn clothing_status_of(owned: bool, equipped: bool) -> (Seq<char>, Seq<char>) {
    if equipped {
        ("Status: Owned & Equipped"@, "Press [SPACE] to Unequip"@)
    } else if owned {
        ("Status: Owned"@, "Press [SPACE] to Equip"@)
    } else {
        ("Status: Not Owned"@, "Craft in Creations tab first."@)
    }
}

/// The status line and prompt of an item of clothing in the gear tab.
pub fn clothing_status_text(owned: bool, equipped: bool) -> (r: (&'static str, &'static str))
    ensures
        (r.0@, r.1@) == clothing_status_of(owned, equipped),
{
    if equipped {
        ("Status: Owned & Equipped", "Press [SPACE] to Unequip")
    } else if owned {
        ("Status: Owned", "Press [SPACE] to Equip")
    } else {
        ("Status: Not Owned", "Craft in Creations tab first.")
    }
}

/// The slot line of an item of clothing.
pub open spec fn slot_label_of(item: Item) -> Seq<char> {
    match slot_of(item) {
        Some(ClothingSlot::Jacket) => "Slot: Jacket / Shirt"@,
        Some(ClothingSlot::Pants) => "Slot: Pants / Bottom"@,
        Some(ClothingSlot::Shoes) => "Slot: Shoes"@,
        Some(ClothingSlot::Hat) => "Slot: Hat / Headwear"@,
        None => ""@,
    }
}

/// The slot line of an item in the gear tab.
pub fn clothing_slot_label(item: Item) -> (r: &'static str)
    ensures
        r@ == slot_label_of(item),
{
    match crate::player::clothing_slot(item) {
        Some(ClothingSlot::Jacket) => "Slot: Jacket / Shirt",
        Some(ClothingSlot::Pants) => "Slot: Pants / Bottom",
        Some(ClothingSlot::Shoes) => "Slot: Shoes",
        Some(ClothingSlot::Hat) => "Slot: Hat / Headwear",
        None => "",
    }
}

/// The label of the E key in the bottom bar: what the faced tile offers.
pub fn e_action_label(action: ContextualAction) -> (r: &'static str)
    ensures
        r@ == match action {
            ContextualAction::ThrowStone => "Throw"@,
            ContextualAction::HuntAnimal(_) => "Hunt"@,
            _ => "Look"@,
        },
{
    match action {
        ContextualAction::ThrowStone => "Throw",
        ContextualAction::HuntAnimal(_) => "Hunt",
        _ => "Look",
    }
}

/// What the player is told when they die: poison first, then the tide,
/// else exhaustion.
pub fn death_message(poisoned: bool, drowned: bool) -> (r: &'static str)
    ensures
        r@ == if poisoned {
            "That food was poisonous - you're dead!"@
        } else if drowned {
            "The tide took you - you're dead!"@
        } else {
            "Collapsed from exhaustion!"@
        },
{
    if poisoned {
        "That food was poisonous - you're dead!"
    } else if drowned {
        "The tide took you - you're dead!"
    } else {
        "Collapsed from exhaustion!"
    }
}

/// What the player is told when the tide turns.
pub fn tide_change_message(low: bool) -> (r: &'static str)
    ensures
        r@ == if low {
            "The tide is receding. The crossing is opening."@
        } else {
            "The tide is rising. Reach higher ground."@
        },
{
    if low {
        "The tide is receding. The crossing is opening."
    } else {
        "The tide is rising. Reach higher ground."
    }
}

/// Draws a pseudo-random index below `n` with macroquad's generator, by
/// calling `macroquad::rand::gen_range(0, n)`. Its source scales a draw
/// from [0, 1) onto the range and truncates, so the index is below `n` for
/// the ranges admitted here; which index comes out depends on the state of
/// the generator.
#[verifier::external_body]
fn random_index_below(n: usize) -> (r: usize)
    requires
        0 < n <= 0x1_0000,
    ensures
        r < n,
{
    macroquad::rand::gen_range(0, n)
}

/// How many kinds of shellfish a net can bring in.
pub const NET_CATCH_COUNT: usize = 9;

/// How many kinds of fish a rod can bring in.
pub const ROD_CATCH_COUNT: usize = 5;

/// The shellfish a net brings in, by draw.
pub open spec fn net_catch_of(roll: usize) -> Item {
    if roll == 0 {
        Item::Whelk
    } else if roll == 1 {
        Item::Oyster
    } else if roll == 2 {
        Item::Clam
    } else if roll == 3 {
        Item::Conch
    } else if roll == 4 {
        Item::Mussel
    } else if roll == 5 {
        Item::Scallop
    } else if roll == 6 {
        Item::Starfish
    } else if roll == 7 {
        Item::SeaUrchin
    } else {
        Item::SeaSnail
    }
}

/// The shellfish a net brings in for a draw below `NET_CATCH_COUNT`.
pub fn net_catch(roll: usize) -> (r: Item)
    requires
        roll < NET_CATCH_COUNT,
    ensures
        r == net_catch_of(roll),
{
    match roll {
        0 => Item::Whelk,
        1 => Item::Oyster,
        2 => Item::Clam,
        3 => Item::Conch,
        4 => Item::Mussel,
        5 => Item::Scallop,
        6 => Item::Starfish,
        7 => Item::SeaUrchin,
        _ => Item::SeaSnail,
    }
}

/// The fish a rod brings in, by draw.
pub open spec fn rod_catch_of(roll: usize) -> Item {
    if roll == 0 {
        Item::BrownFish
    } else if roll == 1 {
        Item::BlueFish
    } else if roll == 2 {
        Item::YellowFish
    } else if roll == 3 {
        Item::PufferFish
    } else {
        Item::Goldfish
    }
}

/// The fish a rod brings in for a draw below `ROD_CATCH_COUNT`.
pub fn rod_catch(roll: usize) -> (r: Item)
    requires
        roll < ROD_CATCH_COUNT,
    ensures
        r == rod_catch_of(roll),
{
    match roll {
        0 => Item::BrownFish,
        1 => Item::BlueFish,
        2 => Item::YellowFish,
        3 => Item::PufferFish,
        _ => Item::Goldfish,
    }
}

/// How a fishing attempt ends.
#[derive(Debug, Clone, Copy, PartialEq, Eq, Structural)]
pub enum FishingOutcome {
    /// The tool or its bait is missing; nothing was used.
    NoBait,
    /// The catch, now carried.
    Caught(Item),
    /// The bait was taken and nothing bit.
    Lost,
}

/// One more fish counted, everything else of the progress kept.
pub open spec fn one_more_fish(before: ProgressState, after: ProgressState) -> bool {
    after == (ProgressState { fish_caught: (before.fish_caught + 1) as u32, ..before })
}

/// Fish with a net and a potato for bait: the potato is used up and the
/// shellfish of the draw is caught and counted. Without a net or a potato
/// nothing happens.
pub fn fish_with_net(inv: &mut Inventory, progress: &mut ProgressState, roll: usize) -> (r: FishingOutcome)
    requires
        old(inv).wf(),
        roll < NET_CATCH_COUNT,
        old(inv).amount(Item::Net) > 0 && old(inv).amount(Item::Potato) > 0 ==> old(inv).amount(
            net_catch_of(roll),
        ) < u32::MAX && old(progress).fish_caught < u32::MAX,
    ensures
        final(inv).wf(),
        old(inv).amount(Item::Net) == 0 || old(inv).amount(Item::Potato) == 0 ==> {
            &&& r == FishingOutcome::NoBait
            &&& *final(inv) == *old(inv)
            &&& *final(progress) == *old(progress)
        },
        old(inv).amount(Item::Net) > 0 && old(inv).amount(Item::Potato) > 0 ==> {
            let caught = net_catch_of(roll);
            &&& r == FishingOutcome::Caught(caught)
            &&& final(inv).amount(Item::Potato) == old(inv).amount(Item::Potato) - 1
                + if caught == Item::Potato { 1int } else { 0int }
            &&& final(inv).amount(caught) == old(inv).amount(caught) + 1
                - if caught == Item::Potato { 1int } else { 0int }
            &&& forall|it: Item|
                it != Item::Potato && it != caught ==> final(inv).amount(it) == old(inv).amount(it)
            &&& forall|it: Item| final(inv).stored(it) == old(inv).stored(it)
            &&& one_more_fish(*old(progress), *final(progress))
        },
{
    if inv.count(Item::Net) == 0 || inv.count(Item::Potato) == 0 {
        return FishingOutcome::NoBait;
    }
    inv.remove(Item::Potato, 1);
    let caught = net_catch(roll);
    inv.add(caught, 1);
    progress.fish_caught = progress.fish_caught + 1;
    FishingOutcome::Caught(caught)
}

/// Cast the net: with a net and a potato, draw which shellfish comes in and
/// fish with the net; without them nothing is drawn and nothing happens.
pub fn cast_net(inv: &mut Inventory, progress: &mut ProgressState) -> (r: FishingOutcome)
    requires
        old(inv).wf(),
        old(inv).amount(Item::Net) > 0 && old(inv).amount(Item::Potato) > 0 ==> old(
            progress,
        ).fish_caught < u32::MAX && forall|roll: usize|
            roll < NET_CATCH_COUNT ==> old(inv).amount(#[trigger] net_catch_of(roll)) < u32::MAX,
    ensures
        final(inv).wf(),
        old(inv).amount(Item::Net) == 0 || old(inv).amount(Item::Potato) == 0 ==> {
            &&& r == FishingOutcome::NoBait
            &&& *final(inv) == *old(inv)
            &&& *final(progress) == *old(progress)
        },
        old(inv).amount(Item::Net) > 0 && old(inv).amount(Item::Potato) > 0 ==> exists|roll: usize|
            {
                &&& roll < NET_CATCH_COUNT
                &&& r == FishingOutcome::Caught(#[trigger] net_catch_of(roll))
                &&& final(inv).amount(Item::Potato) == old(inv).amount(Item::Potato) - 1
                    + if net_catch_of(roll) == Item::Potato { 1int } else { 0int }
                &&& final(inv).amount(net_catch_of(roll)) == old(inv).amount(net_catch_of(roll)) + 1
                    - if net_catch_of(roll) == Item::Potato { 1int } else { 0int }
                &&& forall|it: Item|
                    it != Item::Potato && it != net_catch_of(roll) ==> final(inv).amount(it)
                        == old(inv).amount(it)
                &&& forall|it: Item| final(inv).stored(it) == old(inv).stored(it)
                &&& one_more_fish(*old(progress), *final(progress))
            },
{
    if inv.count(Item::Net) == 0 || inv.count(Item::Potato) == 0 {
        return FishingOutcome::NoBait;
    }
    let roll = random_index_below(NET_CATCH_COUNT);
    assert(old(inv).amount(net_catch_of(roll)) < u32::MAX);
    fish_with_net(inv, progress, roll)
}

/// Fish with a rod and worms for bait: a worm is used up; when a fish
/// bites, the fish of the draw is caught and counted, else the bait is
/// lost. Without a rod or worms nothing happens.
pub fn fish_with_rod(inv: &mut Inventory, progress: &mut ProgressState, bite: bool, roll: usize) -> (r: FishingOutcome)
    requires
        old(inv).wf(),
        roll < ROD_CATCH_COUNT,
        old(inv).amount(Item::FishingRod) > 0 && old(inv).amount(Item::Worms) > 0 && bite ==> old(
            inv,
        ).amount(rod_catch_of(roll)) < u32::MAX && old(progress).fish_caught < u32::MAX,
    ensures
        final(inv).wf(),
        old(inv).amount(Item::FishingRod) == 0 || old(inv).amount(Item::Worms) == 0 ==> {
            &&& r == FishingOutcome::NoBait
            &&& *final(inv) == *old(inv)
            &&& *final(progress) == *old(progress)
        },
        old(inv).amount(Item::FishingRod) > 0 && old(inv).amount(Item::Worms) > 0 && !bite ==> {
            &&& r == FishingOutcome::Lost
            &&& carried_more(*final(inv), *old(inv), Item::Worms, 1)
            &&& *final(progress) == *old(progress)
        },
        old(inv).amount(Item::FishingRod) > 0 && old(inv).amount(Item::Worms) > 0 && bite ==> {
            let caught = rod_catch_of(roll);
            &&& r == FishingOutcome::Caught(caught)
            &&& final(inv).amount(Item::Worms) == old(inv).amount(Item::Worms) - 1
            &&& final(inv).amount(caught) == old(inv).amount(caught) + 1
            &&& forall|it: Item|
                it != Item::Worms && it != caught ==> final(inv).amount(it) == old(inv).amount(it)
            &&& forall|it: Item| final(inv).stored(it) == old(inv).stored(it)
            &&& one_more_fish(*old(progress), *final(progress))
        },
{
    if inv.count(Item::FishingRod) == 0 || inv.count(Item::Worms) == 0 {
        return FishingOutcome::NoBait;
    }
    inv.remove(Item::Worms, 1);
    if !bite {
        return FishingOutcome::Lost;
    }
    let caught = rod_catch(roll);
    inv.add(caught, 1);
    progress.fish_caught = progress.fish_caught + 1;
    FishingOutcome::Caught(caught)
}

/// Cast the rod: with a rod and worms, and when a fish bites, draw which
/// fish it is and fish with the rod; a cast without a bite loses the worm.
pub fn cast_rod(inv: &mut Inventory, progress: &mut ProgressState, bite: bool) -> (r: FishingOutcome)
    requires
        old(inv).wf(),
        old(inv).amount(Item::FishingRod) > 0 && old(inv).amount(Item::Worms) > 0 && bite ==> old(
            progress,
        ).fish_caught < u32::MAX && forall|roll: usize|
            roll < ROD_CATCH_COUNT ==> old(inv).amount(#[trigger] rod_catch_of(roll)) < u32::MAX,
    ensures
        final(inv).wf(),
        old(inv).amount(Item::FishingRod) == 0 || old(inv).amount(Item::Worms) == 0 ==> {
            &&& r == FishingOutcome::NoBait
            &&& *final(inv) == *old(inv)
            &&& *final(progress) == *old(progress)
        },
        old(inv).amount(Item::FishingRod) > 0 && old(inv).amount(Item::Worms) > 0 && !bite ==> {
            &&& r == FishingOutcome::Lost
            &&& carried_more(*final(inv), *old(inv), Item::Worms, 1)
            &&& *final(progress) == *old(progress)
        },
        old(inv).amount(Item::FishingRod) > 0 && old(inv).amount(Item::Worms) > 0 && bite ==> exists|roll: usize|
            {
                &&& roll < ROD_CATCH_COUNT
                &&& r == FishingOutcome::Caught(#[trigger] rod_catch_of(roll))
                &&& final(inv).amount(Item::Worms) == old(inv).amount(Item::Worms) - 1
                &&& final(inv).amount(rod_catch_of(roll)) == old(inv).amount(rod_catch_of(roll)) + 1
                &&& forall|it: Item|
                    it != Item::Worms && it != rod_catch_of(roll) ==> final(inv).amount(it)
                        == old(inv).amount(it)
                &&& forall|it: Item| final(inv).stored(it) == old(inv).stored(it)
                &&& one_more_fish(*old(progress), *final(progress))
            },
{
    if inv.count(Item::FishingRod) == 0 || inv.count(Item::Worms) == 0 || !bite {
        return fish_with_rod(inv, progress, bite, 0);
    }
    let roll = random_index_below(ROD_CATCH_COUNT);
    assert(old(inv).amount(rod_catch_of(roll)) < u32::MAX);
    fish_with_rod(inv, progress, true, roll)
}

/// How a stone thrown at a coconut ends.
#[derive(Debug, Clone, Copy, PartialEq, Eq, Structural)]
pub enum CoconutOutcome {
    /// The stone missed.
    Missed,
    /// The coconut was hit but holds on; it has taken this many hits.
    HitOnce(u8),
    /// The coconut fell onto this tile, where it can be picked up.
    Dropped(i32, i32),
    /// The coconut fell with nowhere to land and went straight to the
    /// inventory.
    Won,
}

/// The first landing tile for a coconut knocked from `(x, y)` is `t`.
pub open spec fn first_landing(w: World, x: i32, y: i32, t: (i32, i32)) -> bool {
    exists|k: int|
        0 <= k < 6 && t.0 == x + coconut_drop_offset(k).0 && t.1 == y + coconut_drop_offset(k).1
            && coconut_can_land(w, t.0 as int, t.1 as int) && forall|j: int|
            0 <= j < k ==> !#[trigger] coconut_can_land(
                w,
                x + coconut_drop_offset(j).0,
                y + coconut_drop_offset(j).1,
            )
}

/// No landing tile is free around `(x, y)`.
pub open spec fn no_landing(w: World, x: i32, y: i32) -> bool {
    forall|k: int|
        0 <= k < 6 ==> !#[trigger] coconut_can_land(
            w,
            x + coconut_drop_offset(k).0,
            y + coconut_drop_offset(k).1,
        )
}

/// The map layers other than the objects are the same.
pub open spec fn same_ground(a: World, b: World) -> bool {
    &&& a.full@ == b.full@
    &&& a.borders@ == b.borders@
    &&& a.decor@ == b.decor@
    &&& a.rocks@ == b.rocks@
    &&& a.original_full@ == b.original_full@
    &&& a.original_borders@ == b.original_borders@
    &&& a.tide_low == b.tide_low
    &&& a.tide_rising == b.tide_rising
}

/// Throw a stone at the coconut of the palm at `(x, y)`, which has taken
/// `hits` hits: the stone is used up. A hit that brings the coconut to the
/// required number of hits knocks it down and counts it won: it lands on the
/// first free landing tile, or goes straight to the inventory when none is
/// free. A lesser hit only counts.
pub fn resolve_coconut_throw(
    world: &mut World,
    inv: &mut Inventory,
    progress: &mut ProgressState,
    x: i32,
    y: i32,
    hits: u8,
    hit: bool,
) -> (r: CoconutOutcome)
    requires
        old(world).wf(),
        old(inv).wf(),
        old(inv).amount(Item::Stone) > 0,
        hit ==> hits < u8::MAX,
        hit && hits + 1 >= COCONUT_HITS_REQUIRED ==> old(progress).coconuts_won < u32::MAX,
        hit && hits + 1 >= COCONUT_HITS_REQUIRED && no_landing(*old(world), x, y) ==> old(
            inv,
        ).amount(Item::Coconut) < u32::MAX,
        i32::MIN < x < i32::MAX,
        y < i32::MAX - 1,
    ensures
        final(world).wf(),
        final(inv).wf(),
        same_ground(*final(world), *old(world)),
        !hit ==> r == CoconutOutcome::Missed,
        hit && hits + 1 < COCONUT_HITS_REQUIRED ==> r == CoconutOutcome::HitOnce((hits + 1) as u8),
        r is Missed || r is HitOnce ==> {
            &&& carried_more(*final(inv), *old(inv), Item::Stone, 1)
            &&& final(world).objects@ == old(world).objects@
            &&& final(world).player_built@ == old(world).player_built@
            &&& *final(progress) == *old(progress)
        },
        hit && hits + 1 >= COCONUT_HITS_REQUIRED ==> {
            &&& r is Dropped || r is Won
            &&& *final(progress) == (ProgressState {
                coconuts_won: (old(progress).coconuts_won + 1) as u32,
                ..*old(progress)
            })
        },
        r matches CoconutOutcome::Dropped(tx, ty) ==> {
            &&& first_landing(*old(world), x, y, (tx, ty))
            &&& carried_more(*final(inv), *old(inv), Item::Stone, 1)
            &&& final(world).player_built@ == old(world).player_built@
            &&& tile_index(tx, ty) is Some ==> {
                &&& final(world).object_placement_at(tx, ty) matches Some(p) && p.key@
                    == "dropped_coconut"@ && p.stage == 0 && !p.built
                &&& final(world).objects@ == old(world).objects@.update(
                    tile_index(tx, ty).unwrap() as int,
                    final(world).object_placement_at(tx, ty),
                )
            }
            &&& tile_index(tx, ty) is None ==> final(world).objects@ == old(world).objects@
        },
        r is Won ==> {
            &&& no_landing(*old(world), x, y)
            &&& final(inv).amount(Item::Stone) == old(inv).amount(Item::Stone) - 1
            &&& final(inv).amount(Item::Coconut) == old(inv).amount(Item::Coconut) + 1
            &&& forall|it: Item|
                it != Item::Stone && it != Item::Coconut ==> final(inv).amount(it) == old(inv).amount(
                    it,
                )
            &&& forall|it: Item| final(inv).stored(it) == old(inv).stored(it)
            &&& final(world).objects@ == old(world).objects@
            &&& final(world).player_built@ == old(world).player_built@
        },
{
    inv.remove(Item::Stone, 1);
    if !hit {
        return CoconutOutcome::Missed;
    }
    let next_hits = hits + 1;
    if next_hits < COCONUT_HITS_REQUIRED {
        return CoconutOutcome::HitOnce(next_hits);
    }
    progress.coconuts_won = progress.coconuts_won + 1;
    match find_coconut_drop_tile(world, x, y) {
        Some((drop_x, drop_y)) => {
            proof {
                reveal_strlit("dropped_coconut");
            }
            world.place_object_key(drop_x, drop_y, "dropped_coconut", false);
            CoconutOutcome::Dropped(drop_x, drop_y)
        },
        None => {
            inv.add(Item::Coconut, 1);
            CoconutOutcome::Won
        },
    }
}

/// How an arrow shot at an animal ends.
#[derive(Debug, Clone, Copy, PartialEq, Eq, Structural)]
pub enum HuntOutcome {
    /// The animal was hunted; its drop is now carried.
    Hunted(Item),
    /// A dangerous animal was missed and killed the player.
    Killed,
    /// The shot missed.
    Missed,
}

/// How a shot ends at a target (an animal's key and drop, or nothing): a hit
/// hunts the animal, a miss at a dangerous animal kills the player, any
/// other miss is just a miss.
pub open spec fn shot_outcome(target: Option<(Seq<char>, Item)>, hit: bool) -> HuntOutcome {
    match target {
        Some(t) => if hit {
            HuntOutcome::Hunted(t.1)
        } else if dangerous_animal_key(t.0) {
            HuntOutcome::Killed
        } else {
            HuntOutcome::Missed
        },
        None => HuntOutcome::Missed,
    }
}

/// Shoot an arrow at an animal (its key and what it yields, or nothing when
/// the animal is gone): the arrow is used up. A hit hunts the animal and
/// counts it; missing a dangerous animal gets the player killed.
pub fn resolve_bow_shot(
    inv: &mut Inventory,
    progress: &mut ProgressState,
    target: Option<(&str, Item)>,
    hit: bool,
) -> (r: HuntOutcome)
    requires
        old(inv).wf(),
        old(inv).amount(Item::Arrow) > 0,
        hit && target is Some ==> old(inv).amount(target.unwrap().1) < u32::MAX && old(
            progress,
        ).animals_hunted < u32::MAX,
    ensures
        final(inv).wf(),
        r == shot_outcome(
            match target {
                Some(t) => Some((t.0@, t.1)),
                None => None,
            },
            hit,
        ),
        r matches HuntOutcome::Hunted(drop) ==> {
            &&& final(inv).amount(Item::Arrow) == old(inv).amount(Item::Arrow) - 1 + if drop
                == Item::Arrow {
                1int
            } else {
                0int
            }
            &&& final(inv).amount(drop) == old(inv).amount(drop) + 1 - if drop == Item::Arrow {
                1int
            } else {
                0int
            }
            &&& forall|it: Item|
                it != Item::Arrow && it != drop ==> final(inv).amount(it) == old(inv).amount(it)
            &&& forall|it: Item| final(inv).stored(it) == old(inv).stored(it)
            &&& *final(progress) == (ProgressState {
                animals_hunted: (old(progress).animals_hunted + 1) as u32,
                ..*old(progress)
            })
        },
        !(r is Hunted) ==> carried_more(*final(inv), *old(inv), Item::Arrow, 1) && *final(progress)
            == *old(progress),
{
    inv.remove(Item::Arrow, 1);
    match target {
        Some((key, drop)) => {
            if hit {
                inv.add(drop, 1);
                progress.animals_hunted = progress.animals_hunted + 1;
                HuntOutcome::Hunted(drop)
            } else if is_dangerous_animal(key) {
                HuntOutcome::Killed
            } else {
                HuntOutcome::Missed
            }
        },
        None => HuntOutcome::Missed,
    }
}

/// Blow up the rocks on a tile with a barrel of gunpowder: with a barrel
/// and gunpowder carried, one of each is used, the rocks layer of the tile
/// is cleared and the blast is recorded. Without them nothing happens.
pub fn clear_rock_with_gunpowder(
    inv: &mut Inventory,
    world: &mut World,
    progress: &mut ProgressState,
    fx: i32,
    fy: i32,
) -> (r: bool)
    requires
        old(inv).wf(),
        old(world).wf(),
    ensures
        final(inv).wf(),
        final(world).wf(),
        r == (old(inv).amount(Item::Barrel) > 0 && old(inv).amount(Item::Gunpowder) > 0),
        r ==> {
            &&& final(inv).amount(Item::Barrel) == old(inv).amount(Item::Barrel) - 1
            &&& final(inv).amount(Item::Gunpowder) == old(inv).amount(Item::Gunpowder) - 1
            &&& forall|it: Item|
                it != Item::Barrel && it != Item::Gunpowder ==> final(inv).amount(it) == old(
                    inv,
                ).amount(it)
            &&& forall|it: Item| final(inv).stored(it) == old(inv).stored(it)
            &&& final(world).rocks@ == match tile_index(fx, fy) {
                Some(i) => old(world).rocks@.update(i as int, 0u8),
                None => old(world).rocks@,
            }
            &&& *final(progress) == (ProgressState {
                rock_cleared_with_gunpowder: true,
                ..*old(progress)
            })
        },
        !r ==> *final(inv) == *old(inv) && final(world).rocks@ == old(world).rocks@ && *final(progress)
            == *old(progress),
        final(world).full@ == old(world).full@,
        final(world).borders@ == old(world).borders@,
        final(world).decor@ == old(world).decor@,
        final(world).objects@ == old(world).objects@,
        final(world).original_full@ == old(world).original_full@,
        final(world).original_borders@ == old(world).original_borders@,
        final(world).tide_low == old(world).tide_low,
        final(world).tide_rising == old(world).tide_rising,
        final(world).player_built == old(world).player_built,
{
    if inv.count(Item::Barrel) == 0 || inv.count(Item::Gunpowder) == 0 {
        return false;
    }
    inv.remove(Item::Barrel, 1);
    inv.remove(Item::Gunpowder, 1);
    if let Some(index) = World::index(fx, fy) {
        world.rocks.set(index, 0);
    }
    progress.rock_cleared_with_gunpowder = true;
    true
}

/// Repair the raft: with a raft built, the raft is ready and the swamp can
/// be reached.
pub fn repair_raft(inv: &Inventory, progress: &mut ProgressState) -> (r: bool)
    requires
        inv.wf(),
    ensures
        r == (inv.amount(Item::Raft) > 0),
        r ==> *final(progress) == (ProgressState {
            raft_repaired: true,
            swamp_access: true,
            ..*old(progress)
        }),
        !r ==> *final(progress) == *old(progress),
{
    if inv.count(Item::Raft) > 0 {
        progress.raft_repaired = true;
        progress.swamp_access = true;
        true
    } else {
        false
    }
}

/// Repair the ship: with the ship reconstructed, the escape succeeds.
pub fn repair_ship(inv: &Inventory, progress: &mut ProgressState) -> (r: bool)
    requires
        inv.wf(),
    ensures
        r == (inv.amount(Item::PirateShip) > 0),
        r ==> *final(progress) == (ProgressState { ship_repaired: true, ..*old(progress) }),
        !r ==> *final(progress) == *old(progress),
{
    if inv.count(Item::PirateShip) > 0 {
        progress.ship_repaired = true;
        true
    } else {
        false
    }
}

/// The first of the first `n` recipes that makes `item`.
pub open spec fn first_recipe_for(recipes: Seq<Recipe>, item: Item, n: int) -> Option<usize>
    decreases n,
{
    if n <= 0 {
        None
    } else {
        match first_recipe_for(recipes, item, n - 1) {
            Some(i) => Some(i),
            None => if recipes[n - 1].result == item {
                Some((n - 1) as usize)
            } else {
                None
            },
        }
    }
}

proof fn lemma_first_recipe_stable(recipes: Seq<Recipe>, item: Item, n: int, m: int)
    requires
        0 <= n <= m,
        first_recipe_for(recipes, item, n) is Some,
    ensures
        first_recipe_for(recipes, item, m) == first_recipe_for(recipes, item, n),
    decreases m - n,
{
    if n < m {
        lemma_first_recipe_stable(recipes, item, n, m - 1);
    }
}

/// The position of the first recipe of a list that makes `item`.
pub fn find_recipe(recipes: &Vec<Recipe>, item: Item) -> (r: Option<usize>)
    ensures
        r == first_recipe_for(recipes@, item, recipes@.len() as int),
        r matches Some(i) ==> i < recipes@.len() && recipes@[i as int].result == item,
{
    let mut i: usize = 0;
    while i < recipes.len()
        invariant
            i <= recipes@.len(),
            first_recipe_for(recipes@, item, i as int) is None,
        decreases recipes@.len() - i,
    {
        if recipes[i].result == item {
            proof {
                assert(first_recipe_for(recipes@, item, i + 1) == Some(i));
                lemma_first_recipe_stable(recipes@, item, i + 1, recipes@.len() as int);
            }
            return Some(i);
        }
        i = i + 1;
    }
    None
}

/// Why an item cannot be built on a tile, if it cannot: a tent or cabin
/// only goes on a reserved camp spot, a fire never does, and anything needs
/// clear, walkable land with no blocking object or rock.
pub open spec fn placement_error_of(w: World, item: Item, fx: i32, fy: i32, camp_spot: bool) -> Option<Seq<char>> {
    if (item == Item::Tent || item == Item::Cabin) && !camp_spot {
        Some("Place Tent or Cabin on the clear camp spots beside the flag."@)
    } else if item == Item::Fire && camp_spot {
        Some("Keep this camp spot clear for a Tent or Cabin."@)
    } else if !w.is_walkable_tile(fx, fy) || w.blocking_object(fx, fy) is Some
        || w.rock_blocks_tile(fx, fy) {
        Some("Cannot build there! Target must be clear land."@)
    } else {
        None
    }
}

/// Why an item cannot be built on the target tile; `camp_spot` tells
/// whether that tile is a reserved camp spot.
pub fn placement_error(world: &World, item: Item, fx: i32, fy: i32, camp_spot: bool) -> (r: Option<&'static str>)
    requires
        world.wf(),
    ensures
        match placement_error_of(*world, item, fx, fy, camp_spot) {
            Some(msg) => r matches Some(m) && m@ == msg,
            None => r is None,
        },
{
    let camp_home_item = matches!(item, Item::Tent | Item::Cabin);
    if camp_home_item && !camp_spot {
        Some("Place Tent or Cabin on the clear camp spots beside the flag.")
    } else if item == Item::Fire && camp_spot {
        Some("Keep this camp spot clear for a Tent or Cabin.")
    } else if !world.walkable(fx, fy) || world.static_object_at(fx, fy).is_some() || world.has_rock(
        fx,
        fy,
    ) {
        Some("Cannot build there! Target must be clear land.")
    } else {
        None
    }
}

/// The key an item is placed under, if it has one.
pub open spec fn item_key_of(item: Item) -> Option<Seq<char>> {
    match first_item_key(OBJECT_ITEM_KEY_COUNT, item) {
        Some(i) => Some(object_item_entry(i).0),
        None => None,
    }
}

/// Build a construction on a tile: its ingredients are used up and the
/// built structure is placed there (when the item has a map key and the
/// tile lies on the map), recorded as built by the player.
pub fn place_construction(
    recipe: &Recipe,
    inv: &mut Inventory,
    world: &mut World,
    fx: i32,
    fy: i32,
) -> (placed: bool)
    requires
        old(inv).wf(),
        old(world).wf(),
        forall|it: Item| #[trigger] old(inv).amount(it) >= required_amount(recipe.ingredients@, it),
    ensures
        final(inv).wf(),
        final(world).wf(),
        forall|it: Item|
            #[trigger] final(inv).amount(it) == old(inv).amount(it) - required_amount(
                recipe.ingredients@,
                it,
            ),
        forall|it: Item| #[trigger] final(inv).stored(it) == old(inv).stored(it),
        placed == (item_key_of(recipe.result) matches Some(k) && tile_index(fx, fy) is Some
            && definition_of(k) is Some),
        placed ==> {
            &&& final(world).object_placement_at(fx, fy) matches Some(p) && p.key@ == item_key_of(
                recipe.result,
            ).unwrap() && p.stage == 0 && p.built
            &&& final(world).objects@ == old(world).objects@.update(
                tile_index(fx, fy).unwrap() as int,
                final(world).object_placement_at(fx, fy),
            )
            &&& final(world).player_built@ == old(world).player_built@.insert(
                tile_index(fx, fy).unwrap(),
            )
        },
        !placed ==> final(world).objects@ == old(world).objects@ && final(world).player_built@
            == old(world).player_built@,
        same_ground(*final(world), *old(world)),
{
    recipe.consume_ingredients(inv);
    match key_for_item(recipe.result) {
        Some(key) => world.place_object_key(fx, fy, key, true),
        None => false,
    }
}

/// What eating does: the foods are the berry, coconut, mango, the four
/// mushrooms, banana, papaya, potato and pineapple; of them only the red
/// mushroom is poisonous (and restores nothing), every other food restores
/// at least 15 hunger, and the white, cream and orange mushrooms restore
/// exactly 15 hunger and no thirst.
pub proof fn lemma_food_effects(it: Item)
    ensures
        (food_of(it) is Some) == matches!(
            it,
            Item::Berry | Item::Coconut | Item::Mango | Item::WhiteMushroom | Item::CreamMushroom
                | Item::OrangeMushroom | Item::RedMushroom | Item::Banana | Item::Papaya
                | Item::Potato | Item::Pineapple
        ),
        food_of(it) matches Some(f) && f.2 ==> it == Item::RedMushroom,
        it == Item::RedMushroom ==> (food_of(it) matches Some(f) && f.2 && f.0 == 0 && f.1 == 0),
        food_of(it) matches Some(f) ==> (!f.2 ==> f.0 >= 15),
        matches!(it, Item::WhiteMushroom | Item::CreamMushroom | Item::OrangeMushroom) ==> (food_of(
            it,
        ) matches Some(f) && f.0 == 15 && f.1 == 0 && !f.2),
{
}

/// A missed arrow kills the player exactly when the animal shot at is one
/// of the dangerous five (alligator, jaguar, green snake, boa, shark); a
/// miss at any other animal of the island, or at nothing, leaves the player
/// alive, and a hit always hunts the animal for its drop.
pub proof fn lemma_missed_shot_kills_only_dangerous(i: usize, drop: Item)
    requires
        i < crate::objects::ANIMAL_KEY_COUNT,
    ensures
        shot_outcome(Some((crate::objects::animal_entry(i).0, drop)), false) == if matches!(
            crate::objects::animal_entry(i).1,
            Item::Alligator | Item::Jaguar | Item::GreenSnake | Item::Boa | Item::Shark
        ) {
            HuntOutcome::Killed
        } else {
            HuntOutcome::Missed
        },
        shot_outcome(Some((crate::objects::animal_entry(i).0, drop)), true) == HuntOutcome::Hunted(drop),
        shot_outcome(None, false) == HuntOutcome::Missed,
{
    crate::npc::lemma_dangerous_animals(i);
}

} // verus!
