//! The saved state of a game that is not the player's body or the clock:
//! progress flags and counters, how the game ended, and the snapshot of the
//! map's objects, decor, rocks and built structures.

use vstd::prelude::*;
use vstd::string::StringExecFns;
use std::collections::HashSet;
use vstd::std_specs::iter::IteratorSpec;
use crate::objects::{ObjectPlacement, definition, definition_of, lemma_definition_key_is_query};
use crate::text::str_eq;
use crate::world::{World, MAP_BYTES};
use crate::inventory::{Inventory, Item, amount_total, same_counts};
use crate::player::{Facing, Outfit};

verus! {

broadcast use vstd::std_specs::hash::group_hash_axioms;

/// The save format version this build writes and reads.
pub const SAVE_VERSION: u32 = 2;

/// The weight the player carries: one unit per item carried.
pub fn inventory_weight(inv: &Inventory) -> (r: u64)
    requires
        inv.wf(),
    ensures
        r == amount_total(|it: Item| inv.amount(it)),
{
    inv.carried_total()
}

/// Whether a save of a given version can be read.
pub fn save_version_supported(version: u32) -> (r: bool)
    ensures
        r == (version == SAVE_VERSION),
{
    version == SAVE_VERSION
}

/// The characters of each string of a list.
pub open spec fn strings_view(v: Seq<String>) -> Seq<Seq<char>> {
    v.map_values(|s: String| s@)
}

/// Tutorial and help progress, counters of what the player achieved, and
/// the milestones of the escape.
pub struct ProgressState {
    pub tutorial_flags: Vec<String>,
    pub discovered_help_topics: Vec<String>,
    pub fish_caught: u32,
    pub coconuts_won: u32,
    pub animals_hunted: u32,
    pub raft_repaired: bool,
    pub swamp_access: bool,
    pub rock_cleared_with_gunpowder: bool,
    pub ship_repaired: bool,
}

impl ProgressState {
    /// The tutorial flags already shown.
    pub open spec fn flags(&self) -> Set<Seq<char>> {
        strings_view(self.tutorial_flags@).to_set()
    }

    /// The help topics already discovered.
    pub open spec fn topics(&self) -> Set<Seq<char>> {
        strings_view(self.discovered_help_topics@).to_set()
    }

    /// Nothing shown, discovered or achieved yet.
    pub fn new() -> (r: ProgressState)
        ensures
            r.flags() == Set::<Seq<char>>::empty(),
            r.topics() == Set::<Seq<char>>::empty(),
            r.fish_caught == 0 && r.coconuts_won == 0 && r.animals_hunted == 0,
            !r.raft_repaired && !r.swamp_access && !r.rock_cleared_with_gunpowder
                && !r.ship_repaired,
    {
        let r = ProgressState {
            tutorial_flags: Vec::new(),
            discovered_help_topics: Vec::new(),
            fish_caught: 0,
            coconuts_won: 0,
            animals_hunted: 0,
            raft_repaired: false,
            swamp_access: false,
            rock_cleared_with_gunpowder: false,
            ship_repaired: false,
        };
        proof {
            assert(strings_view(r.tutorial_flags@).to_set() =~= Set::<Seq<char>>::empty());
            assert(strings_view(r.discovered_help_topics@).to_set() =~= Set::<Seq<char>>::empty());
        }
        r
    }

    /// Whether a tutorial flag was already shown.
    pub fn has_tutorial_flag(&self, flag: &str) -> (r: bool)
        ensures
            r == self.flags().contains(flag@),
    {
        contains_string(&self.tutorial_flags, flag)
    }

    /// Record a tutorial flag; report whether it was new.
    pub fn insert_tutorial_flag(&mut self, flag: &str) -> (r: bool)
        ensures
            r == !old(self).flags().contains(flag@),
            final(self).flags() == old(self).flags().insert(flag@),
            final(self).topics() == old(self).topics(),
            final(self).fish_caught == old(self).fish_caught,
            final(self).coconuts_won == old(self).coconuts_won,
            final(self).animals_hunted == old(self).animals_hunted,
            final(self).raft_repaired == old(self).raft_repaired,
            final(self).swamp_access == old(self).swamp_access,
            final(self).rock_cleared_with_gunpowder == old(self).rock_cleared_with_gunpowder,
            final(self).ship_repaired == old(self).ship_repaired,
    {
        insert_string(&mut self.tutorial_flags, flag)
    }

    /// Whether a help topic was already discovered.
    pub fn has_help_topic(&self, topic: &str) -> (r: bool)
        ensures
            r == self.topics().contains(topic@),
    {
        contains_string(&self.discovered_help_topics, topic)
    }

    /// Record a help topic; report whether it was new.
    pub fn insert_help_topic(&mut self, topic: &str) -> (r: bool)
        ensures
            r == !old(self).topics().contains(topic@),
            final(self).topics() == old(self).topics().insert(topic@),
            final(self).flags() == old(self).flags(),
            final(self).fish_caught == old(self).fish_caught,
            final(self).coconuts_won == old(self).coconuts_won,
            final(self).animals_hunted == old(self).animals_hunted,
            final(self).raft_repaired == old(self).raft_repaired,
            final(self).swamp_access == old(self).swamp_access,
            final(self).rock_cleared_with_gunpowder == old(self).rock_cleared_with_gunpowder,
            final(self).ship_repaired == old(self).ship_repaired,
    {
        insert_string(&mut self.discovered_help_topics, topic)
    }

}

impl Default for ProgressState {
    fn default() -> (r: ProgressState)
        ensures
            r.flags() == Set::<Seq<char>>::empty(),
            r.topics() == Set::<Seq<char>>::empty(),
            r.fish_caught == 0 && r.coconuts_won == 0 && r.animals_hunted == 0,
            !r.raft_repaired && !r.swamp_access && !r.rock_cleared_with_gunpowder
                && !r.ship_repaired,
    {
        ProgressState::new()
    }
}

fn contains_string(v: &Vec<String>, s: &str) -> (r: bool)
    ensures
        r == strings_view(v@).to_set().contains(s@),
{
    let mut i: usize = 0;
    while i < v.len()
        invariant
            i <= v@.len(),
            forall|j: int| 0 <= j < i ==> (#[trigger] v@[j])@ != s@,
        decreases v@.len() - i,
    {
        if str_eq(v[i].as_str(), s) {
            assert(strings_view(v@)[i as int] == s@);
            return true;
        }
        i = i + 1;
    }
    proof {
        if strings_view(v@).to_set().contains(s@) {
            let j = choose|j: int| 0 <= j < strings_view(v@).len() && strings_view(v@)[j] == s@;
            assert(v@[j]@ == s@);
        }
    }
    false
}

fn insert_string(v: &mut Vec<String>, s: &str) -> (r: bool)
    ensures
        r == !strings_view(old(v)@).to_set().contains(s@),
        strings_view(final(v)@).to_set() == strings_view(old(v)@).to_set().insert(s@),
{
    if contains_string(v, s) {
        proof {
            assert(strings_view(v@).to_set().insert(s@) =~= strings_view(v@).to_set());
        }
        return false;
    }
    let ghost before = strings_view(v@);
    v.push(String::from_str(s));
    proof {
        assert(strings_view(v@) =~= before.push(s@));
        assert(strings_view(v@).to_set() =~= before.to_set().insert(s@)) by {
            assert forall|x: Seq<char>| strings_view(v@).to_set().contains(x) implies before.to_set().insert(x).contains(x) || before.to_set().insert(s@).contains(x) by {}
            assert forall|x: Seq<char>| #[trigger] before.to_set().insert(s@).contains(x) implies strings_view(v@).to_set().contains(x) by {
                if x == s@ {
                    assert(strings_view(v@)[before.len() as int] == s@);
                } else {
                    let j = choose|j: int| 0 <= j < before.len() && before[j] == x;
                    assert(strings_view(v@)[j] == x);
                }
            }
            assert forall|x: Seq<char>| #[trigger] strings_view(v@).to_set().contains(x) implies before.to_set().insert(s@).contains(x) by {
                let j = choose|j: int| 0 <= j < strings_view(v@).len() && strings_view(v@)[j] == x;
                if j < before.len() {
                    assert(before[j] == x);
                }
            }
        }
    }
    true
}

/// How the game stands: still running, lost with a reason, or won.
#[derive(Debug, Clone, PartialEq, Eq)]
pub enum TerminalState {
    Running,
    GameOver { reason: String },
    Victory,
}

impl Default for TerminalState {
    fn default() -> (r: TerminalState)
        ensures
            r == TerminalState::Running,
    {
        TerminalState::Running
    }
}

/// A placement written into a save: its tile, key, growth stage and whether
/// the player built it.
#[derive(Debug, Clone)]
pub struct PlacementSave {
    pub index: usize,
    pub key: String,
    pub stage: u8,
    pub built: bool,
}

/// The content of a saved placement.
pub open spec fn save_view(s: PlacementSave) -> (usize, Seq<char>, u8, bool) {
    (s.index, s.key@, s.stage, s.built)
}

/// The content of a placed object: key, stage, built.
pub open spec fn placement_view(p: Option<ObjectPlacement>) -> Option<(Seq<char>, u8, bool)> {
    match p {
        Some(pl) => Some((pl.key@, pl.stage, pl.built)),
        None => None,
    }
}

/// The saved form of the first `n` tiles of a placement layer: one entry per
/// occupied tile, in tile order.
pub open spec fn saves_upto(grid: Seq<Option<ObjectPlacement>>, n: int) -> Seq<(usize, Seq<char>, u8, bool)>
    decreases n,
{
    if n <= 0 {
        Seq::empty()
    } else {
        let prev = saves_upto(grid, n - 1);
        match grid[n - 1] {
            Some(p) => prev.push(((n - 1) as usize, p.key@, p.stage, p.built)),
            None => prev,
        }
    }
}

/// Write every occupied tile of a placement layer into save entries.
pub fn placements_to_save(placements: &Vec<Option<ObjectPlacement>>) -> (r: Vec<PlacementSave>)
    ensures
        r.len() == saves_upto(placements@, placements@.len() as int).len(),
        forall|k: int|
            0 <= k < r.len() ==> save_view(#[trigger] r[k]) == saves_upto(
                placements@,
                placements@.len() as int,
            )[k],
{
    let mut out: Vec<PlacementSave> = Vec::new();
    let mut i: usize = 0;
    while i < placements.len()
        invariant
            i <= placements@.len(),
            out.len() == saves_upto(placements@, i as int).len(),
            forall|k: int|
                0 <= k < out.len() ==> save_view(#[trigger] out[k]) == saves_upto(
                    placements@,
                    i as int,
                )[k],
        decreases placements@.len() - i,
    {
        if let Some(placement) = placements[i] {
            out.push(
                PlacementSave {
                    index: i,
                    key: String::from_str(placement.key),
                    stage: placement.stage,
                    built: placement.built,
                },
            );
        }
        i = i + 1;
    }
    out
}

/// A saved placement restored onto a layer view: known keys on tiles of the
/// layer take the registry's key; anything else is skipped.
pub open spec fn restore_one(
    grid: Seq<Option<(Seq<char>, u8, bool)>>,
    s: (usize, Seq<char>, u8, bool),
) -> Seq<Option<(Seq<char>, u8, bool)>> {
    match definition_of(s.1) {
        Some(d) => if s.0 < grid.len() {
            grid.update(s.0 as int, Some((d.key, s.2, s.3)))
        } else {
            grid
        },
        None => grid,
    }
}

/// The first `n` saved placements restored, in order, onto a layer view.
pub open spec fn restore_upto(
    grid: Seq<Option<(Seq<char>, u8, bool)>>,
    saves: Seq<PlacementSave>,
    n: int,
) -> Seq<Option<(Seq<char>, u8, bool)>>
    decreases n,
{
    if n <= 0 {
        grid
    } else {
        restore_one(restore_upto(grid, saves, n - 1), save_view(saves[n - 1]))
    }
}

proof fn lemma_restore_len(grid: Seq<Option<(Seq<char>, u8, bool)>>, saves: Seq<PlacementSave>, n: int)
    ensures
        restore_upto(grid, saves, n).len() == grid.len(),
    decreases n,
{
    if n > 0 {
        lemma_restore_len(grid, saves, n - 1);
    }
}

/// The content of every tile of a placement layer.
pub open spec fn layer_view(grid: Seq<Option<ObjectPlacement>>) -> Seq<Option<(Seq<char>, u8, bool)>> {
    grid.map_values(|p: Option<ObjectPlacement>| placement_view(p))
}

/// Restore saved placements onto a layer, in order.
pub fn apply_placements(target: &mut Vec<Option<ObjectPlacement>>, placements: &Vec<PlacementSave>)
    ensures
        final(target)@.len() == old(target)@.len(),
        layer_view(final(target)@) == restore_upto(
            layer_view(old(target)@),
            placements@,
            placements@.len() as int,
        ),
{
    let ghost start = layer_view(target@);
    let mut k: usize = 0;
    while k < placements.len()
        invariant
            k <= placements@.len(),
            target@.len() == old(target)@.len(),
            start == layer_view(old(target)@),
            layer_view(target@) == restore_upto(start, placements@, k as int),
        decreases placements@.len() - k,
    {
        let placement = &placements[k];
        proof {
            lemma_restore_len(start, placements@, k as int);
        }
        if let Some(def) = definition(placement.key.as_str()) {
            if placement.index < target.len() {
                target.set(
                    placement.index,
                    Some(ObjectPlacement { key: def.key, stage: placement.stage, built: placement.built }),
                );
                proof {
                    assert(layer_view(target@) =~= restore_upto(start, placements@, k + 1));
                }
            } else {
                assert(layer_view(target@) =~= restore_upto(start, placements@, k + 1));
            }
        } else {
            assert(layer_view(target@) =~= restore_upto(start, placements@, k + 1));
        }
        k = k + 1;
    }
}

/// The nonzero entries among the first `n` tiles of the rocks layer, in
/// tile order.
pub open spec fn rocks_upto(rocks: Seq<u8>, n: int) -> Seq<(usize, u8)>
    decreases n,
{
    if n <= 0 {
        Seq::empty()
    } else {
        let prev = rocks_upto(rocks, n - 1);
        if rocks[n - 1] != 0 {
            prev.push(((n - 1) as usize, rocks[n - 1]))
        } else {
            prev
        }
    }
}

/// The first `n` saved rock entries written, in order, onto a rocks layer;
/// entries past the end of the layer are skipped.
pub open spec fn rocks_restored(base: Seq<u8>, entries: Seq<(usize, u8)>, n: int) -> Seq<u8>
    decreases n,
{
    if n <= 0 {
        base
    } else {
        let prev = rocks_restored(base, entries, n - 1);
        let e = entries[n - 1];
        if e.0 < prev.len() {
            prev.update(e.0 as int, e.1)
        } else {
            prev
        }
    }
}

proof fn lemma_rocks_restored_len(base: Seq<u8>, entries: Seq<(usize, u8)>, n: int)
    ensures
        rocks_restored(base, entries, n).len() == base.len(),
    decreases n,
{
    if n > 0 {
        lemma_rocks_restored_len(base, entries, n - 1);
    }
}

/// The saved snapshot of the map layers that play changes.
pub struct WorldSave {
    pub objects: Vec<PlacementSave>,
    pub decor: Vec<PlacementSave>,
    pub rocks: Vec<(usize, u8)>,
    pub player_built: Vec<usize>,
}

impl Default for WorldSave {
    fn default() -> (r: WorldSave)
        ensures
            r.objects@.len() == 0 && r.decor@.len() == 0 && r.rocks@.len() == 0
                && r.player_built@.len() == 0,
    {
        WorldSave { objects: Vec::new(), decor: Vec::new(), rocks: Vec::new(), player_built: Vec::new() }
    }
}

/// An empty placement layer view of map size.
pub open spec fn empty_layer() -> Seq<Option<(Seq<char>, u8, bool)>> {
    Seq::new(MAP_BYTES as nat, |i: int| None)
}

impl WorldSave {
    /// Snapshot the objects, decor, nonzero rocks, and built tiles of a map.
    pub fn from_world(world: &World) -> (r: WorldSave)
        requires
            world.wf(),
        ensures
            r.objects.len() == saves_upto(world.objects@, MAP_BYTES as int).len(),
            forall|k: int|
                0 <= k < r.objects.len() ==> save_view(#[trigger] r.objects[k]) == saves_upto(
                    world.objects@,
                    MAP_BYTES as int,
                )[k],
            r.decor.len() == saves_upto(world.decor@, MAP_BYTES as int).len(),
            forall|k: int|
                0 <= k < r.decor.len() ==> save_view(#[trigger] r.decor[k]) == saves_upto(
                    world.decor@,
                    MAP_BYTES as int,
                )[k],
            r.rocks@ == rocks_upto(world.rocks@, MAP_BYTES as int),
            r.player_built@.to_set() == world.player_built@,
            r.player_built@.no_duplicates(),
    {
        let objects = placements_to_save(&world.objects);
        let decor = placements_to_save(&world.decor);
        let mut rocks: Vec<(usize, u8)> = Vec::new();
        let mut i: usize = 0;
        while i < world.rocks.len()
            invariant
                world.wf(),
                i <= MAP_BYTES,
                rocks@ == rocks_upto(world.rocks@, i as int),
            decreases MAP_BYTES - i,
        {
            let v = world.rocks[i];
            if v != 0 {
                rocks.push((i, v));
            }
            i = i + 1;
        }
        let mut built: Vec<usize> = Vec::new();
        let ghost all = vstd::std_specs::hash::spec_hash_keys_iter(&world.player_built).remaining();
        for idx in it: world.player_built.iter()
            invariant
                it.seq() == all,
                built@ == it.seq().take(it.index()).map_values(|r: &usize| *r),
        {
            built.push(*idx);
            proof {
                assert(it.seq().take(it.index() + 1) =~= it.seq().take(it.index()).push(idx));
            }
        }
        proof {
            assert(built@ =~= all.map_values(|r: &usize| *r));
            assert(all.unref() =~= all.map_values(|r: &usize| *r));
        }
        WorldSave { objects, decor, rocks, player_built: built }
    }

    /// Restore the snapshot onto a map: clear its objects, decor, rocks and
    /// built tiles, then write back each saved entry.
    pub fn apply_to_world(&self, world: &mut World)
        requires
            old(world).wf(),
        ensures
            final(world).wf(),
            layer_view(final(world).objects@) == restore_upto(
                empty_layer(),
                self.objects@,
                self.objects@.len() as int,
            ),
            layer_view(final(world).decor@) == restore_upto(
                empty_layer(),
                self.decor@,
                self.decor@.len() as int,
            ),
            final(world).rocks@ == rocks_restored(
                Seq::new(MAP_BYTES as nat, |i: int| 0u8),
                self.rocks@,
                self.rocks@.len() as int,
            ),
            final(world).player_built@ == self.player_built@.to_set(),
            final(world).full@ == old(world).full@,
            final(world).borders@ == old(world).borders@,
            final(world).original_full@ == old(world).original_full@,
            final(world).original_borders@ == old(world).original_borders@,
            final(world).tide_low == old(world).tide_low,
            final(world).tide_rising == old(world).tide_rising,
    {
        clear_layer(&mut world.objects);
        clear_layer(&mut world.decor);
        let ghost start = *world;
        let mut i: usize = 0;
        while i < world.rocks.len()
            invariant
                i <= world.rocks@.len(),
                world.wf(),
                world.objects == start.objects,
                world.decor == start.decor,
                world.full == start.full,
                world.borders == start.borders,
                world.original_full == start.original_full,
                world.original_borders == start.original_borders,
                world.tide_low == start.tide_low,
                world.tide_rising == start.tide_rising,
                world.player_built == start.player_built,
                forall|j: int| 0 <= j < i ==> #[trigger] world.rocks@[j] == 0,
            decreases world.rocks@.len() - i,
        {
            world.rocks.set(i, 0);
            i = i + 1;
        }
        assert(world.rocks@ =~= Seq::new(MAP_BYTES as nat, |i: int| 0u8));
        world.player_built.clear();
        apply_placements(&mut world.objects, &self.objects);
        apply_placements(&mut world.decor, &self.decor);
        let ghost base = world.rocks@;
        let ghost mid = *world;
        let mut k: usize = 0;
        while k < self.rocks.len()
            invariant
                k <= self.rocks@.len(),
                world.wf(),
                world.objects == mid.objects,
                world.decor == mid.decor,
                world.full == mid.full,
                world.borders == mid.borders,
                world.original_full == mid.original_full,
                world.original_borders == mid.original_borders,
                world.tide_low == mid.tide_low,
                world.tide_rising == mid.tide_rising,
                world.player_built == mid.player_built,
                base == Seq::new(MAP_BYTES as nat, |i: int| 0u8),
                world.rocks@ == rocks_restored(base, self.rocks@, k as int),
            decreases self.rocks@.len() - k,
        {
            let (index, value) = self.rocks[k];
            proof {
                lemma_rocks_restored_len(base, self.rocks@, k as int);
            }
            if index < world.rocks.len() {
                world.rocks.set(index, value);
            }
            k = k + 1;
        }
        proof {
            lemma_rocks_restored_len(base, self.rocks@, self.rocks@.len() as int);
        }
        let ghost late = *world;
        assert(self.player_built@.take(0).to_set() =~= Set::<usize>::empty());
        let mut b: usize = 0;
        while b < self.player_built.len()
            invariant
                b <= self.player_built@.len(),
                world.wf(),
                world.objects == late.objects,
                world.decor == late.decor,
                world.rocks == late.rocks,
                world.full == late.full,
                world.borders == late.borders,
                world.original_full == late.original_full,
                world.original_borders == late.original_borders,
                world.tide_low == late.tide_low,
                world.tide_rising == late.tide_rising,
                world.player_built@ == self.player_built@.take(b as int).to_set(),
            decreases self.player_built@.len() - b,
        {
            world.player_built.insert(self.player_built[b]);
            proof {
                assert(self.player_built@.take(b + 1) =~= self.player_built@.take(b as int).push(
                    self.player_built@[b as int],
                ));
                self.player_built@.take(b as int).lemma_push_to_set_commute(self.player_built@[b as int]);
            }
            b = b + 1;
        }
        proof {
            assert(self.player_built@.take(self.player_built@.len() as int) =~= self.player_built@);
        }
    }
}

/// Every placement on a layer carries a key the registry knows.
pub open spec fn registered_layer(grid: Seq<Option<ObjectPlacement>>) -> bool {
    forall|i: int| 0 <= i < grid.len() ==> (#[trigger] grid[i] matches Some(p) ==> definition_of(p.key@) is Some)
}

/// The first `n` tiles of a layer by content, the rest empty.
pub open spec fn layer_prefix(grid: Seq<Option<ObjectPlacement>>, n: int) -> Seq<Option<(Seq<char>, u8, bool)>> {
    Seq::new(grid.len(), |i: int| if i < n { placement_view(grid[i]) } else { None })
}

proof fn lemma_restore_saves_prefix(grid: Seq<Option<ObjectPlacement>>, saves: Seq<PlacementSave>, n: int)
    requires
        grid.len() == MAP_BYTES,
        0 <= n <= MAP_BYTES,
        registered_layer(grid),
        saves.len() >= saves_upto(grid, n).len(),
        forall|k: int| 0 <= k < saves_upto(grid, n).len() ==> save_view(#[trigger] saves[k]) == saves_upto(grid, n)[k],
    ensures
        restore_upto(empty_layer(), saves, saves_upto(grid, n).len() as int) == layer_prefix(grid, n),
        forall|k: int| 0 <= k < saves_upto(grid, n).len() ==> (#[trigger] saves_upto(grid, n)[k]).0 < n,
    decreases n,
{
    if n == 0 {
        assert(layer_prefix(grid, 0) =~= empty_layer());
    } else {
        let prev = saves_upto(grid, n - 1);
        assert forall|k: int| 0 <= k < prev.len() implies save_view(#[trigger] saves[k]) == prev[k] by {
            assert(saves_upto(grid, n)[k] == prev[k]);
        }
        lemma_restore_saves_prefix(grid, saves, n - 1);
        lemma_restore_len(empty_layer(), saves, prev.len() as int);
        match grid[n - 1] {
            Some(p) => {
                lemma_definition_key_is_query(p.key@);
                assert(saves_upto(grid, n)[prev.len() as int] == ((n - 1) as usize, p.key@, p.stage, p.built));
                assert(restore_upto(empty_layer(), saves, prev.len() as int + 1) =~= layer_prefix(grid, n));
            },
            None => {
                assert(layer_prefix(grid, n - 1) =~= layer_prefix(grid, n));
            },
        }
    }
}

proof fn lemma_restore_rocks_prefix(rocks: Seq<u8>, n: int)
    requires
        rocks.len() == MAP_BYTES,
        0 <= n <= MAP_BYTES,
    ensures
        rocks_restored(Seq::new(MAP_BYTES as nat, |i: int| 0u8), rocks_upto(rocks, n), rocks_upto(rocks, n).len() as int)
            == Seq::new(MAP_BYTES as nat, |i: int| if i < n { rocks[i] } else { 0u8 }),
        forall|k: int| 0 <= k < rocks_upto(rocks, n).len() ==> (#[trigger] rocks_upto(rocks, n)[k]).0 < n,
    decreases n,
{
    let zeros = Seq::new(MAP_BYTES as nat, |i: int| 0u8);
    if n == 0 {
        assert(Seq::new(MAP_BYTES as nat, |i: int| if i < 0 { rocks[i] } else { 0u8 }) =~= zeros);
    } else {
        let prev = rocks_upto(rocks, n - 1);
        lemma_restore_rocks_prefix(rocks, n - 1);
        let cur = rocks_upto(rocks, n);
        assert forall|m: int| 0 <= m <= prev.len() implies rocks_restored(zeros, cur, m) == rocks_restored(zeros, prev, m) by {
            lemma_rocks_restored_same_prefix(zeros, cur, prev, m);
        }
        lemma_rocks_restored_len(zeros, prev, prev.len() as int);
        if rocks[n - 1] != 0 {
            assert(rocks_restored(zeros, cur, cur.len() as int) =~= Seq::new(
                MAP_BYTES as nat,
                |i: int| if i < n { rocks[i] } else { 0u8 },
            ));
        } else {
            assert(rocks_restored(zeros, cur, cur.len() as int) =~= Seq::new(
                MAP_BYTES as nat,
                |i: int| if i < n { rocks[i] } else { 0u8 },
            ));
        }
    }
}

proof fn lemma_rocks_restored_same_prefix(base: Seq<u8>, a: Seq<(usize, u8)>, b: Seq<(usize, u8)>, m: int)
    requires
        0 <= m <= a.len(),
        m <= b.len(),
        forall|k: int| 0 <= k < m ==> a[k] == b[k],
    ensures
        rocks_restored(base, a, m) == rocks_restored(base, b, m),
    decreases m,
{
    if m > 0 {
        lemma_rocks_restored_same_prefix(base, a, b, m - 1);
    }
}

/// Restoring a snapshot of a map whose placements all carry registered keys
/// gives back its objects, decor, rocks and built tiles exactly, whatever
/// the map it is restored onto held before.
pub proof fn lemma_world_snapshot_round_trip(w: World, snap: WorldSave, restored: World)
    requires
        w.wf(),
        registered_layer(w.objects@),
        registered_layer(w.decor@),
        snap.objects.len() == saves_upto(w.objects@, MAP_BYTES as int).len(),
        forall|k: int|
            0 <= k < snap.objects.len() ==> save_view(#[trigger] snap.objects[k]) == saves_upto(
                w.objects@,
                MAP_BYTES as int,
            )[k],
        snap.decor.len() == saves_upto(w.decor@, MAP_BYTES as int).len(),
        forall|k: int|
            0 <= k < snap.decor.len() ==> save_view(#[trigger] snap.decor[k]) == saves_upto(
                w.decor@,
                MAP_BYTES as int,
            )[k],
        snap.rocks@ == rocks_upto(w.rocks@, MAP_BYTES as int),
        snap.player_built@.to_set() == w.player_built@,
        layer_view(restored.objects@) == restore_upto(empty_layer(), snap.objects@, snap.objects@.len() as int),
        layer_view(restored.decor@) == restore_upto(empty_layer(), snap.decor@, snap.decor@.len() as int),
        restored.rocks@ == rocks_restored(
            Seq::new(MAP_BYTES as nat, |i: int| 0u8),
            snap.rocks@,
            snap.rocks@.len() as int,
        ),
        restored.player_built@ == snap.player_built@.to_set(),
    ensures
        layer_view(restored.objects@) == layer_view(w.objects@),
        layer_view(restored.decor@) == layer_view(w.decor@),
        restored.rocks@ == w.rocks@,
        restored.player_built@ == w.player_built@,
{
    lemma_restore_saves_prefix(w.objects@, snap.objects@, MAP_BYTES as int);
    assert(layer_prefix(w.objects@, MAP_BYTES as int) =~= layer_view(w.objects@));
    lemma_restore_saves_prefix(w.decor@, snap.decor@, MAP_BYTES as int);
    assert(layer_prefix(w.decor@, MAP_BYTES as int) =~= layer_view(w.decor@));
    lemma_restore_rocks_prefix(w.rocks@, MAP_BYTES as int);
    assert(Seq::new(MAP_BYTES as nat, |i: int| if i < MAP_BYTES { w.rocks@[i] } else { 0u8 }) =~= w.rocks@);
}

/// Empty every tile of a placement layer.
fn clear_layer(layer: &mut Vec<Option<ObjectPlacement>>)
    requires
        old(layer)@.len() == MAP_BYTES,
    ensures
        final(layer)@.len() == MAP_BYTES,
        layer_view(final(layer)@) == empty_layer(),
{
    let mut i: usize = 0;
    while i < layer.len()
        invariant
            i <= layer@.len(),
            layer@.len() == MAP_BYTES,
            forall|j: int| 0 <= j < i ==> #[trigger] layer@[j] is None,
        decreases layer@.len() - i,
    {
        layer.set(i, None);
        i = i + 1;
    }
    assert(layer_view(layer@) =~= empty_layer());
}

/// The progress record by content: both string lists as characters, the
/// three counters and the four milestones.
pub open spec fn progress_view(p: ProgressState) -> (
    Seq<Seq<char>>,
    Seq<Seq<char>>,
    (u32, u32, u32),
    (bool, bool, bool, bool),
) {
    (
        strings_view(p.tutorial_flags@),
        strings_view(p.discovered_help_topics@),
        (p.fish_caught, p.coconuts_won, p.animals_hunted),
        (p.raft_repaired, p.swamp_access, p.rock_cleared_with_gunpowder, p.ship_repaired),
    )
}

/// A copy of a list of strings, character for character.
fn copy_strings(v: &Vec<String>) -> (r: Vec<String>)
    ensures
        strings_view(r@) == strings_view(v@),
{
    let mut r: Vec<String> = Vec::new();
    let mut i: usize = 0;
    while i < v.len()
        invariant
            i <= v@.len(),
            r@.len() == i,
            forall|j: int| 0 <= j < i ==> (#[trigger] r@[j])@ == v@[j]@,
        decreases v@.len() - i,
    {
        r.push(v[i].clone());
        i = i + 1;
    }
    proof {
        assert(strings_view(r@) =~= strings_view(v@));
    }
    r
}

impl ProgressState {
    /// A second progress record with the same content.
    pub fn duplicate(&self) -> (r: ProgressState)
        ensures
            progress_view(r) == progress_view(*self),
    {
        ProgressState {
            tutorial_flags: copy_strings(&self.tutorial_flags),
            discovered_help_topics: copy_strings(&self.discovered_help_topics),
            fish_caught: self.fish_caught,
            coconuts_won: self.coconuts_won,
            animals_hunted: self.animals_hunted,
            raft_repaired: self.raft_repaired,
            swamp_access: self.swamp_access,
            rock_cleared_with_gunpowder: self.rock_cleared_with_gunpowder,
            ship_repaired: self.ship_repaired,
        }
    }
}

/// Two terminal states say the same: both running, both won, or both lost
/// for the same reason.
pub open spec fn same_terminal(a: TerminalState, b: TerminalState) -> bool {
    match (a, b) {
        (TerminalState::Running, TerminalState::Running) => true,
        (TerminalState::Victory, TerminalState::Victory) => true,
        (TerminalState::GameOver { reason: x }, TerminalState::GameOver { reason: y }) => x@ == y@,
        _ => false,
    }
}

impl TerminalState {
    /// A second terminal state saying the same.
    pub fn duplicate(&self) -> (r: TerminalState)
        ensures
            same_terminal(*self, r),
    {
        match self {
            TerminalState::Running => TerminalState::Running,
            TerminalState::GameOver { reason } => TerminalState::GameOver { reason: reason.clone() },
            TerminalState::Victory => TerminalState::Victory,
        }
    }
}

/// An animal of the running game as far as a save keeps it apart from its
/// position: its registry key, what a hunt yields, and its sprite.
#[derive(Debug, Clone, Copy)]
pub struct AnimalRecord {
    pub key: &'static str,
    pub drop: Item,
    pub sprite: u32,
}

/// An animal as a save file holds it, its key as free text.
pub struct AnimalSave {
    pub key: String,
    pub drop: Item,
    pub sprite: u32,
}

/// The content of an animal record.
pub open spec fn record_view(a: AnimalRecord) -> (Seq<char>, Item, u32) {
    (a.key@, a.drop, a.sprite)
}

/// The content of a saved animal.
pub open spec fn animal_save_view(a: AnimalSave) -> (Seq<char>, Item, u32) {
    (a.key@, a.drop, a.sprite)
}

/// The animals brought back from the first `n` saved ones: each whose key
/// the registry knows, with the registry's key, and the position it had in
/// the save; saved animals with unknown keys are dropped.
pub open spec fn restored_animals(saves: Seq<AnimalSave>, n: int) -> Seq<(usize, (Seq<char>, Item, u32))>
    decreases n,
{
    if n <= 0 {
        Seq::empty()
    } else {
        let prev = restored_animals(saves, n - 1);
        let s = saves[n - 1];
        match definition_of(s.key@) {
            Some(d) => prev.push(((n - 1) as usize, (d.key, s.drop, s.sprite))),
            None => prev,
        }
    }
}

/// The content of restored animals, each with its position in the save.
pub open spec fn restored_view(r: Seq<(usize, AnimalRecord)>) -> Seq<(usize, (Seq<char>, Item, u32))> {
    r.map_values(|e: (usize, AnimalRecord)| (e.0, record_view(e.1)))
}

/// Write the animals of a game as a save holds them, in order.
pub fn animals_to_save(animals: &Vec<AnimalRecord>) -> (r: Vec<AnimalSave>)
    ensures
        r@.len() == animals@.len(),
        forall|k: int| 0 <= k < r@.len() ==> animal_save_view(#[trigger] r@[k]) == record_view(animals@[k]),
{
    let mut r: Vec<AnimalSave> = Vec::new();
    let mut i: usize = 0;
    while i < animals.len()
        invariant
            i <= animals@.len(),
            r@.len() == i,
            forall|k: int| 0 <= k < i ==> animal_save_view(#[trigger] r@[k]) == record_view(animals@[k]),
        decreases animals@.len() - i,
    {
        let a = animals[i];
        r.push(AnimalSave { key: String::from_str(a.key), drop: a.drop, sprite: a.sprite });
        i = i + 1;
    }
    r
}

/// Bring back the saved animals whose keys the registry knows, each with
/// the registry's own key and its position in the save.
pub fn animals_from_save(saves: &Vec<AnimalSave>) -> (r: Vec<(usize, AnimalRecord)>)
    ensures
        restored_view(r@) == restored_animals(saves@, saves@.len() as int),
{
    let mut r: Vec<(usize, AnimalRecord)> = Vec::new();
    let mut i: usize = 0;
    while i < saves.len()
        invariant
            i <= saves@.len(),
            restored_view(r@) == restored_animals(saves@, i as int),
        decreases saves@.len() - i,
    {
        let s = &saves[i];
        let ghost prev = r@;
        if let Some(d) = definition(s.key.as_str()) {
            r.push((i, AnimalRecord { key: d.key, drop: s.drop, sprite: s.sprite }));
            proof {
                assert(restored_view(r@) =~= restored_view(prev).push((i, (d.key@, s.drop, s.sprite))));
            }
        }
        i = i + 1;
    }
    r
}

/// The part of a save that is not a position, a stat meter or a clock
/// reading: version and level, the player's facing, sleep and clothing, the
/// day number and tide target, the inventory, the map snapshot, progress,
/// the animals, and how the game stands.
pub struct SaveData {
    pub version: u32,
    pub level: String,
    pub facing: Facing,
    pub is_sleeping: bool,
    pub outfit: Outfit,
    pub day_count: u32,
    pub tide_low: bool,
    pub inventory: Inventory,
    pub world: WorldSave,
    pub progress: ProgressState,
    pub animals: Vec<AnimalSave>,
    pub terminal: TerminalState,
}

/// A map snapshot records a map: its objects and decor tile by tile, its
/// nonzero rocks, and its built tiles.
pub open spec fn world_captured(snap: WorldSave, w: World) -> bool {
    &&& snap.objects.len() == saves_upto(w.objects@, MAP_BYTES as int).len()
    &&& forall|k: int|
        0 <= k < snap.objects.len() ==> save_view(#[trigger] snap.objects[k]) == saves_upto(
            w.objects@,
            MAP_BYTES as int,
        )[k]
    &&& snap.decor.len() == saves_upto(w.decor@, MAP_BYTES as int).len()
    &&& forall|k: int|
        0 <= k < snap.decor.len() ==> save_view(#[trigger] snap.decor[k]) == saves_upto(
            w.decor@,
            MAP_BYTES as int,
        )[k]
    &&& snap.rocks@ == rocks_upto(w.rocks@, MAP_BYTES as int)
    &&& snap.player_built@.to_set() == w.player_built@
}

/// A map holds exactly what a snapshot restores: its entries written onto
/// empty layers, zero rocks elsewhere, and the saved built tiles.
pub open spec fn world_restored(snap: WorldSave, w: World) -> bool {
    &&& layer_view(w.objects@) == restore_upto(empty_layer(), snap.objects@, snap.objects@.len() as int)
    &&& layer_view(w.decor@) == restore_upto(empty_layer(), snap.decor@, snap.decor@.len() as int)
    &&& w.rocks@ == rocks_restored(
        Seq::new(MAP_BYTES as nat, |i: int| 0u8),
        snap.rocks@,
        snap.rocks@.len() as int,
    )
    &&& w.player_built@ == snap.player_built@.to_set()
}

/// `d` is the save written of a game in the given state.
pub open spec fn saved_from(
    d: SaveData,
    facing: Facing,
    is_sleeping: bool,
    outfit: Outfit,
    day_count: u32,
    inventory: Inventory,
    world: World,
    progress: ProgressState,
    animals: Seq<AnimalRecord>,
    terminal: TerminalState,
) -> bool {
    &&& d.version == SAVE_VERSION
    &&& d.level@ == "island"@
    &&& d.facing == facing
    &&& d.is_sleeping == is_sleeping
    &&& d.outfit == outfit
    &&& d.day_count == day_count
    &&& d.tide_low == world.tide_low
    &&& d.inventory.wf()
    &&& same_counts(d.inventory, inventory)
    &&& world_captured(d.world, world)
    &&& progress_view(d.progress) == progress_view(progress)
    &&& d.animals@.len() == animals.len()
    &&& forall|k: int| 0 <= k < animals.len() ==> animal_save_view(#[trigger] d.animals@[k]) == record_view(animals[k])
    &&& same_terminal(d.terminal, terminal)
}

/// A game is in the state that restoring `d` leaves behind.
pub open spec fn restored_from(
    d: SaveData,
    facing: Facing,
    is_sleeping: bool,
    outfit: Outfit,
    day_count: u32,
    inventory: Inventory,
    world: World,
    progress: ProgressState,
    animals: Seq<(usize, AnimalRecord)>,
    terminal: TerminalState,
) -> bool {
    &&& facing == d.facing
    &&& is_sleeping == d.is_sleeping
    &&& outfit == d.outfit
    &&& day_count == d.day_count
    &&& inventory.wf()
    &&& same_counts(inventory, d.inventory)
    &&& world_restored(d.world, world)
    &&& world.tide_low == d.tide_low
    &&& progress_view(progress) == progress_view(d.progress)
    &&& restored_view(animals) == restored_animals(d.animals@, d.animals@.len() as int)
    &&& same_terminal(terminal, d.terminal)
}

impl SaveData {
    /// Write the save of a game: everything but positions, meters and clock
    /// readings, which the caller keeps beside it.
    pub fn from_game(
        facing: Facing,
        is_sleeping: bool,
        outfit: Outfit,
        day_count: u32,
        inventory: &Inventory,
        world: &World,
        progress: &ProgressState,
        animals: &Vec<AnimalRecord>,
        terminal: &TerminalState,
    ) -> (r: SaveData)
        requires
            inventory.wf(),
            world.wf(),
        ensures
            saved_from(
                r,
                facing,
                is_sleeping,
                outfit,
                day_count,
                *inventory,
                *world,
                *progress,
                animals@,
                *terminal,
            ),
    {
        let level = String::from_str("island");
        proof {
            reveal_strlit("island");
        }
        SaveData {
            version: SAVE_VERSION,
            level,
            facing,
            is_sleeping,
            outfit,
            day_count,
            tide_low: world.tide_low,
            inventory: inventory.duplicate(),
            world: WorldSave::from_world(world),
            progress: progress.duplicate(),
            animals: animals_to_save(animals),
            terminal: terminal.duplicate(),
        }
    }

    /// Restore a save onto a running game: the player's facing, sleep and
    /// clothing, the day number, the inventory, the map snapshot and tide
    /// target, and progress; the animals with known keys come back, and the
    /// saved terminal state is returned. The map's terrain stays as it is.
    pub fn apply_to_game(
        &self,
        facing: &mut Facing,
        is_sleeping: &mut bool,
        outfit: &mut Outfit,
        day_count: &mut u32,
        inventory: &mut Inventory,
        world: &mut World,
        progress: &mut ProgressState,
        animals: &mut Vec<(usize, AnimalRecord)>,
    ) -> (r: TerminalState)
        requires
            self.inventory.wf(),
            old(world).wf(),
        ensures
            restored_from(
                *self,
                *final(facing),
                *final(is_sleeping),
                *final(outfit),
                *final(day_count),
                *final(inventory),
                *final(world),
                *final(progress),
                final(animals)@,
                r,
            ),
            final(world).wf(),
            final(world).full@ == old(world).full@,
            final(world).borders@ == old(world).borders@,
            final(world).original_full@ == old(world).original_full@,
            final(world).original_borders@ == old(world).original_borders@,
            final(world).tide_rising == old(world).tide_rising,
    {
        *facing = self.facing;
        *is_sleeping = self.is_sleeping;
        *outfit = self.outfit;
        *day_count = self.day_count;
        *inventory = self.inventory.duplicate();
        self.world.apply_to_world(world);
        world.tide_low = self.tide_low;
        *progress = self.progress.duplicate();
        *animals = animals_from_save(&self.animals);
        self.terminal.duplicate()
    }
}

/// Restoring the save of a game gives the game back: the same facing,
/// sleep, clothing, day number, counts, map layers, built tiles, tide
/// target, progress and terminal state, and every animal in its order,
/// provided every key on the map and every animal key is one the registry
/// knows.
pub proof fn lemma_save_round_trip(
    d: SaveData,
    facing: Facing,
    is_sleeping: bool,
    outfit: Outfit,
    day_count: u32,
    inventory: Inventory,
    world: World,
    progress: ProgressState,
    animals: Seq<AnimalRecord>,
    terminal: TerminalState,
    facing2: Facing,
    is_sleeping2: bool,
    outfit2: Outfit,
    day_count2: u32,
    inventory2: Inventory,
    world2: World,
    progress2: ProgressState,
    animals2: Seq<(usize, AnimalRecord)>,
    terminal2: TerminalState,
)
    requires
        world.wf(),
        registered_layer(world.objects@),
        registered_layer(world.decor@),
        forall|k: int| 0 <= k < animals.len() ==> definition_of((#[trigger] animals[k]).key@) is Some,
        saved_from(d, facing, is_sleeping, outfit, day_count, inventory, world, progress, animals, terminal),
        restored_from(
            d,
            facing2,
            is_sleeping2,
            outfit2,
            day_count2,
            inventory2,
            world2,
            progress2,
            animals2,
            terminal2,
        ),
    ensures
        facing2 == facing,
        is_sleeping2 == is_sleeping,
        outfit2 == outfit,
        day_count2 == day_count,
        same_counts(inventory2, inventory),
        layer_view(world2.objects@) == layer_view(world.objects@),
        layer_view(world2.decor@) == layer_view(world.decor@),
        world2.rocks@ == world.rocks@,
        world2.player_built@ == world.player_built@,
        world2.tide_low == world.tide_low,
        progress_view(progress2) == progress_view(progress),
        restored_view(animals2) == Seq::new(animals.len(), |k: int| (k as usize, record_view(animals[k]))),
        same_terminal(terminal2, terminal),
{
    lemma_world_snapshot_round_trip(world, d.world, world2);
    lemma_restored_animals_all(d.animals@, animals, animals.len() as int);
    assert(restored_animals(d.animals@, animals.len() as int) =~= Seq::new(
        animals.len(),
        |k: int| (k as usize, record_view(animals[k])),
    ));
}

proof fn lemma_restored_animals_all(saves: Seq<AnimalSave>, animals: Seq<AnimalRecord>, n: int)
    requires
        0 <= n <= animals.len(),
        saves.len() == animals.len(),
        forall|k: int| 0 <= k < animals.len() ==> definition_of((#[trigger] animals[k]).key@) is Some,
        forall|k: int| 0 <= k < animals.len() ==> animal_save_view(#[trigger] saves[k]) == record_view(animals[k]),
    ensures
        restored_animals(saves, n) =~= Seq::new(n as nat, |k: int| (k as usize, record_view(animals[k]))),
    decreases n,
{
    if n > 0 {
        lemma_restored_animals_all(saves, animals, n - 1);
        let a = animals[n - 1];
        assert(animal_save_view(saves[n - 1]) == record_view(a));
        assert(definition_of(a.key@) is Some);
        lemma_definition_key_is_query(a.key@);
    }
}

} // verus!
