use shipwrecked::actions::location_thought_for_player;
use shipwrecked::behavior::{
    location_thought_for_marker, location_thoughts, strings, FIRST_THOUGHT_MARKER,
    LAST_THOUGHT_MARKER,
};
use shipwrecked::save::ProgressState;
use shipwrecked::world::{World, MAP_BYTES};
use std::collections::HashSet;

fn empty_world() -> World {
    World {
        full: vec![0; MAP_BYTES],
        borders: vec![0; MAP_BYTES],
        decor: vec![None; MAP_BYTES],
        objects: vec![None; MAP_BYTES],
        rocks: vec![0; MAP_BYTES],
        original_full: vec![0; MAP_BYTES],
        original_borders: vec![0; MAP_BYTES],
        tide_low: false,
        tide_rising: false,
        player_built: HashSet::new(),
    }
}

#[test]
fn location_thought_markers_cover_original_tutorial_range() {
    let thoughts = location_thoughts();
    let markers = thoughts
        .iter()
        .map(|thought| thought.marker)
        .collect::<HashSet<_>>();

    for marker in 50..=62 {
        assert!(markers.contains(&marker), "missing marker {marker}");
    }
    assert_eq!(thoughts.len(), 13);
}

#[test]
fn location_thought_flags_are_unique() {
    let thoughts = location_thoughts();
    let flags = thoughts
        .iter()
        .map(|thought| thought.flag)
        .collect::<HashSet<_>>();

    assert_eq!(flags.len(), thoughts.len());
}

#[test]
fn markers_outside_the_tutorial_range_carry_no_thought() {
    assert!(location_thought_for_marker(FIRST_THOUGHT_MARKER - 1).is_none());
    assert!(location_thought_for_marker(LAST_THOUGHT_MARKER + 1).is_none());
    assert!(location_thought_for_marker(0).is_none());
    let first = location_thought_for_marker(50).unwrap();
    assert_eq!(first.flag, "marker_50_intro");
    assert!(first.text.starts_with("Where am I?"));
}

#[test]
fn each_location_thought_is_shown_once() {
    let mut world = empty_world();
    let idx = World::index(8, 149).unwrap();
    world.rocks[idx] = 52;
    let mut progress = ProgressState::new();

    let first = location_thought_for_player(&world, (8, 149), (8, 148), &mut progress);
    assert_eq!(
        first,
        Some("Hey, what's that object on the floor? Stand in front of it and press Space to pick it up.")
    );
    assert!(progress.has_tutorial_flag("marker_52_pickup"));

    let second = location_thought_for_player(&world, (8, 149), (8, 148), &mut progress);
    assert_eq!(second, None);
}

#[test]
fn faced_marker_is_shown_before_the_players_own() {
    let mut world = empty_world();
    world.rocks[World::index(8, 149).unwrap()] = 55;
    world.rocks[World::index(8, 148).unwrap()] = 56;
    let mut progress = ProgressState::new();

    let first = location_thought_for_player(&world, (8, 149), (8, 148), &mut progress).unwrap();
    assert!(first.contains("coconuts"));
    let second = location_thought_for_player(&world, (8, 149), (8, 148), &mut progress).unwrap();
    assert!(second.contains("Net and Potato"));
    assert!(location_thought_for_player(&world, (8, 149), (8, 148), &mut progress).is_none());
}

#[test]
fn interface_strings_keep_their_order() {
    let s = strings();
    assert_eq!(s.len(), 19);
    assert_eq!(s[0], "LOAD");
    assert_eq!(s[17], "You've won!");
}
