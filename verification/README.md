# Shipwrecked

A top-down island survival game. The rules of the game live in a library
whose functions carry contracts checked by Verus; the window, input, clock,
floating-point movement and file access live in a thin application around it.

- `src/` — the verified library: items and inventory (`inventory`), recipes
  (`recipes`), the object registry (`objects`), the island grid and its tides
  (`world`), reading the Tiled map (`map`), player and animal rules (`player`,
  `npc`), what the action keys do (`actions`), the decisions of the game loop
  and the menus (`game`), input actions (`input`), the save snapshot and
  progress (`save`), packed sprite identifiers (`atlas`), tutorial thoughts
  and interface strings (`behavior`).
- `tests/` — tests run against the compiled library.
- `app/` — the macroquad program: rendering, input polling, the day clock,
  movement with floating-point positions, JSON save files and the map file.
