# Industrial Evolution

A small factory-management game: the player buys wood, runs assemblies
(wood chipper, pulp machine, paper machine, saw mill), hires workers,
gives them jobs, and sells what the factory makes before the bills come
due each night.

## Layout

- `src/` — the game rules as a Verus-verified library (`industrial_evolution`):
  item containers, tile neighbourhoods and path following (with A* search
  from the `pathfinding` crate), worker jobs and item hand-over, assembly
  production, player modes, dialogues, the tutorial and the interface
  decisions.  Every public function carries a `requires`/`ensures`
  contract; the public `lemma_*` proof functions state the laws that hold
  across calls.
- `tests/` — tests of the library on concrete values.
- `app/` — the game program around the library: the bevy engine, the
  tile map, the kayak_ui interface, and everything computed in floating
  point (movement, money, market prices, power).
