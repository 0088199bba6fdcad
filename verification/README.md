# kingdom_sim

A small colony simulation: creatures gather resources, harvest bushes, cut
trees, plant, carry items and construct buildings.

The crate is split in two.

- `src/` is the library, verified with Verus. It holds the bookkeeping of
  the game: item batches and how carriers pick them up and hand them over,
  construction site storage, resource chunks and carrying volume, countdown
  timers and the production schedule, work rosters, creature task queues and
  the decisions taken when a task starts or ends, and the text of the in-game
  clock. Each public function states its behaviour in `requires` / `ensures`;
  the functions named `law_*` are proof functions stating properties that
  hold across calls (conservation of items, capacity of work processes, the
  period of a countdown, and so on).
- `app/` is the game itself, on Bevy (headless): the ECS systems, world
  creation, movement, the quad tree that tracks occupied areas, weather and
  the day/night cycle. Everything computed there in floating point stays
  there; the systems call the library for the rest.

`tests/` runs the library on concrete values.
