# space_looter

The rules of an isometric space-exploration game, written in Verus and proved
against their contracts: positions, tiles and chunks; the world map and its
generation; fog of war; dice, resources and rewards; the player, bases, quests
and events; game sessions and their phases; audio playlists and playback; input
handling; and seeded random generators (two linear congruential ones, stated draw by
draw, and one built on `fastrand`, whose draws are named and tied to its state).

- `src/` is the verified library. `domain/` holds the game model and its
  services, `application/` the use cases and session services, and
  `infrastructure/` the random generators, timekeeping and the game-engine
  resources held as plain values.
- `tests/` exercises the library on concrete values.
- `app/` is the unverified part: floating-point quantities (volumes,
  velocities, colours, probabilities), the clock and platform plumbing.
