# tomb_of_the_moon

The screen and spawning logic of a small terminal dungeon crawler, verified with Verus.

- `src/` is the library. Each screen (`gui.rs`: main menu, game over, item menus,
  targeting; `hud.rs`: status panel and tooltips) is computed as a list of drawing
  commands (`draw.rs`) together with the screen's answer to the key or click of the
  frame. `spawner.rs` describes the player, the monsters and the items as lists of
  components and decides what a room receives and where, drawing from the weighted
  table of `random_table.rs`; `dice.rs` holds the dice it throws, with the record of every
  throw that the contracts speak of. `text.rs` renders integers in decimal. `outside.rs`
  holds the calls into `bracket-lib` and `specs` with the contracts the proofs rely on.
- `app/` performs the commands on a `bracket-lib` terminal, reads the `specs` world, and
  builds the entities that the spawner describes.
- `tests/` exercises the library on concrete values.
