# flappy

A small side-scrolling bird game. The game's rules live in a library that
is verified with Verus (`src/`); the Bevy program that draws the game, reads
input and integrates the floating-point motion lives in `app/`.

- `src/gameplay.rs`: the screen state machine (main menu, get ready, play,
  game over) and its laws.
- `src/player.rs`: which bird systems run in each screen, the jump rule, the
  flapping animation and its clock, and how many deaths a collision pass raises.
- `src/ui.rs`: hover tracking, sprite buttons and menu actions.
- `src/screens.rs`: the menu button's frames and the start shortcut.
- `src/pipes.rs`, `src/debug.rs`: pipe numbering and the debug overlay flag.
- `tests/`: tests of the library on concrete values.
- `app/`: the Bevy program.
