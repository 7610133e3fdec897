# royal_chess

The rules and state of Royal 3D Chess, a chess game with an engine
opponent, story chapters, boss matches, puzzles, replays and local
accounts, written in Verus with its behaviour stated in contracts.

- `src/` is the verified library. Positions are FEN text; the `chess`
  crate answers every rules question through the trusted items of
  `engine.rs`, each handed only text that `fen.rs` has checked the crate
  can read safely. `game.rs` holds the match controller (moves, promotion,
  puzzles, undo, replay), `bot.rs` the engine opponent (evaluation,
  alpha-beta search, humanised choice), `app.rs` the application state
  (accounts, match history, campaign progress), `storage.rs` the keys and
  defaults of the stored data, `audio.rs` the sounds, `menu.rs` what the
  menus show, `scene.rs` what the board's drawing reads, and `laws.rs` the properties that tie operations together.
- `tests/` runs the library against the real `chess` crate.
- `app/` is the front end: browser storage through serde, sound and
  speech through `web-sys`, the clock and random draws, and the scene's
  floating point colour and size tables.
