# cadence

The playback logic of a small desktop music player, verified with Verus.

- `src/` — the library. `model.rs` states the player as a mathematical value
  (`PlayerModel`) and each control as a function on it; `player.rs` holds the
  executable player (`CadenceApp`) whose controls are proved to follow those
  functions and to keep `PlayerModel::wf`; `laws.rs` proves properties that
  span several controls; `labels.rs` computes the text the window shows;
  `text.rs` formats numbers; `song.rs` builds queue entries; `icon.rs` draws
  the window icon.
- `tests/` — tests on concrete values.
- `app/` — the window (egui), audio output and decoding (rodio) and the file
  picker (rfd). The library returns a `Command` for each control; `app/`
  carries it out and reports back when a song has started or moved.
