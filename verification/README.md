# moujin

A Discord bot that plays music in voice channels and shows Final Fantasy XIV
characters, split in two:

- `src/` — the verified library (Verus): slash-command declarations and
  routing (`/ping`, `/character`, `/join`, `/play`), the `/character` lookup
  and its answer, the `/play` and `/stop` flows as state machines (state +
  event → next state + actions), the player message with its pause, skip and
  stop buttons and what a press does to the queue, the refresh of the player
  when a track ends, and the per-guild record of the player message in the
  INI configuration (through `rust-ini`).
- `app/` — the program: Discord (serenity), the voice driver (songbird),
  HTTP (reqwest), JSON (serde_json) and file access; it performs the actions
  the library asks for and reports back what happened.
- `tests/` — tests of the library on concrete values.
