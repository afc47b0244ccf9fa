# game_server

The rules of a racing game's server as a verified library, and the server around it.

Cars are driven by bots. A backend runs in one of three modes: an official one holds
scheduled races between teams, a local one serves sandboxes and races on a player's own
machine, and a standalone one does so without accounts. The server keeps a store of the
cars on the track, streams what happens to drivers and spectators, starts and watches
the containers in which bots run, serves the files of the maps, and lets administrators
change races and sandboxes.

## Layout

- `src/` is the library. Its functions are verified by Verus against their contracts, but
  for the small wrappers around functions of other crates and of std: their contracts are
  taken for granted.
  - `race/` holds the runtime store, the frame of each tick and what spectators see;
    `participant/` how a car joins, drives, is restarted and leaves, and how an official
    race is launched and recorded; `race_table/` the standings.
  - `race_config/`, `sandbox_config/`, `local_sandbox/` and `local_race` hold the rules
    of the administration; `menu/` and `connect` what a client sees first.
  - `asset/` holds the rules for the maps' files, `builds/` those for uploads of bots,
    `achievement` the stream that achievements are judged by, `server/` what the server
    itself decides.
  - `text`, `text_map`, `id_map`, `sorting`, `timestamp`, `float_bits` and `ids` are
    what the rest is written with.
- `tests/` runs the library.
- `app/` is the server around it: clocks, files, containers, channels and the calls into
  the engine. Work that takes turns with the engine is written in the library as steps:
  each says what is to be done next and takes the outcome.

## Conventions

- A refusal is a `Status`, whose view is a code and a message.
- Floating-point numbers pass through the library as their bit patterns; what is computed
  with them is computed in `app/`.
- The public proof functions state what holds of several functions together: that a
  configuration is read back as it was stored, that a car that was removed leaves nothing
  behind, that a secret that was masked stays as it is when it is masked again.
- A wrapper stands next to its use, with a comment that says what is taken for granted.
