# benilla

The logic of a game client, verified: what server reports do to the session, how remote and own
movement is driven and reported, the lifecycles of particle emitters and ribbon trails, the portrait
booths, the warm pass over render pipelines, and the frame-time readout.

- `src/` is the library. Every function in it is verified against its contract.
  - `net` — what the reports of the server do; `net::motion` — the movement of remote units
  - `player` — own movement: steering, the mover's decisions, swimming, following, and the wire
  - `particles`, `ribbons` — emitters, their pools and quads, and trails
  - `portrait` — what a portrait shows, its booths, and when they bake
  - `perf`, `pipe_warm` — frame times, and pipelines compiled under cover
  - `npc_text`, `text`, `single`, `move_flags` — text with macros, building blocks of text, floating-point
    numbers as ordered bit patterns, movement flags
- `tests/` runs the library on concrete values.
- `app/` is ordinary Rust around it: the engine, the channel to the session, files, and all
  floating-point arithmetic.

Floating-point numbers pass through the library as bit patterns. It compares them exactly as the
hardware does, negates them, takes their magnitude, the lesser of two and the nearest within bounds;
all arithmetic on them is in `app/`.

Places are in the engine's axes in our own movement and commands, and in the wire's in the movement of
remote units. `app/` changes the basis of every place that crosses the wire.
