# robo

The fighting logic of a two-player platform fighter, verified with Verus.

- `src/` is the library. `fighter` holds a fighter's discrete state and its per-frame state
  machine (`Fighter2D::resume`), which hands every piece of physics, animation and collision
  work to its caller as commands and queries. `input` holds the controllers (player input
  buffering, the computer player's decisions) and the input-map naming; `attack` the hit
  registration of attack hitboxes; `gui` the device-to-slot bookkeeping of the versus setup;
  `text` decimal formatting for generated names.
- `app/` is the Godot extension around it: the engine classes, input devices, the
  floating-point physics, and the loop that runs a fighter's frame against the library.
- `tests/` exercises the library on concrete frames and inputs.
