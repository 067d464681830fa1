# oasis_walk

The rules of a small third-person walking game in a desert town, as a Verus library.

- `src/` holds the verified rules: the player's state machine (`state`, `movement`),
  the collider and model bookkeeping for crouching (`posture`), animation switching
  (`animation`), the camera's view switch and height (`camera`), the cursor capture
  (`cursor`), and the town's layout (`world`). Lengths are integer millimetres, speeds
  millimetres per second, durations milliseconds.
- `app/` is the Bevy/Avian game around it: it reads the keyboard, mouse and physics
  casts, hands the library plain values, and applies the decisions in floating point.
- `tests/` runs the library on concrete inputs.
