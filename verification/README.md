# breakout

A breakout game for the BBC micro:bit v2, whose rules are a Verus library.

- `src/` — the verified rules: the LED frame (`raster`), the wall of blocks
  and the paddle row (`wall`), the game's rules with blocks on row 1, the
  paddle on row 4 and three balls in reserve (`game`), the classic layout
  with the paddle on row 0 and blocks on row 3 (`breakout`), and the
  speaker's beep as a per-interrupt state machine (`beep`), and the
  hand-over of the paddle between the knob and the buttons (`control`). Each module
  states and proves its laws as public proof functions.
- `app/` — the firmware around it: the ball's floating-point flight, the
  knob and buttons, the display and speaker drivers, and the main loop.
- `tests/` — the rules run on concrete boards and frames.
