# swb021bk_driver

Button remapping for a cheap drawing tablet on Linux, verified with Verus.

- `src/` is the verified library: button state tracking (clicks and holds),
  the controller that maps tablet buttons to drawing actions (undo, redo,
  panning, zoom, brush/eraser/select modes), the keyboard shortcuts of each
  supported application (Rnote, LibreSprite, Krita), the tray/driver message
  replies and icon decoding. Its contracts, and the laws proved beside them,
  state what each step does and that the virtual keyboard is never left with a
  stray key held.
- `app/` is the program around it: it grabs the tablet with evdev, creates the
  uinput keyboard, emits the key events the library computes, and runs the
  tray icon.
- `tests/` exercise the library on concrete inputs.
