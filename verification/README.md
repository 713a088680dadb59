# nih_plug_iced

Widgets for NIH-plug editors built with iced: a parameter slider and a peak
meter. The decisions the widgets make are verified with Verus:

- `src/param_slider.rs` — the slider's interaction state machine: how presses,
  releases, moves and modifier changes (and messages of its text entry) move it
  between idle, dragging, granular dragging and text entry, and which parameter
  messages each of them sends, in order.
- `src/gestures.rs` — proofs that parameter changes are only ever sent inside a
  begin/end gesture, that gestures never nest and that begin and end messages
  stay paired with the drag state, for single events and for whole runs of
  inputs. The pairing and no-nesting laws exclude one kind of input: a press
  inside the slider (or a submit of its text entry) while it is already being
  dragged, which begins a second gesture before the first is ended.
- `src/peak_meter.rs` — the meter's tick positions, scale labels and peak-hold
  timing, with proofs about how long a peak stays on display.
- `src/decimal.rs` — decimal rendering of integers for the scale labels.

`app/` holds the iced widgets themselves: layout, drawing and the
floating-point mapping between screen coordinates and normalized parameter
values. They report each input event to the verified state machine and carry
out the actions it returns.
