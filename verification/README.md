# framewise widgets

The widget layer of an immediate-mode UI toolkit, verified with Verus.

- `src/` is the library. Every widget module holds its style, spec, state and
  result types, its builder, and a `raw` module with the per-frame decisions:
  size requests, checkbox state cycling, chip, button and drag-number input
  handling, meter bar colours, menu row heights and entry colours, the
  frame's begin/end draw-command bracket with its border, and the command
  sequences of the button, checkbox, chip and colour swatch. Geometry and colour channels are a type
  parameter `L`; the library never computes with it, so what it states holds
  for any scalar type.
- `app/` is ordinary Rust around the library for the `f32` renderer: the
  theme-derived styles and colour conversions, size requests from measured
  text, the drag number's value arithmetic, and the layout and tinting of
  the frame, meter, colour swatch, button, checkbox and chip frames, all
  floating-point computations. Label glyphs, and the widgets drawn mostly as
  text (label, keycap, menu, drag number, divider), need the text backend
  and draw module, which are not part of this crate.
- `tests/` runs the library on concrete values.
