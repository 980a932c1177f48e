# piet_stdweb

A [piet](https://crates.io/crates/piet) 2D rendering backend that draws on an
HTML canvas through [stdweb](https://crates.io/crates/stdweb).

- `src/` is the verified library:
  - `css.rs`: the CSS color text of a packed RGBA color (`#rrggbb`, or
    `rgba(r,g,b,0.ddd)`), decimal and fixed-width digits, and the proof that
    distinct colors get distinct text;
  - `font.rs`: fonts and their CSS `font` text;
  - `canvas.rs`: the calls that `src/` makes on a canvas context; they can
    only be made through a `Canvas` (the borrowed context) or a
    `MeasuringCanvas` (a counted second handle), and the function that makes
    each call states the entry it adds to the record. The floating-point
    calls that `app/` makes through `Canvas::ctx` are not recorded;
  - `drawing_state.rs`: the fill style, stroke style and font that recorded
    calls leave, with `save` and `restore` as the HTML canvas defines them,
    and the proof that `restore` brings back what the matching `save` kept;
  - `render.rs`: the render context, brushes, text layouts and images, whose
    contracts state the calls they make on the canvas;
  - `bindings.rs`, `strings.rs`: the outside types, a gradient clone and
    `String::push`.
- `app/` implements piet's traits on top of the library, and holds what works
  in floating point (geometry, gradients, text widths) or calls JavaScript
  through `js!`.
- `tests/` runs the parts that need no browser: stdweb's calls only link in
  a WebAssembly build.
