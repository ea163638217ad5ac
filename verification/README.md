# bevy_vello

Vector graphics (SVG, Lottie, text) for a game engine, rendered with vello.

- `src/` is the verified core, written in Verus: the lottie player's state
  machine and transition rules, the playback decisions taken at segment
  edges, the double-buffered text layout cache, themes, font axis styling,
  render extraction and picking decisions, loader extension rules, the text
  layout cache key, font registration, the check that a parsed Lottie
  document uses only features the runtime import supports, and the loading
  of SVG and Lottie assets through their parsing crates.
- `app/` is ordinary Rust around the core: the floating-point playhead,
  anchor and picking geometry, text layout and drawing with parley and vello,
  recoloring of compositions, file loading and error messages.
- `tests/` exercises the core through its public API.

`usvg` is named in `Cargo.toml` only to switch on its `text` and
`system-fonts` features: the SVG parser loads the system fonts through the
font database those features provide.
