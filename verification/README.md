# starsight

A plotting library whose exact, integer- and text-level logic is verified with
Verus.

- `src/` is the verified library: colors and CSS hex text, themes, built-in
  palettes and per-item color lookup, marching-squares contour cells, π-fraction
  tick labels, the SVG document backend and the error type. Every public
  function carries a contract, and the library's laws stand there as public
  proof functions.
- `app/` holds the parts that Verus does not check: floating-point geometry of
  the marks, scales, axes and tick search, the raster backend, colormaps, file
  output, and the copies of library types that carry outside derives.
- `tests/` exercises the library with the outside crates linked.
