# sand_simulation

A falling-sand cellular automaton whose rules run in 32 by 32 tiles, one
tile per GPU workgroup, with contracts proved by Verus.

- `src/` is the verified library: tile geometry (`geometry`), materials and
  cells (`material`, `cell`), shader parameters (`params`), the tile and its
  moves (`grid`), the sand rule (`compute`), one workgroup and a whole
  compute pass on the CPU (`workgroup`), laws about whole passes (`frame`),
  the integer hash family (`hash`), what a pixel shows (`render`), the host's
  per-frame decisions (`simulation`), window-event handling (`application`)
  and the command-line options (`options`).
- `tests/` exercises the library on concrete values.
- `app/` is the viewer: window, GPU resources, shader compilation and the
  floating-point edges of the shaders, around the library's decisions.

Among the proved laws: a sand step only swaps two cells of its tile, sand
never leaves its tile or wraps around the grid's edge, and when the grid is a
whole number of tiles wide and high a compute pass writes every cell exactly
once and keeps the multiset of cells; the two cell buffers take turns as
input and output, and `current_buffer` names the one written last.
