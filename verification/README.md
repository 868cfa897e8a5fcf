# inf_runner

Urban Odyssey, an endless runner: the player skates over generated hills,
collects coins and power-ups, and avoids or uses obstacles.

- `src/` is the game's logic, verified with Verus: rectangles and collisions
  (`rect`), the game's kinds of things (`types`), the player, collectibles and
  obstacles (`physics`), terrain segments and random choices
  (`proceduralgen`, `random`), the running game's frame decisions
  (`runner`), the objects on the terrain, never more than ten at once
  (`objects`), the menu, instruction and credit screens (`screens`), the
  scrolling demo (`demo`), and properties that span several calls (`laws`).
- `app/` is the program around it: the SDL window, events and drawing, and
  the floating-point parts of the game (velocities, forces, rotation, and the
  Bezier and Perlin shapes of the terrain).
- `tests/` exercises the library on concrete values.
