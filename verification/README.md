# flaretro

A libretro core that clears an OpenGL framebuffer to a grey that blinks
between two shades and draws a triangle with a shader read from disk.

- `src/` is the verified library (Verus): the frame counter and what each
  frame looks like (`video`), how shader sources and paths are put together
  and how driver replies are read (`shader`), and the negotiation with the
  frontend when a game is loaded (`load`).
- `app/` holds the C entry points that a libretro frontend calls, the OpenGL
  calls and the file reading, and hands plain values to the library.
- `tests/` runs the library on concrete values.
