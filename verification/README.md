# flappy_bird

A Flappy Bird clone on OpenGL 4.6, split in two:

- `src/` is a library verified with Verus. It holds the parts of the game
  that decide or compute on plain values: the OpenGL enumeration codes and
  their decoding, clear masks, the vertex-attribute layout of a vertex array,
  texture-atlas frames and the glyph-atlas layout, image decoding for textures
  (through the `image` crate), the anchor tables of boxes and the texture
  mirrorings, and the game's state machines: the pipe ring, the bird's wing
  animation, the clock of a round, and the hover events of menu buttons.
- `app/` is the program around it: the window and input (`glfw`), every
  OpenGL call (`gl`), sound (`rodio`), font rendering (`ttf-parser`,
  `msdfgen`), and all floating-point geometry and physics.

The game reads its sounds, fonts, textures and shaders from a `res/`
directory at run time.
