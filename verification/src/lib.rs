//! Verified core of a Flappy Bird clone: the OpenGL enumeration codes, the
//! vertex-attribute layout planner, texture-atlas and glyph-atlas geometry,
//! and the game's integer state machines (pipe ring, bird animation, round
//! clock, button hover events).
pub mod graphics;
pub mod game;
